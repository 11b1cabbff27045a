//! End-to-end scenarios over the orchestration core, with the radio and
//! the transport simulated by plain values.

use bluer_test::address::{Address, Uuid};
use bluer_test::adv::{AdvertisementPayload, AdvertisementSpec};
use bluer_test::errors::TestError;
use bluer_test::matcher::{
    resolve, DeviceProps, Fingerprint, MatchResult, ScanEvent, ServiceDataEntry,
    SCAN_TIMEOUT_SECS,
};
use bluer_test::orchestrator::{begin_session, end_session, LoopDecision};
use bluer_test::plan::plan_advertising_test;
use bluer_test::pool::{AdapterInfo, AdapterPool};

fn two_adapters() -> Vec<AdapterInfo> {
    vec![
        AdapterInfo {
            address: Address::from_octets(&[0x5c, 0xf3, 0x70, 0xa1, 0x71, 0x0f]),
            name: String::from("hci0"),
        },
        AdapterInfo {
            address: Address::from_octets(&[0x5c, 0xf3, 0x70, 0xa1, 0x71, 0x10]),
            name: String::from("hci1"),
        },
    ]
}

/// What a scanner reads back from a device broadcasting `ad`.
fn read_back(ad: &AdvertisementSpec) -> DeviceProps {
    let (uuids, service_data): (Vec<Uuid>, Vec<ServiceDataEntry>) = match &ad.payload {
        AdvertisementPayload::ServiceUuids { uuids } => (uuids.clone(), Vec::new()),
        AdvertisementPayload::ServiceData { entries } => (
            Vec::new(),
            entries
                .iter()
                .map(|e| ServiceDataEntry { uuid: e.uuid, data: e.data.clone() })
                .collect(),
        ),
    };
    DeviceProps { name: ad.local_name.clone(), uuids, service_data }
}

#[test]
fn advertised_uuid_and_name_are_matched() {
    let adapters = two_adapters();
    let mut pool = AdapterPool::new();
    let session = begin_session(&mut pool, &adapters, false).unwrap();

    // The client plans the test and asks the server to advertise.
    let plan = plan_advertising_test(
        128,
        0xdead_beef_0000_0000,
        Uuid { bits: 0x1234_5678_9abc_def0_1234_5678_9abc_def0 },
        None,
    )
    .unwrap();
    let (advertisement, mut handle) = session.advertise_service_uuids(
        plan.advertisement.local_name.clone(),
        match plan.advertisement.payload {
            AdvertisementPayload::ServiceUuids { ref uuids } => uuids.clone(),
            _ => panic!("uuid-mode plan carries a service-UUID payload"),
        },
    );

    // The client scans with its own adapter and sees the broadcast.
    let fingerprint = Fingerprint {
        expected_address: Address::from_octets(&session.get_server_address()),
        mode: plan.mode,
    };
    let events = vec![
        ScanEvent::DeviceAdded {
            address: Address { bits: 0x99 },
            props: DeviceProps { name: None, uuids: Vec::new(), service_data: Vec::new() },
        },
        ScanEvent::DeviceAdded {
            address: fingerprint.expected_address,
            props: read_back(&advertisement),
        },
        ScanEvent::TimeoutFired,
    ];
    assert_eq!(resolve(&fingerprint, &events), MatchResult::Matched);

    // The client drops its cancellation handle; the broadcast stops once.
    assert!(handle.stop());
    assert!(!handle.finish());
    assert_eq!(handle.stops_delivered, 1);

    assert_eq!(end_session(&mut pool, &session), LoopDecision::AcceptNext);
}

#[test]
fn absent_advertisement_times_out() {
    let adapters = two_adapters();
    let mut pool = AdapterPool::new();
    let session = begin_session(&mut pool, &adapters, false).unwrap();

    // The server never advertises: the scan sees nothing relevant for
    // the whole 20-second window, then the timeout fires.
    assert_eq!(SCAN_TIMEOUT_SECS, 20);
    let fingerprint = Fingerprint {
        expected_address: Address::from_octets(&session.get_server_address()),
        mode: bluer_test::matcher::MatchMode::UuidPresence { uuid: Uuid { bits: 0x1234 } },
    };
    let events = vec![ScanEvent::TimeoutFired];
    assert_eq!(resolve(&fingerprint, &events), MatchResult::TimedOut);

    assert_eq!(end_session(&mut pool, &session), LoopDecision::AcceptNext);
}

#[test]
fn second_connection_on_two_adapters_finds_no_free_adapter() {
    let adapters = two_adapters();
    let mut pool = AdapterPool::new();

    // The first connection holds both adapters while it is served.
    let first = begin_session(&mut pool, &adapters, false).unwrap();

    // A second connection accepted meanwhile needs a third adapter.
    let err = begin_session(&mut pool, &adapters, false).unwrap_err();
    assert_eq!(err, TestError::NoFreeAdapter);

    // Once the first connection finishes, serving works again.
    assert_eq!(end_session(&mut pool, &first), LoopDecision::AcceptNext);
    assert!(begin_session(&mut pool, &adapters, false).is_ok());
}

#[test]
fn kill_request_stops_the_accept_loop() {
    let adapters = two_adapters();
    let mut pool = AdapterPool::new();
    let mut session = begin_session(&mut pool, &adapters, false).unwrap();

    assert!(session.kill_server());

    // Both leases are returned even on shutdown, and the loop exits.
    assert_eq!(end_session(&mut pool, &session), LoopDecision::Shutdown);
    assert!(begin_session(&mut pool, &adapters, false).is_ok());
}

use bluer_test::address::{Address, Uuid};
use bluer_test::adv::{AdvertisementHandle, AdvertisementPayload, AdvertisementSpec};
use bluer_test::errors::TestError;
use bluer_test::matcher::{outcome_to_result, MatchResult};
use bluer_test::plan::{advertise_name, plan_advertising_test, select_service_uuid};
use bluer_test::pool::AdapterInfo;
use bluer_test::retry::{RetryDecision, RetryPolicy};
use bluer_test::session::TestSession;

#[test]
fn address_octets_round_trip() {
    let octets = [0x5c, 0xf3, 0x70, 0xa1, 0x71, 0x0f];
    let addr = Address::from_octets(&octets);
    assert_eq!(addr.bits, 0x5c_f3_70_a1_71_0f);
    assert_eq!(addr.octets(), octets);
}

#[test]
fn short_uuid_embeds_into_the_base_uuid() {
    let uuid = Uuid::from_u16(0x1800);
    assert_eq!(uuid.bits, 0x0000_1800_0000_1000_8000_0080_5f9b_34fb);
}

#[test]
fn advertise_name_is_sixteen_lowercase_hex_digits() {
    assert_eq!(advertise_name(0xdead_beef_dead_beef), "deadbeefdeadbeef");
    assert_eq!(advertise_name(0), "0000000000000000");
    assert_eq!(advertise_name(u64::MAX), "ffffffffffffffff");
    assert_eq!(advertise_name(0x0123_4567_89ab_cdef), "0123456789abcdef");
}

#[test]
fn select_service_uuid_supports_only_two_widths() {
    let random = Uuid { bits: 0x42 };
    assert_eq!(select_service_uuid(128, random).unwrap().bits, 0x42);
    assert_eq!(
        select_service_uuid(16, random).unwrap().bits,
        0x0000_1800_0000_1000_8000_0080_5f9b_34fb
    );
    let err = select_service_uuid(64, random).unwrap_err();
    assert!(matches!(err, TestError::InvalidArgument { .. }));
    assert_eq!(err.message(), "unsupported service UUID width");
}

#[test]
fn uuid_mode_plan_pairs_advertisement_and_fingerprint_mode() {
    let random = Uuid { bits: 0x1234 };
    let p = plan_advertising_test(128, 0xdead_beef_dead_beef, random, None).unwrap();

    assert!(p.advertisement.discoverable);
    assert_eq!(p.advertisement.local_name.as_deref(), Some("deadbeefdeadbeef"));
    match &p.advertisement.payload {
        AdvertisementPayload::ServiceUuids { uuids } => {
            assert_eq!(uuids.len(), 1);
            assert_eq!(uuids[0].bits, 0x1234);
        }
        _ => panic!("expected a service-UUID payload"),
    }
    match &p.mode {
        bluer_test::matcher::MatchMode::NameAndUuid { name, uuid } => {
            assert_eq!(name, "deadbeefdeadbeef");
            assert_eq!(uuid.bits, 0x1234);
        }
        _ => panic!("expected a name-and-UUID mode"),
    }
}

#[test]
fn service_data_plan_pairs_advertisement_and_fingerprint_mode() {
    let random = Uuid { bits: 0x1234 };
    let bytes = vec![1, 2, 3, 4, 5, 6, 7, 8];
    let p = plan_advertising_test(16, 7, random, Some(bytes.clone())).unwrap();

    match &p.advertisement.payload {
        AdvertisementPayload::ServiceData { entries } => {
            assert_eq!(entries.len(), 1);
            assert_eq!(entries[0].uuid.bits, 0x0000_1800_0000_1000_8000_0080_5f9b_34fb);
            assert_eq!(entries[0].data, bytes);
        }
        _ => panic!("expected a service-data payload"),
    }
    match &p.mode {
        bluer_test::matcher::MatchMode::ServiceData { name, uuid, data } => {
            assert_eq!(name, "0000000000000007");
            assert_eq!(uuid.bits, 0x0000_1800_0000_1000_8000_0080_5f9b_34fb);
            assert_eq!(data, &bytes);
        }
        _ => panic!("expected a service-data mode"),
    }
}

#[test]
fn unsupported_width_plan_is_an_invalid_argument() {
    let err = plan_advertising_test(32, 0, Uuid { bits: 1 }, None).unwrap_err();
    assert!(matches!(err, TestError::InvalidArgument { .. }));
}

#[test]
fn stopping_an_advertisement_twice_delivers_one_teardown() {
    let mut handle = AdvertisementHandle::start();
    assert_eq!(handle.stops_delivered, 0);

    // Explicit stop, then the drop of the handle.
    assert!(handle.stop());
    assert!(!handle.finish());
    assert_eq!(handle.stops_delivered, 1);

    // And any further stop stays a no-op.
    assert!(!handle.stop());
    assert_eq!(handle.stops_delivered, 1);
}

#[test]
fn advertisement_builders_set_the_discoverable_flag() {
    let ad = AdvertisementSpec::service_uuids(None, vec![Uuid { bits: 7 }]);
    assert!(ad.discoverable);
    assert!(ad.local_name.is_none());
}

#[test]
fn session_reports_addresses_names_and_kill_flag() {
    let server = AdapterInfo {
        address: Address::from_octets(&[1, 2, 3, 4, 5, 6]),
        name: String::from("hci0"),
    };
    let client = AdapterInfo {
        address: Address::from_octets(&[9, 8, 7, 6, 5, 4]),
        name: String::from("hci1"),
    };
    let mut session = TestSession::new(server, client, false);

    assert_eq!(session.get_server_address(), [1, 2, 3, 4, 5, 6]);
    assert_eq!(session.get_client_address(), [9, 8, 7, 6, 5, 4]);
    assert_eq!(session.get_client_name(), "hci1");

    assert!(!session.get_kill_server_status());
    assert!(session.kill_server());
    assert!(session.get_kill_server_status());
}

#[test]
fn error_messages_name_the_condition() {
    assert_eq!(TestError::NoFreeAdapter.message(), "no free adapters found");
    assert_eq!(TestError::NoAdaptersPresent.message(), "no adapters present");
    assert_eq!(TestError::Timeout.message(), "timeout reached");
    let wrapped = TestError::CapabilityError {
        message: String::from("cannot power on"),
        detail: String::from("adapter hci0 is blocked"),
    };
    assert_eq!(wrapped.message(), "cannot power on");
    let rpc = wrapped.to_rpc_error();
    assert_eq!(rpc.message(), "cannot power on");
    let transport = TestError::RpcTransportError {
        message: String::from("cannot establish connection"),
        detail: String::from("connection reset"),
    };
    assert_eq!(transport.message(), "cannot establish connection");
}

#[test]
fn timed_out_run_is_reported_as_the_timeout_error() {
    assert!(outcome_to_result(MatchResult::Matched).is_ok());
    assert_eq!(outcome_to_result(MatchResult::TimedOut).unwrap_err(), TestError::Timeout);
}

#[test]
fn retry_policy_grants_exactly_the_budget() {
    let mut policy = RetryPolicy::new(2);
    assert_eq!(policy.on_failure(), RetryDecision::TryAgain);
    assert_eq!(policy.on_failure(), RetryDecision::TryAgain);
    assert_eq!(policy.on_failure(), RetryDecision::GiveUp);
    assert_eq!(policy.on_failure(), RetryDecision::GiveUp);
    assert_eq!(policy.failures, 2);
}

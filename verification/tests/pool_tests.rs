use bluer_test::address::Address;
use bluer_test::errors::TestError;
use bluer_test::pool::{AdapterInfo, AdapterPool};

fn adapter(bits: u64, name: &str) -> AdapterInfo {
    AdapterInfo { address: Address { bits }, name: String::from(name) }
}

#[test]
fn lease_grants_first_free_in_enumeration_order() {
    let adapters = vec![adapter(0x11, "hci0"), adapter(0x22, "hci1")];
    let mut pool = AdapterPool::new();

    let first = pool.lease(&adapters).unwrap();
    assert_eq!(first.address.bits, 0x11);
    assert_eq!(first.name, "hci0");

    let second = pool.lease(&adapters).unwrap();
    assert_eq!(second.address.bits, 0x22);
    assert_eq!(second.name, "hci1");
}

#[test]
fn lease_fails_when_every_adapter_is_held() {
    let adapters = vec![adapter(0x11, "hci0"), adapter(0x22, "hci1")];
    let mut pool = AdapterPool::new();
    pool.lease(&adapters).unwrap();
    pool.lease(&adapters).unwrap();

    let err = pool.lease(&adapters).unwrap_err();
    assert_eq!(err, TestError::NoFreeAdapter);
}

#[test]
fn lease_on_empty_enumeration_reports_no_adapters_present() {
    let adapters: Vec<AdapterInfo> = Vec::new();
    let mut pool = AdapterPool::new();

    let err = pool.lease(&adapters).unwrap_err();
    assert_eq!(err, TestError::NoAdaptersPresent);
}

#[test]
fn released_adapter_can_be_leased_again() {
    let adapters = vec![adapter(0x11, "hci0"), adapter(0x22, "hci1")];
    let mut pool = AdapterPool::new();
    let first = pool.lease(&adapters).unwrap();
    pool.lease(&adapters).unwrap();

    pool.release(first.address);
    let again = pool.lease(&adapters).unwrap();
    assert_eq!(again.address.bits, 0x11);
}

#[test]
fn release_is_idempotent_and_tolerates_unknown_addresses() {
    let adapters = vec![adapter(0x11, "hci0")];
    let mut pool = AdapterPool::new();
    let leased = pool.lease(&adapters).unwrap();

    pool.release(leased.address);
    pool.release(leased.address);
    pool.release(Address { bits: 0x99 });

    let again = pool.lease(&adapters).unwrap();
    assert_eq!(again.address.bits, 0x11);
    assert_eq!(pool.lease(&adapters).unwrap_err(), TestError::NoFreeAdapter);
}

use invariant_harness::context::ContextTable;
use invariant_harness::host::{DeployError, TestHost};
use invariant_harness::overlay::{Overlay, SlotRead};
use invariant_harness::types::{Address, Word};
use invariant_harness::context::context_address;

fn word(n: u8) -> Word {
    let mut b = [0u8; 32];
    b[31] = n;
    Word::new(b)
}

fn addr(n: u8) -> Address {
    Address::new([n; 20])
}

#[test]
fn lazy_fetch_then_cached() {
    let mut o: Overlay<Vec<u8>> = Overlay::new();
    let a = addr(1);
    let k = word(3);
    assert!(matches!(o.sload(&a, &k), SlotRead::Fetch));
    o.record_fetched_slot(&a, &k, word(9));
    match o.sload(&a, &k) {
        SlotRead::Cached(v) => assert_eq!(v, word(9)),
        SlotRead::Fetch => panic!("second read must be served locally"),
    }
    match o.sload(&a, &k) {
        SlotRead::Cached(v) => assert_eq!(v, word(9)),
        SlotRead::Fetch => panic!("third read must be served locally"),
    }
}

#[test]
fn slots_of_other_accounts_are_separate() {
    let mut o: Overlay<Vec<u8>> = Overlay::new();
    o.record_fetched_slot(&addr(1), &word(3), word(9));
    assert!(matches!(o.sload(&addr(2), &word(3)), SlotRead::Fetch));
    assert!(matches!(o.sload(&addr(1), &word(4)), SlotRead::Fetch));
}

#[test]
fn write_then_read() {
    let mut o: Overlay<Vec<u8>> = Overlay::new();
    let a = addr(1);
    o.sstore(&a, &word(7), word(42));
    o.sstore(&a, &word(8), word(1));
    o.sstore(&addr(2), &word(7), word(5));
    match o.sload(&a, &word(7)) {
        SlotRead::Cached(v) => assert_eq!(v, word(42)),
        SlotRead::Fetch => panic!("written slot must be held"),
    }
    o.sstore(&a, &word(7), word(43));
    match o.sload(&a, &word(7)) {
        SlotRead::Cached(v) => assert_eq!(v, word(43)),
        SlotRead::Fetch => panic!("written slot must be held"),
    }
}

#[test]
fn swap_and_restore_storage() {
    let mut o: Overlay<Vec<u8>> = Overlay::new();
    let a = addr(1);
    o.sstore(&a, &word(7), word(1));
    let snap = o.snapshot();
    o.sstore(&a, &word(7), word(42));
    let live = o.swap_with(snap);
    match o.sload(&a, &word(7)) {
        SlotRead::Cached(v) => assert_eq!(v, word(1)),
        SlotRead::Fetch => panic!("snapshot holds the slot"),
    }
    o.restore(live);
    match o.sload(&a, &word(7)) {
        SlotRead::Cached(v) => assert_eq!(v, word(42)),
        SlotRead::Fetch => panic!("live storage holds the slot"),
    }
}

#[test]
fn code_cache_and_logs() {
    let mut o: Overlay<Vec<u8>> = Overlay::new();
    assert!(o.code(&addr(1)).is_none());
    o.put_code(&addr(1), vec![0x60, 0x00]);
    assert_eq!(o.code(&addr(1)), Some(&vec![0x60, 0x00]));
    assert!(o.code(&addr(2)).is_none());
    o.emit_log(addr(1), vec![word(1)], vec![1, 2]);
    o.clear_logs();
}

#[test]
fn context_address_is_never_fetched() {
    let host: TestHost<Vec<u8>> = TestHost::new(ContextTable::new());
    let ctx = context_address();
    assert!(!host.may_fetch_code(&ctx));
    assert!(host.may_fetch_code(&addr(1)));
    assert!(host.code(&ctx).is_none());
}

#[test]
fn fetched_code_is_not_fetched_again() {
    let mut host: TestHost<Vec<u8>> = TestHost::new(ContextTable::new());
    host.record_fetched_code(&addr(1), vec![0x00]);
    assert!(!host.may_fetch_code(&addr(1)));
    assert_eq!(host.code(&addr(1)), Some(&vec![0x00]));
}

#[test]
fn deployed_code_is_retrievable() {
    let mut host: TestHost<Vec<u8>> = TestHost::new(ContextTable::new());
    assert_eq!(host.deploy(&addr(5), false, vec![0x60, 0x01]), Ok(()));
    assert_eq!(host.code(&addr(5)), Some(&vec![0x60, 0x01]));
    host.sstore(&addr(5), &word(0), word(1));
    assert_eq!(host.code(&addr(5)), Some(&vec![0x60, 0x01]));
}

#[test]
fn reverted_constructor_is_refused() {
    let mut host: TestHost<Vec<u8>> = TestHost::new(ContextTable::new());
    assert_eq!(host.deploy(&addr(5), true, vec![0x60]), Err(DeployError::ConstructorReverted));
    assert!(host.code(&addr(5)).is_none());
}

#[test]
fn deploy_at_reserved_or_taken_address_is_refused() {
    let mut host: TestHost<Vec<u8>> = TestHost::new(ContextTable::new());
    assert_eq!(host.deploy(&context_address(), false, vec![0x60]), Err(DeployError::AddressUnavailable));
    assert_eq!(host.deploy(&addr(5), false, vec![0x60]), Ok(()));
    assert_eq!(host.deploy(&addr(5), false, vec![0x61]), Err(DeployError::AddressUnavailable));
    assert_eq!(host.code(&addr(5)), Some(&vec![0x60]));
}

use teo_c::ledger::{StringLedger, Value_FreeString};

#[test]
fn a_new_ledger_is_owed_nothing() {
    let ledger = StringLedger::new();
    assert!(!ledger.is_owed(0));
    assert!(!ledger.is_owed(0x1000));
}

#[test]
fn an_issued_buffer_is_owed_until_released() {
    let mut ledger = StringLedger::new();
    assert!(ledger.issue(0x1000));
    assert!(ledger.is_owed(0x1000));
    assert!(!ledger.is_owed(0x1008));
    Value_FreeString(&mut ledger, 0x1000);
    assert!(!ledger.is_owed(0x1000));
}

#[test]
fn a_second_release_is_found_out() {
    let mut ledger = StringLedger::new();
    assert!(ledger.issue(0x2000));
    assert!(ledger.release(0x2000));
    assert!(!ledger.release(0x2000));
    assert!(!ledger.is_owed(0x2000));
}

#[test]
fn releasing_what_was_never_issued_is_found_out() {
    let mut ledger = StringLedger::new();
    assert!(ledger.issue(0x2000));
    assert!(!ledger.release(0x3000));
    assert!(ledger.is_owed(0x2000));
}

#[test]
fn an_address_is_issued_once_at_a_time() {
    let mut ledger = StringLedger::new();
    assert!(ledger.issue(0x2000));
    assert!(!ledger.issue(0x2000));
    assert!(ledger.release(0x2000));
    assert!(ledger.issue(0x2000));
    assert!(ledger.is_owed(0x2000));
}

#[test]
fn buffers_are_kept_apart() {
    let mut ledger = StringLedger::new();
    assert!(ledger.issue(1));
    assert!(ledger.issue(2));
    assert!(ledger.issue(usize::MAX));
    Value_FreeString(&mut ledger, 2);
    assert!(ledger.is_owed(1));
    assert!(!ledger.is_owed(2));
    assert!(ledger.is_owed(usize::MAX));
}

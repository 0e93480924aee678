//! The record of what each bidder has deposited.

use bidding::ledger::Ledger;

#[test]
fn a_new_ledger_holds_nobody() {
    let ledger = Ledger::new();
    assert_eq!(ledger.get(&"bidder1".to_string()), None);
    assert_eq!(ledger.get(&String::new()), None);
}

#[test]
fn a_ledger_returns_what_was_set() {
    let mut ledger = Ledger::new();
    ledger.set("bidder1".to_string(), 10);
    ledger.set("bidder2".to_string(), 5);
    assert_eq!(ledger.get(&"bidder1".to_string()), Some(10));
    assert_eq!(ledger.get(&"bidder2".to_string()), Some(5));
    assert_eq!(ledger.get(&"bidder3".to_string()), None);
}

#[test]
fn setting_again_replaces_the_amount() {
    let mut ledger = Ledger::new();
    ledger.set("bidder1".to_string(), 10);
    ledger.set("bidder2".to_string(), 5);
    ledger.set("bidder1".to_string(), 0);
    ledger.set("bidder2".to_string(), u128::MAX);
    assert_eq!(ledger.get(&"bidder1".to_string()), Some(0));
    assert_eq!(ledger.get(&"bidder2".to_string()), Some(u128::MAX));

    let mut once = Ledger::new();
    once.set("bidder1".to_string(), 0);
    once.set("bidder2".to_string(), u128::MAX);
    assert_eq!(ledger, once);
}

#[test]
fn a_copy_of_a_ledger_holds_the_same() {
    let mut ledger = Ledger::new();
    ledger.set("bidder1".to_string(), 10);
    let copy = ledger.clone();
    ledger.set("bidder1".to_string(), 11);
    assert_eq!(copy.get(&"bidder1".to_string()), Some(10));
    assert_eq!(ledger.get(&"bidder1".to_string()), Some(11));
    assert_ne!(copy, ledger);
}

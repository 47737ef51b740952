use chainbridge::auth::{authenticate, Origin};
use chainbridge::counter::Counter;
use chainbridge::errors::Error;
use chainbridge::ledger::Ledger;
use chainbridge::registry::ChainRegistry;

#[test]
fn authenticate_returns_the_signed_identity() {
    assert_eq!(authenticate(&Origin::Signed(42)), Ok(42));
    assert_eq!(authenticate(&Origin::Unsigned), Err(Error::Unauthenticated));
}

#[test]
fn counter_increments_by_one() {
    let mut c = Counter::default();
    assert_eq!(c.0, 0);
    c.increment();
    assert_eq!(c.0, 1);
    c.increment();
    assert_eq!(c.0, 2);
}

#[test]
fn registry_issues_nonces_from_one() {
    let mut reg = ChainRegistry::new();
    let id: Vec<u8> = b"ETH".to_vec();
    assert_eq!(reg.issue_next(&id), Err(Error::ChainNotWhitelisted));
    reg.whitelist(&id);
    assert_eq!(reg.counter_of(&id), Some(0));
    assert_eq!(reg.issue_next(&id), Ok(1));
    assert_eq!(reg.issue_next(&id), Ok(2));
    assert_eq!(reg.counter_of(&id), Some(2));
}

#[test]
fn registry_rejects_an_exhausted_counter() {
    let mut reg = ChainRegistry::new();
    let id: Vec<u8> = b"ETH".to_vec();
    reg.insert(&id, Counter(u32::MAX));
    assert_eq!(reg.issue_next(&id), Err(Error::CounterOverflow));
    // The exhausted counter is left exactly as it was.
    assert_eq!(reg.counter_of(&id), Some(u32::MAX));
    assert!(reg.is_whitelisted(&id));
}

#[test]
fn registry_distinguishes_chains_by_content() {
    let mut reg = ChainRegistry::new();
    let a: Vec<u8> = vec![1, 2];
    let b: Vec<u8> = vec![1, 3];
    reg.whitelist(&a);
    assert!(reg.is_whitelisted(&a));
    assert!(!reg.is_whitelisted(&b));
    assert!(reg.is_whitelisted(&vec![1, 2]));
}

#[test]
fn ledger_rejects_an_overflowing_credit() {
    let mut l = Ledger::new();
    l.endow(1, 10);
    l.endow(2, u64::MAX);
    assert_eq!(l.transfer(1, 2, 5), Err(Error::BalanceOverflow));
    assert_eq!(l.balance_of(1), 10);
    assert_eq!(l.balance_of(2), u64::MAX);
}

#[test]
fn ledger_moves_value_between_accounts() {
    let mut l = Ledger::new();
    l.endow(1, 70);
    assert_eq!(l.transfer(1, 2, 30), Ok(()));
    assert_eq!(l.balance_of(1), 40);
    assert_eq!(l.balance_of(2), 30);
    assert_eq!(l.transfer(2, 3, 31), Err(Error::InsufficientFunds));
    assert_eq!(l.balance_of(2), 30);
    assert_eq!(l.balance_of(3), 0);
}

#[test]
fn ledger_transfer_of_zero_from_an_empty_account_succeeds() {
    let mut l = Ledger::new();
    assert_eq!(l.transfer(5, 6, 0), Ok(()));
    assert_eq!(l.balance_of(5), 0);
    assert_eq!(l.balance_of(6), 0);
    assert_eq!(l.transfer(5, 5, 0), Ok(()));
}

use chainbridge::auth::Origin;
use chainbridge::bridge::Bridge;
use chainbridge::errors::Error;

fn signed() -> Origin {
    Origin::Signed(7)
}

#[test]
fn scenario_whitelist_then_transfer() {
    let mut b = Bridge::new(1, 1_000);
    let eth: Vec<u8> = b"ETH".to_vec();
    let btc: Vec<u8> = b"BTC".to_vec();
    let recipient: Vec<u8> = vec![0x58];
    let token: Vec<u8> = b"TOKEN1".to_vec();
    let meta: Vec<u8> = vec![1, 2, 3];

    assert_eq!(b.whitelist_chain(&signed(), eth.clone()), Ok(()));

    let r = b.transfer_asset(&signed(), eth.clone(), recipient.clone(), token.clone(), meta.clone());
    assert_eq!(r, Ok(()));
    assert_eq!(b.record_count(), 1);
    let rec = b.record_at(0);
    assert_eq!(rec.dest_chain_id, eth);
    assert_eq!(rec.nonce, 1);
    assert_eq!(rec.to, recipient);
    assert_eq!(rec.asset_id, token);
    assert_eq!(rec.metadata, meta);

    let r = b.transfer_asset(&signed(), eth.clone(), recipient.clone(), token.clone(), meta.clone());
    assert_eq!(r, Ok(()));
    assert_eq!(b.record_count(), 2);
    assert_eq!(b.record_at(1).nonce, 2);

    let r = b.transfer_asset(&signed(), btc.clone(), recipient, token, meta);
    assert_eq!(r, Err(Error::ChainNotWhitelisted));
    assert_eq!(b.record_count(), 2);
}

#[test]
fn transfer_asset_to_unwhitelisted_chain_fails() {
    let mut b = Bridge::new(1, 0);
    let id: Vec<u8> = b"DOT".to_vec();
    let r = b.transfer_asset(&signed(), id.clone(), vec![1], vec![2], vec![3]);
    assert_eq!(r, Err(Error::ChainNotWhitelisted));
    assert!(!b.is_whitelisted(&id));
    assert_eq!(b.counter_of(&id), None);
    assert_eq!(b.record_count(), 0);
}

#[test]
fn whitelist_enables_chain_with_counter_zero() {
    let mut b = Bridge::new(1, 0);
    let id: Vec<u8> = b"ETH".to_vec();
    assert!(!b.is_whitelisted(&id));
    assert_eq!(b.whitelist_chain(&signed(), id.clone()), Ok(()));
    assert!(b.is_whitelisted(&id));
    assert_eq!(b.counter_of(&id), Some(0));
}

#[test]
fn sequential_transfers_issue_increasing_nonces() {
    let mut b = Bridge::new(1, 0);
    let id: Vec<u8> = b"ETH".to_vec();
    b.whitelist_chain(&signed(), id.clone()).unwrap();
    for expected in 1u32..=5 {
        let r = b.transfer_asset(&signed(), id.clone(), vec![9], vec![8], vec![7]);
        assert_eq!(r, Ok(()));
        assert_eq!(b.record_at(b.record_count() - 1).nonce, expected);
        assert_eq!(b.counter_of(&id), Some(expected));
    }
}

#[test]
fn rewhitelisting_resets_the_counter() {
    let mut b = Bridge::new(1, 0);
    let id: Vec<u8> = b"ETH".to_vec();
    b.whitelist_chain(&signed(), id.clone()).unwrap();
    b.transfer_asset(&signed(), id.clone(), vec![9], vec![8], vec![7]).unwrap();
    b.transfer_asset(&signed(), id.clone(), vec![9], vec![8], vec![7]).unwrap();
    assert_eq!(b.counter_of(&id), Some(2));

    assert_eq!(b.whitelist_chain(&signed(), id.clone()), Ok(()));
    assert_eq!(b.counter_of(&id), Some(0));
    assert!(b.is_whitelisted(&id));

    // The nonce history restarts: the next transfer repeats nonce 1.
    b.transfer_asset(&signed(), id.clone(), vec![9], vec![8], vec![7]).unwrap();
    assert_eq!(b.record_at(2).nonce, 1);
    assert_eq!(b.record_at(0).nonce, 1);
}

#[test]
fn each_success_emits_exactly_one_record_with_the_issued_nonce() {
    let mut b = Bridge::new(1, 0);
    let id: Vec<u8> = b"ETH".to_vec();
    b.whitelist_chain(&signed(), id.clone()).unwrap();
    let before = b.record_count();
    b.transfer_asset(&signed(), id.clone(), vec![9], vec![8], vec![7]).unwrap();
    assert_eq!(b.record_count(), before + 1);
    assert_eq!(Some(b.record_at(before).nonce), b.counter_of(&id));
}

#[test]
fn independent_chains_keep_independent_counters() {
    let mut b = Bridge::new(1, 0);
    let eth: Vec<u8> = b"ETH".to_vec();
    let dot: Vec<u8> = b"DOT".to_vec();
    b.whitelist_chain(&signed(), eth.clone()).unwrap();
    b.whitelist_chain(&signed(), dot.clone()).unwrap();
    b.transfer_asset(&signed(), eth.clone(), vec![1], vec![2], vec![3]).unwrap();
    b.transfer_asset(&signed(), eth.clone(), vec![1], vec![2], vec![3]).unwrap();
    b.transfer_asset(&signed(), dot.clone(), vec![1], vec![2], vec![3]).unwrap();
    assert_eq!(b.counter_of(&eth), Some(2));
    assert_eq!(b.counter_of(&dot), Some(1));
    assert_eq!(b.record_at(2).dest_chain_id, dot);
    assert_eq!(b.record_at(2).nonce, 1);
}

#[test]
fn set_emitter_address_requires_a_signed_caller() {
    let mut b = Bridge::new(1, 0);
    let addr: Vec<u8> = vec![0xAA, 0xBB];
    let r = b.set_emitter_address(&Origin::Unsigned, addr.clone());
    assert_eq!(r, Err(Error::Unauthenticated));
    assert_eq!(b.emitter_address(), &Vec::<u8>::new());

    assert_eq!(b.set_emitter_address(&signed(), addr.clone()), Ok(()));
    assert_eq!(b.emitter_address(), &addr);

    // Last write wins, unconditionally and with no history.
    let other: Vec<u8> = vec![0xCC];
    assert_eq!(b.set_emitter_address(&signed(), other.clone()), Ok(()));
    assert_eq!(b.emitter_address(), &other);
    assert_eq!(b.set_emitter_address(&signed(), other.clone()), Ok(()));
    assert_eq!(b.emitter_address(), &other);
}

#[test]
fn unauthenticated_mutations_are_rejected() {
    let mut b = Bridge::new(1, 50);
    let id: Vec<u8> = b"ETH".to_vec();
    assert_eq!(
        b.whitelist_chain(&Origin::Unsigned, id.clone()),
        Err(Error::Unauthenticated)
    );
    assert!(!b.is_whitelisted(&id));
    assert_eq!(
        b.transfer_asset(&Origin::Unsigned, id.clone(), vec![1], vec![2], vec![3]),
        Err(Error::Unauthenticated)
    );
    assert_eq!(b.record_count(), 0);
    assert_eq!(b.transfer(&Origin::Unsigned, 2, 10), Err(Error::Unauthenticated));
    assert_eq!(b.balance_of(1), 50);
    assert_eq!(b.balance_of(2), 0);
}

#[test]
fn transfer_moves_funds_and_allows_full_depletion() {
    let mut b = Bridge::new(1, 100);
    assert_eq!(b.funding_account(), 1);
    assert_eq!(b.transfer(&signed(), 2, 60), Ok(()));
    assert_eq!(b.balance_of(1), 40);
    assert_eq!(b.balance_of(2), 60);

    // The funding account may be drained to exactly zero.
    assert_eq!(b.transfer(&signed(), 2, 40), Ok(()));
    assert_eq!(b.balance_of(1), 0);
    assert_eq!(b.balance_of(2), 100);
}

#[test]
fn transfer_with_insufficient_funds_changes_no_balance() {
    let mut b = Bridge::new(1, 100);
    assert_eq!(b.transfer(&signed(), 2, 101), Err(Error::InsufficientFunds));
    assert_eq!(b.balance_of(1), 100);
    assert_eq!(b.balance_of(2), 0);
}

#[test]
fn transfer_to_the_funding_account_changes_nothing() {
    let mut b = Bridge::new(1, 100);
    assert_eq!(b.transfer(&signed(), 1, 30), Ok(()));
    assert_eq!(b.balance_of(1), 100);
}

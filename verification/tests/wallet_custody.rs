//! Wallets and the fund custodian.

use luda::dlu_wallet::Wallet;
use luda::errors::DLUError;
use luda::escrow::Escrow;

#[test]
fn a_fresh_wallet_is_empty() {
    let w = Wallet::new(42);
    assert_eq!(w.owner, 42);
    assert_eq!(w.balance, 0);
}

#[test]
fn deduct_refuses_a_shortfall() {
    let mut w = Wallet::new(1);
    w.balance = 10;
    assert!(w.deduct(4).is_ok());
    assert_eq!(w.balance, 6);
    assert!(matches!(w.deduct(7), Err(DLUError::InsufficientFunds)));
    assert_eq!(w.balance, 6);
}

#[test]
fn transfer_moves_value_or_nothing() {
    let mut a = Wallet::new(1);
    let mut b = Wallet::new(2);
    a.balance = 30;
    a.transfer(&mut b, 12).unwrap();
    assert_eq!(a.balance, 18);
    assert_eq!(b.balance, 12);
    assert!(matches!(a.transfer(&mut b, 19), Err(DLUError::InsufficientFunds)));
    assert_eq!(a.balance, 18);
    assert_eq!(b.balance, 12);
}

#[test]
fn custody_locks_and_releases_exactly() {
    let mut payer = Wallet::new(1);
    let mut payee = Wallet::new(2);
    payer.balance = 100;
    let mut escrow = Escrow::new(7);
    escrow.lock_funds(&mut payer, 60).unwrap();
    assert_eq!(payer.balance, 40);
    assert_eq!(escrow.balance, 60);
    assert!(matches!(
        escrow.lock_funds(&mut payer, 41),
        Err(DLUError::InsufficientFunds)
    ));
    assert_eq!(escrow.balance, 60);
    escrow.release_funds(&mut payee, 25);
    assert_eq!(escrow.balance, 35);
    assert_eq!(payee.balance, 25);
}

#[test]
fn penalty_routing_drains_custody_into_the_sink() {
    let mut payer = Wallet::new(1);
    let mut sink = Wallet::new(999);
    payer.balance = 80;
    let mut escrow = Escrow::new(7);
    escrow.lock_funds(&mut payer, 80).unwrap();
    escrow.transfer_to_penalty(&mut sink, 80);
    assert_eq!(escrow.balance, 0);
    assert_eq!(sink.balance, 80);
}

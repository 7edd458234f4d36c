//! Reputation counters and the status classification.

use luda::dlu_wallet::Wallet;
use luda::user::{User, UserStatus};

fn fresh_user() -> User {
    User::new("ana".to_string(), 1, Wallet::new(1))
}

fn user_with_history(
    total_deals: u32,
    successful_deals: u32,
    total_shipments: u32,
    successful_shipments: u32,
) -> User {
    let mut u = fresh_user();
    u.total_deals = total_deals;
    u.successful_deals = successful_deals;
    u.failed_deals = total_deals - successful_deals;
    u.total_shipments = total_shipments;
    u.successful_shipments = successful_shipments;
    u.failed_shipments = total_shipments - successful_shipments;
    u.update_status();
    u
}

#[test]
fn a_new_user_starts_unclassified() {
    let u = fresh_user();
    assert!(matches!(u.status, UserStatus::New));
    assert_eq!(u.total_deals, 0);
    assert_eq!(u.total_shipments, 0);
    assert_eq!(u.wallet.balance, 0);
}

#[test]
fn fewer_than_three_operations_stay_new() {
    assert!(matches!(user_with_history(2, 0, 0, 0).status, UserStatus::New));
    assert!(matches!(user_with_history(1, 1, 1, 1).status, UserStatus::New));
}

#[test]
fn a_perfect_record_beyond_ten_operations_is_credible() {
    assert!(matches!(user_with_history(6, 6, 5, 5).status, UserStatus::Credible));
    // Exactly ten perfect operations are not enough.
    assert!(matches!(user_with_history(5, 5, 5, 5).status, UserStatus::Reliable));
}

#[test]
fn the_rate_thresholds_are_exact() {
    // 9/10 == 0.9: Reliable.
    assert!(matches!(user_with_history(10, 9, 0, 0).status, UserStatus::Reliable));
    // 8/10: at least 0.7 but below 0.9: Risky.
    assert!(matches!(user_with_history(10, 8, 0, 0).status, UserStatus::Risky));
    assert!(matches!(user_with_history(10, 7, 0, 0).status, UserStatus::Risky));
    // 6/10 and 5/10: at least 0.5: Unreliable.
    assert!(matches!(user_with_history(10, 6, 0, 0).status, UserStatus::Unreliable));
    assert!(matches!(user_with_history(10, 5, 0, 0).status, UserStatus::Unreliable));
    // 4/10 down to 2/10: at least 0.2: Suspicious.
    assert!(matches!(user_with_history(10, 4, 0, 0).status, UserStatus::Suspicious));
    assert!(matches!(user_with_history(10, 2, 0, 0).status, UserStatus::Suspicious));
    // Below 0.2: Fraud.
    assert!(matches!(user_with_history(10, 1, 0, 0).status, UserStatus::Fraud));
    assert!(matches!(user_with_history(3, 0, 0, 0).status, UserStatus::Fraud));
}

#[test]
fn deal_and_shipment_outcomes_count_together() {
    // 5 successful deals and 4 of 5 shipments: 9/10 overall, Reliable.
    assert!(matches!(user_with_history(5, 5, 5, 4).status, UserStatus::Reliable));
}

#[test]
fn mark_deal_touches_only_the_deal_counters() {
    let mut u = fresh_user();
    u.mark_deal(true);
    u.mark_deal(false);
    assert_eq!(u.total_deals, 2);
    assert_eq!(u.successful_deals, 1);
    assert_eq!(u.failed_deals, 1);
    assert_eq!(u.total_shipments, 0);
    assert!(matches!(u.status, UserStatus::New));
}

#[test]
fn mark_shipment_touches_only_the_shipment_counters() {
    let mut u = fresh_user();
    u.mark_shipment(true);
    u.mark_shipment(true);
    u.mark_shipment(false);
    assert_eq!(u.total_shipments, 3);
    assert_eq!(u.successful_shipments, 2);
    assert_eq!(u.failed_shipments, 1);
    assert_eq!(u.total_deals, 0);
    // 2 of 3 is below 0.7 but at least 0.5.
    assert!(matches!(u.status, UserStatus::Unreliable));
}

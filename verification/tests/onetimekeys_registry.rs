//! The one-time-key registry: issuance and single-use validation.

use luda::onetimekeys::KeyManager;

#[test]
fn issued_secrets_are_uuid_shaped() {
    let mut km = KeyManager::new();
    let keys = km.generate_deal_keys(1);
    assert_eq!(keys.seller_key.len(), 36);
    assert_eq!(keys.buyer_key.len(), 36);
    let skeys = km.generate_shipment_keys(2);
    assert_eq!(skeys.sender_key.len(), 36);
    assert_eq!(skeys.carrier_key.len(), 36);
    assert_eq!(skeys.recipient_key.len(), 36);
}

#[test]
fn a_secret_validates_exactly_once() {
    // The same secret presented twice: the second call is rejected, and
    // the first call's effect is neither reversed nor repeated — the other
    // secret of the deal is still live.
    let mut km = KeyManager::new();
    let keys = km.generate_deal_keys(1);
    assert!(km.validate_and_use_key(&keys.seller_key));
    assert!(!km.validate_and_use_key(&keys.seller_key));
    assert!(km.validate_and_use_key(&keys.buyer_key));
    assert!(!km.validate_and_use_key(&keys.buyer_key));
}

#[test]
fn an_unknown_secret_never_validates() {
    let mut km = KeyManager::new();
    km.generate_deal_keys(1);
    assert!(!km.validate_and_use_key("not-an-issued-secret"));
    assert!(!km.validate_and_use_key(""));
}

#[test]
fn shipment_secrets_validate_independently() {
    let mut km = KeyManager::new();
    let keys = km.generate_shipment_keys(9);
    assert!(km.validate_and_use_key(&keys.carrier_key));
    assert!(km.validate_and_use_key(&keys.recipient_key));
    assert!(km.validate_and_use_key(&keys.sender_key));
    assert!(!km.validate_and_use_key(&keys.carrier_key));
}

#[test]
fn reissuing_a_deal_retires_the_old_secrets() {
    // Generating again under the same deal id replaces the stored pair:
    // the old secrets no longer belong to any live slot.
    let mut km = KeyManager::new();
    let old_keys = km.generate_deal_keys(1);
    let new_keys = km.generate_deal_keys(1);
    assert!(!km.validate_and_use_key(&old_keys.seller_key));
    assert!(!km.validate_and_use_key(&old_keys.buyer_key));
    assert!(km.validate_and_use_key(&new_keys.seller_key));
    assert!(km.validate_and_use_key(&new_keys.buyer_key));
}

#[test]
fn secrets_of_distinct_deals_do_not_interfere() {
    let mut km = KeyManager::new();
    let first = km.generate_deal_keys(1);
    let second = km.generate_deal_keys(2);
    assert!(km.validate_and_use_key(&first.seller_key));
    assert!(km.validate_and_use_key(&second.seller_key));
    assert!(km.validate_and_use_key(&second.buyer_key));
    assert!(km.validate_and_use_key(&first.buyer_key));
}

//! The request and shipment lifecycles.

use luda::deal::{DealStatus, KeySlot, Location};
use luda::dlu_wallet::Wallet;
use luda::errors::DLUError;
use luda::escrow::Escrow;
use luda::request::Request;
use luda::shipment::Shipment;
use luda::user::User;

fn participant(name: &str, id: u64, balance: u64) -> User {
    let mut wallet = Wallet::new(id);
    wallet.balance = balance;
    User::new(name.to_string(), id, wallet)
}

fn secret_of(slot: &KeySlot) -> String {
    match slot {
        KeySlot::Issued(s) => s.clone(),
        _ => panic!("no secret issued in this slot"),
    }
}

fn place() -> Location {
    Location {
        country: "Latveria".to_string(),
        town: "Doomstadt".to_string(),
        address: "1 Castle Square".to_string(),
    }
}

fn listed_request(buyer: &mut User, escrow: &mut Escrow) -> Request {
    Request::list_request(
        11,
        buyer,
        "repair".to_string(),
        "fix a clock".to_string(),
        100,
        place(),
        1_700_000_000,
        escrow,
    )
    .unwrap()
}

#[test]
fn request_listing_locks_payment_plus_insurance() {
    let mut buyer = participant("bo", 2, 250);
    let mut escrow = Escrow::new(901);
    let request = listed_request(&mut buyer, &mut escrow);
    assert_eq!(buyer.wallet.balance, 50);
    assert_eq!(escrow.balance, 200);
    assert!(matches!(request.deal.status, DealStatus::Listed));
}

#[test]
fn request_complete_pays_the_seller() {
    let mut buyer = participant("bo", 2, 200);
    let mut seller = participant("ana", 1, 100);
    let mut escrow = Escrow::new(901);
    let mut request = listed_request(&mut buyer, &mut escrow);
    request.accept_request(&mut seller, &mut escrow).unwrap();
    assert_eq!(seller.wallet.balance, 0);
    assert_eq!(escrow.balance, 300);

    let buyer_key = secret_of(&request.deal.initiator_key);
    let seller_key = secret_of(&request.deal.acceptor_key);
    request
        .complete_request(buyer_key, seller_key, &mut seller, &mut buyer, &mut escrow)
        .unwrap();
    assert_eq!(escrow.balance, 0);
    assert_eq!(seller.wallet.balance, 200);
    assert_eq!(buyer.wallet.balance, 100);
    assert!(matches!(request.deal.status, DealStatus::Completed));
    assert_eq!(seller.successful_deals, 1);
    assert_eq!(buyer.successful_deals, 1);
}

#[test]
fn request_complete_rejects_a_wrong_seller_secret() {
    let mut buyer = participant("bo", 2, 200);
    let mut seller = participant("ana", 1, 100);
    let mut escrow = Escrow::new(901);
    let mut request = listed_request(&mut buyer, &mut escrow);
    request.accept_request(&mut seller, &mut escrow).unwrap();
    let buyer_key = secret_of(&request.deal.initiator_key);
    let r = request.complete_request(
        buyer_key,
        "not-the-issued-secret".to_string(),
        &mut seller,
        &mut buyer,
        &mut escrow,
    );
    assert!(matches!(r, Err(DLUError::KeyMismatch)));
    assert_eq!(escrow.balance, 300);
    assert!(matches!(request.deal.status, DealStatus::Accepted));
}

#[test]
fn request_cancel_refunds_the_buyer() {
    // The buyer listed and prepaid, so cancellation returns the whole
    // prepayment to the buyer and to nobody else.
    let mut buyer = participant("bo", 2, 200);
    let mut escrow = Escrow::new(901);
    let mut request = listed_request(&mut buyer, &mut escrow);
    assert_eq!(buyer.wallet.balance, 0);
    request.cancel_request(&mut buyer, &mut escrow).unwrap();
    assert_eq!(buyer.wallet.balance, 200);
    assert_eq!(escrow.balance, 0);
    assert!(matches!(request.deal.status, DealStatus::Canceled));
}

#[test]
fn request_fail_is_authorized_by_the_seller_secret() {
    let mut buyer = participant("bo", 2, 200);
    let mut seller = participant("ana", 1, 100);
    let mut escrow = Escrow::new(901);
    let mut penalty = Wallet::new(999);
    let mut request = listed_request(&mut buyer, &mut escrow);
    request.accept_request(&mut seller, &mut escrow).unwrap();
    let seller_key = secret_of(&request.deal.acceptor_key);
    request
        .fail_request(seller_key, &mut buyer, &mut escrow, &mut penalty)
        .unwrap();
    assert_eq!(escrow.balance, 0);
    assert_eq!(penalty.balance, 300);
    assert!(matches!(request.deal.status, DealStatus::Failed));
    assert_eq!(buyer.failed_deals, 1);
    assert_eq!(seller.total_deals, 0);
}

#[test]
fn request_expires_with_full_refunds() {
    let meeting: i64 = 1_700_000_000;
    let grace: i64 = 24 * 60 * 60;
    let mut buyer = participant("bo", 2, 200);
    let mut seller = participant("ana", 1, 100);
    let mut escrow = Escrow::new(901);
    let mut request = listed_request(&mut buyer, &mut escrow);
    request.accept_request(&mut seller, &mut escrow).unwrap();
    let r = request.expire_request_at(meeting + grace - 1, &mut buyer, &mut seller, &mut escrow);
    assert!(matches!(r, Err(DLUError::OperationNotAllowed)));
    request
        .expire_request_at(meeting + grace, &mut buyer, &mut seller, &mut escrow)
        .unwrap();
    assert_eq!(buyer.wallet.balance, 200);
    assert_eq!(seller.wallet.balance, 100);
    assert_eq!(escrow.balance, 0);
    assert!(matches!(request.deal.status, DealStatus::Expired));
}

fn listed_shipment(sender: &mut User, recipient: &User, escrow: &mut Escrow) -> Shipment {
    Shipment::list_shipment(
        21,
        sender,
        recipient,
        "books".to_string(),
        3,
        120,
        80,
        place(),
        1_699_900_000,
        place(),
        1_700_000_000,
        escrow,
    )
    .unwrap()
}

#[test]
fn shipment_listing_locks_the_senders_payment() {
    let mut sender = participant("sol", 5, 150);
    let recipient = participant("rex", 7, 0);
    let mut escrow = Escrow::new(902);
    let shipment = listed_shipment(&mut sender, &recipient, &mut escrow);
    assert_eq!(sender.wallet.balance, 30);
    assert_eq!(escrow.balance, 120);
    assert!(matches!(shipment.deal.status, DealStatus::Listed));
    assert_eq!(shipment.deal.recipient, Some(7));
    assert_eq!(shipment.deal.insurance, 80);
    assert_eq!(shipment.quantity, 3);
}

#[test]
fn shipment_complete_needs_all_three_secrets() {
    let mut sender = participant("sol", 5, 120);
    let recipient = participant("rex", 7, 0);
    let mut carrier = participant("kim", 6, 80);
    let mut escrow = Escrow::new(902);
    let mut shipment = listed_shipment(&mut sender, &recipient, &mut escrow);
    shipment.accept_shipment(&mut carrier, &mut escrow).unwrap();
    assert_eq!(carrier.wallet.balance, 0);
    assert_eq!(escrow.balance, 200);
    assert!(matches!(shipment.deal.recipient_key, KeySlot::Issued(_)));

    let sender_key = secret_of(&shipment.deal.initiator_key);
    let carrier_key = secret_of(&shipment.deal.acceptor_key);
    let recipient_key = secret_of(&shipment.deal.recipient_key);

    // A wrong recipient secret blocks settlement entirely.
    let r = shipment.complete_shipment(
        sender_key.clone(),
        carrier_key.clone(),
        "not-the-issued-secret".to_string(),
        &mut sender,
        &mut carrier,
        &mut escrow,
    );
    assert!(matches!(r, Err(DLUError::KeyMismatch)));
    assert_eq!(escrow.balance, 200);
    assert!(matches!(shipment.deal.status, DealStatus::Accepted));

    shipment
        .complete_shipment(
            sender_key,
            carrier_key,
            recipient_key,
            &mut sender,
            &mut carrier,
            &mut escrow,
        )
        .unwrap();
    assert_eq!(escrow.balance, 0);
    assert_eq!(carrier.wallet.balance, 200);
    assert_eq!(sender.wallet.balance, 0);
    assert!(matches!(shipment.deal.status, DealStatus::Completed));
    assert!(matches!(shipment.deal.recipient_key, KeySlot::Consumed));
    assert_eq!(sender.successful_shipments, 1);
    assert_eq!(carrier.successful_shipments, 1);
    assert_eq!(sender.total_deals, 0);
}

#[test]
fn shipment_fail_is_authorized_by_the_sender_secret() {
    let mut sender = participant("sol", 5, 120);
    let recipient = participant("rex", 7, 0);
    let mut carrier = participant("kim", 6, 80);
    let mut escrow = Escrow::new(902);
    let mut penalty = Wallet::new(999);
    let mut shipment = listed_shipment(&mut sender, &recipient, &mut escrow);
    shipment.accept_shipment(&mut carrier, &mut escrow).unwrap();

    let r = shipment.fail_shipment(
        "not-the-issued-secret".to_string(),
        &mut carrier,
        &mut escrow,
        &mut penalty,
    );
    assert!(matches!(r, Err(DLUError::KeyMismatch)));

    let sender_key = secret_of(&shipment.deal.initiator_key);
    shipment
        .fail_shipment(sender_key, &mut carrier, &mut escrow, &mut penalty)
        .unwrap();
    assert_eq!(escrow.balance, 0);
    assert_eq!(penalty.balance, 200);
    assert!(matches!(shipment.deal.status, DealStatus::Failed));
    assert_eq!(carrier.failed_shipments, 1);
    assert_eq!(sender.total_shipments, 0);
}

#[test]
fn shipment_expires_past_the_drop_off_grace_window() {
    let drop_off: i64 = 1_700_000_000;
    let grace: i64 = 24 * 60 * 60;
    let mut sender = participant("sol", 5, 120);
    let recipient = participant("rex", 7, 0);
    let mut carrier = participant("kim", 6, 80);
    let mut escrow = Escrow::new(902);
    let mut shipment = listed_shipment(&mut sender, &recipient, &mut escrow);
    shipment.accept_shipment(&mut carrier, &mut escrow).unwrap();
    let r = shipment.expire_shipment_at(drop_off + grace - 1, &mut sender, &mut carrier, &mut escrow);
    assert!(matches!(r, Err(DLUError::OperationNotAllowed)));
    shipment
        .expire_shipment_at(drop_off + grace, &mut sender, &mut carrier, &mut escrow)
        .unwrap();
    assert_eq!(sender.wallet.balance, 120);
    assert_eq!(carrier.wallet.balance, 80);
    assert_eq!(escrow.balance, 0);
    assert!(matches!(shipment.deal.status, DealStatus::Expired));
    assert_eq!(sender.total_shipments, 0);
    assert_eq!(carrier.total_shipments, 0);
}

#[test]
fn shipment_cancel_refunds_the_sender() {
    let mut sender = participant("sol", 5, 120);
    let recipient = participant("rex", 7, 0);
    let mut escrow = Escrow::new(902);
    let mut shipment = listed_shipment(&mut sender, &recipient, &mut escrow);
    shipment.cancel_shipment(&mut sender, &mut escrow).unwrap();
    assert_eq!(sender.wallet.balance, 120);
    assert_eq!(escrow.balance, 0);
    assert!(matches!(shipment.deal.status, DealStatus::Canceled));
}

//! Shipments: deals listed by a sender, accepted by a carrier, and
//! confirmed by a recipient.

use vstd::prelude::*;

use crate::clock::now_unix;
use crate::deal::{
    accept_post, acceptor_lock_of, cancel_post, complete_post, expire_post, fail_post,
    initiator_lock_of, list_post, Deal, DealStatus, EntityType, Location, GRACE_WINDOW_SECONDS,
};
use crate::dlu_wallet::Wallet;
use crate::errors::DLUError;
use crate::escrow::Escrow;
use crate::user::User;

verus! {

/// The lifecycle states of a shipment.
pub type ShipmentStatus = DealStatus;

/// A single shipment posted by a sender.  The sender is the deal's
/// initiator and the carrier its acceptor; the recipient is named at
/// listing and holds the third confirmation secret.  The sender prepays the
/// payment at listing, the carrier stakes the insurance at acceptance, and
/// settlement routes payment plus insurance to the carrier.
#[derive(Clone, Debug)]
pub struct Shipment {
    /// The shared lifecycle record; its venue and deadline are the
    /// drop-off place and datetime.
    pub deal: Deal,
    pub items_name: String,
    pub quantity: u32,
    pub pickup_point: Location,
    /// The scheduled pickup datetime, in Unix seconds.
    pub pickup_datetime: i64,
}

impl Shipment {
    /// Well-formedness: the underlying record is well formed and of the
    /// shipment kind.
    pub open spec fn wf(self) -> bool {
        &&& self.deal.wf()
        &&& self.deal.kind is Shipment
    }

    /// Lists a new shipment.  The insurance is set explicitly by the
    /// sender, the recipient is recorded by account id, and the sender's
    /// payment is debited into the fresh custody account.
    pub fn list_shipment(
        id: u64,
        sender: &mut User,
        recipient: &User,
        items_name: String,
        quantity: u32,
        payment: u64,
        insurance: u64,
        pickup_point: Location,
        pickup_datetime: i64,
        drop_off_point: Location,
        drop_off_datetime: i64,
        escrow: &mut Escrow,
    ) -> (r: Result<Shipment, DLUError>)
        requires
            old(escrow).balance == 0,
            initiator_lock_of(EntityType::Shipment, payment, insurance) + acceptor_lock_of(
                EntityType::Shipment,
                payment,
                insurance,
            ) <= u64::MAX,
        ensures
            r is Ok ==> list_post(
                EntityType::Shipment,
                id,
                payment,
                insurance,
                Some(recipient.account_id),
                drop_off_point,
                drop_off_datetime,
                *old(sender),
                *final(sender),
                *old(escrow),
                *final(escrow),
                Ok(r->Ok_0.deal),
            ) && r->Ok_0.items_name == items_name && r->Ok_0.quantity == quantity
                && r->Ok_0.pickup_point == pickup_point && r->Ok_0.pickup_datetime
                == pickup_datetime && r->Ok_0.wf() && r->Ok_0.deal.custody_consistent(
                *final(escrow),
            ),
            r is Err ==> list_post(
                EntityType::Shipment,
                id,
                payment,
                insurance,
                Some(recipient.account_id),
                drop_off_point,
                drop_off_datetime,
                *old(sender),
                *final(sender),
                *old(escrow),
                *final(escrow),
                Err(r->Err_0),
            ) && *final(sender) == *old(sender) && *final(escrow) == *old(escrow),
    {
        let deal = match Deal::list(
            EntityType::Shipment,
            id,
            sender,
            payment,
            insurance,
            Some(recipient.account_id),
            drop_off_point,
            drop_off_datetime,
            escrow,
        ) {
            Ok(d) => d,
            Err(e) => {
                return Err(e);
            },
        };
        Ok(Shipment { deal, items_name, quantity, pickup_point, pickup_datetime })
    }

    /// Accepts a `Listed` shipment: issues the sender's, carrier's and
    /// recipient's one-time secrets and locks the carrier's insurance
    /// stake.
    pub fn accept_shipment(&mut self, carrier: &mut User, escrow: &mut Escrow) -> (r: Result<
        (),
        DLUError,
    >)
        requires
            old(self).wf(),
            old(self).deal.custody_consistent(*old(escrow)),
        ensures
            accept_post(
                old(self).deal,
                final(self).deal,
                *old(carrier),
                *final(carrier),
                *old(escrow),
                *final(escrow),
                r,
            ),
            final(self).wf(),
            final(self).deal.custody_consistent(*final(escrow)),
            final(self).items_name == old(self).items_name,
            final(self).quantity == old(self).quantity,
            final(self).pickup_point == old(self).pickup_point,
            final(self).pickup_datetime == old(self).pickup_datetime,
            r is Err ==> *final(self) == *old(self) && *final(carrier) == *old(carrier) && *final(escrow) == *old(escrow),
    {
        self.deal.accept(carrier, escrow)
    }

    /// Settles an `Accepted` shipment.  All three entered secrets — the
    /// sender's, the carrier's and the recipient's — are validated before
    /// any fund moves; on success the carrier collects payment plus
    /// insurance, every slot is consumed and the sender's and carrier's
    /// reputations are marked successful.
    pub fn complete_shipment(
        &mut self,
        entered_sender_key: String,
        entered_carrier_key: String,
        entered_recipient_key: String,
        sender: &mut User,
        carrier: &mut User,
        escrow: &mut Escrow,
    ) -> (r: Result<(), DLUError>)
        requires
            old(self).wf(),
            old(self).deal.custody_consistent(*old(escrow)),
            old(sender).account_id == old(self).deal.initiator,
            old(self).deal.status is Accepted ==> old(self).deal.acceptor == Some(
                old(carrier).account_id,
            ),
            old(self).deal.status is Accepted ==> old(sender).wallet.balance + old(
                self,
            ).deal.release_to_initiator() <= u64::MAX,
            old(self).deal.status is Accepted ==> old(carrier).wallet.balance + old(
                self,
            ).deal.release_to_acceptor() <= u64::MAX,
            old(self).deal.status is Accepted ==> old(sender).can_mark(true) && old(
                carrier,
            ).can_mark(true),
        ensures
            complete_post(
                old(self).deal,
                final(self).deal,
                entered_sender_key@,
                entered_carrier_key@,
                Some(entered_recipient_key@),
                *old(sender),
                *final(sender),
                *old(carrier),
                *final(carrier),
                *old(escrow),
                *final(escrow),
                r,
            ),
            final(self).wf(),
            final(self).deal.custody_consistent(*final(escrow)),
            final(self).items_name == old(self).items_name,
            final(self).quantity == old(self).quantity,
            final(self).pickup_point == old(self).pickup_point,
            final(self).pickup_datetime == old(self).pickup_datetime,
            r is Ok <==> old(self).deal.status is Accepted && old(self).deal.all_secrets_match(
                entered_sender_key@,
                entered_carrier_key@,
                Some(entered_recipient_key@),
            ),
            r is Err ==> *final(self) == *old(self) && *final(sender) == *old(sender) && *final(carrier) == *old(carrier) && *final(escrow) == *old(escrow),
    {
        self.deal.complete(
            &entered_sender_key,
            &entered_carrier_key,
            Some(&entered_recipient_key),
            sender,
            carrier,
            escrow,
        )
    }

    /// Fails an `Accepted` shipment on the sender's authority: the
    /// presented sender secret must still match.  The whole stake is
    /// forfeited to the penalty sink and the carrier's reputation is marked
    /// failed.
    pub fn fail_shipment(
        &mut self,
        entered_sender_key: String,
        carrier: &mut User,
        escrow: &mut Escrow,
        penalty: &mut Wallet,
    ) -> (r: Result<(), DLUError>)
        requires
            old(self).wf(),
            old(self).deal.custody_consistent(*old(escrow)),
            old(self).deal.status is Accepted ==> old(self).deal.acceptor == Some(
                old(carrier).account_id,
            ),
            old(self).deal.status is Accepted ==> old(penalty).balance + old(
                self,
            ).deal.total_lock() <= u64::MAX,
            old(self).deal.status is Accepted ==> old(carrier).can_mark(true),
        ensures
            fail_post(
                old(self).deal,
                final(self).deal,
                entered_sender_key@,
                *old(carrier),
                *final(carrier),
                *old(escrow),
                *final(escrow),
                *old(penalty),
                *final(penalty),
                r,
            ),
            final(self).wf(),
            final(self).deal.custody_consistent(*final(escrow)),
            final(self).items_name == old(self).items_name,
            final(self).quantity == old(self).quantity,
            final(self).pickup_point == old(self).pickup_point,
            final(self).pickup_datetime == old(self).pickup_datetime,
            r is Err ==> *final(self) == *old(self) && *final(carrier) == *old(carrier) && *final(escrow) == *old(escrow) && *final(penalty) == *old(penalty),
    {
        self.deal.fail(&entered_sender_key, carrier, escrow, penalty)
    }

    /// Expires an `Accepted` shipment at the given time: once the drop-off
    /// datetime plus the grace window has been reached, the sender is
    /// refunded the payment and the carrier its insurance, with no penalty
    /// and no reputation change.
    pub fn expire_shipment_at(
        &mut self,
        now: i64,
        sender: &mut User,
        carrier: &mut User,
        escrow: &mut Escrow,
    ) -> (r: Result<(), DLUError>)
        requires
            old(self).wf(),
            old(self).deal.custody_consistent(*old(escrow)),
            old(self).deal.deadline + GRACE_WINDOW_SECONDS <= i64::MAX,
            old(self).deal.status is Accepted ==> old(sender).account_id == old(
                self,
            ).deal.initiator,
            old(self).deal.status is Accepted ==> old(self).deal.acceptor == Some(
                old(carrier).account_id,
            ),
            old(self).deal.status is Accepted ==> old(sender).wallet.balance + old(
                self,
            ).deal.initiator_lock() <= u64::MAX,
            old(self).deal.status is Accepted ==> old(carrier).wallet.balance + old(
                self,
            ).deal.acceptor_lock() <= u64::MAX,
        ensures
            expire_post(
                old(self).deal,
                final(self).deal,
                now,
                *old(sender),
                *final(sender),
                *old(carrier),
                *final(carrier),
                *old(escrow),
                *final(escrow),
                r,
            ),
            final(self).wf(),
            final(self).deal.custody_consistent(*final(escrow)),
            final(self).items_name == old(self).items_name,
            final(self).quantity == old(self).quantity,
            final(self).pickup_point == old(self).pickup_point,
            final(self).pickup_datetime == old(self).pickup_datetime,
            r is Err ==> *final(self) == *old(self) && *final(sender) == *old(sender) && *final(carrier) == *old(carrier) && *final(escrow) == *old(escrow),
    {
        self.deal.expire_at(now, sender, carrier, escrow)
    }

    /// Expires an `Accepted` shipment against the wall clock.  The refusal
    /// and refund rules are those of `expire_shipment_at`, applied to the
    /// clock reading the call happens to see.
    pub fn expire_shipment(
        &mut self,
        sender: &mut User,
        carrier: &mut User,
        escrow: &mut Escrow,
    ) -> (r: Result<(), DLUError>)
        requires
            old(self).wf(),
            old(self).deal.custody_consistent(*old(escrow)),
            old(self).deal.deadline + GRACE_WINDOW_SECONDS <= i64::MAX,
            old(self).deal.status is Accepted ==> old(sender).account_id == old(
                self,
            ).deal.initiator,
            old(self).deal.status is Accepted ==> old(self).deal.acceptor == Some(
                old(carrier).account_id,
            ),
            old(self).deal.status is Accepted ==> old(sender).wallet.balance + old(
                self,
            ).deal.initiator_lock() <= u64::MAX,
            old(self).deal.status is Accepted ==> old(carrier).wallet.balance + old(
                self,
            ).deal.acceptor_lock() <= u64::MAX,
        ensures
            exists|now: i64|
                expire_post(
                    old(self).deal,
                    final(self).deal,
                    now,
                    *old(sender),
                    *final(sender),
                    *old(carrier),
                    *final(carrier),
                    *old(escrow),
                    *final(escrow),
                    r,
                ),
            final(self).wf(),
            final(self).deal.custody_consistent(*final(escrow)),
            final(self).items_name == old(self).items_name,
            final(self).quantity == old(self).quantity,
            final(self).pickup_point == old(self).pickup_point,
            final(self).pickup_datetime == old(self).pickup_datetime,
            old(self).deal.status is Accepted || r is Err,
            r is Err ==> r == Err::<(), DLUError>(DLUError::OperationNotAllowed) && *final(self)
                == *old(self) && *final(sender) == *old(sender) && *final(carrier) == *old(carrier)
                && *final(escrow) == *old(escrow),
    {
        let now = now_unix();
        self.deal.expire_at(now, sender, carrier, escrow)
    }

    /// Cancels a `Listed` shipment: the sender's payment — the only stake
    /// taken so far — is refunded in full.
    pub fn cancel_shipment(&mut self, sender: &mut User, escrow: &mut Escrow) -> (r: Result<
        (),
        DLUError,
    >)
        requires
            old(self).wf(),
            old(self).deal.custody_consistent(*old(escrow)),
            old(self).deal.status is Listed ==> old(sender).account_id == old(self).deal.initiator,
            old(self).deal.status is Listed ==> old(sender).wallet.balance + old(
                self,
            ).deal.initiator_lock() <= u64::MAX,
        ensures
            cancel_post(
                old(self).deal,
                final(self).deal,
                *old(sender),
                *final(sender),
                *old(escrow),
                *final(escrow),
                r,
            ),
            final(self).wf(),
            final(self).deal.custody_consistent(*final(escrow)),
            final(self).items_name == old(self).items_name,
            final(self).quantity == old(self).quantity,
            final(self).pickup_point == old(self).pickup_point,
            final(self).pickup_datetime == old(self).pickup_datetime,
            r is Err ==> *final(self) == *old(self) && *final(sender) == *old(sender) && *final(escrow) == *old(escrow),
    {
        self.deal.cancel(sender, escrow)
    }

    /// Overwrites the status field.  This bypasses the lifecycle rules and
    /// offers no guarantee beyond the written value; the transitions above
    /// are the supported way to move a deal.
    pub fn update_status(&mut self, new_status: ShipmentStatus)
        ensures
            *final(self) == (Shipment {
                deal: Deal { status: new_status, ..old(self).deal },
                ..*old(self)
            }),
    {
        self.deal.status = new_status;
    }
}

} // verus!

//! Offers: deals listed by a seller and accepted by a buyer.

use vstd::prelude::*;

use crate::clock::now_unix;
use crate::deal::{
    accept_post, acceptor_lock_of, cancel_post, complete_post, expire_post, fail_post,
    initiator_lock_of, list_post, Deal, DealStatus, EntityType, Location,
    GRACE_WINDOW_SECONDS,
};
use crate::dlu_wallet::Wallet;
use crate::errors::DLUError;
use crate::escrow::Escrow;
use crate::user::User;

verus! {

/// The lifecycle states of an offer.
pub type OfferStatus = DealStatus;

/// A single offer posted by a seller.  The seller is the deal's initiator
/// and the buyer its acceptor: the seller stakes the insurance at listing,
/// the buyer pays payment plus insurance at acceptance, and settlement
/// routes payment plus insurance to the seller and the insurance back to
/// the buyer.
#[derive(Clone, Debug)]
pub struct Offer {
    /// The shared lifecycle record.
    pub deal: Deal,
    pub goodsorservice_name: String,
    pub goodsorservice_description: String,
}

impl Offer {
    /// Well-formedness: the underlying record is well formed and of the
    /// offer kind.
    pub open spec fn wf(self) -> bool {
        &&& self.deal.wf()
        &&& self.deal.kind is Offer
    }

    /// Lists a new offer.  Insurance always equals the payment, and the
    /// seller's insurance stake is debited into the fresh custody account.
    pub fn list_offer(
        id: u64,
        seller: &mut User,
        goodsorservice_name: String,
        goodsorservice_description: String,
        payment: u64,
        meeting_point: Location,
        meeting_datetime: i64,
        escrow: &mut Escrow,
    ) -> (r: Result<Offer, DLUError>)
        requires
            old(escrow).balance == 0,
            initiator_lock_of(EntityType::Offer, payment, payment) + acceptor_lock_of(
                EntityType::Offer,
                payment,
                payment,
            ) <= u64::MAX,
        ensures
            r is Ok ==> list_post(
                EntityType::Offer,
                id,
                payment,
                payment,
                None,
                meeting_point,
                meeting_datetime,
                *old(seller),
                *final(seller),
                *old(escrow),
                *final(escrow),
                Ok(r->Ok_0.deal),
            ) && r->Ok_0.goodsorservice_name == goodsorservice_name
                && r->Ok_0.goodsorservice_description == goodsorservice_description
                && r->Ok_0.wf() && r->Ok_0.deal.custody_consistent(*final(escrow)),
            r is Err ==> list_post(
                EntityType::Offer,
                id,
                payment,
                payment,
                None,
                meeting_point,
                meeting_datetime,
                *old(seller),
                *final(seller),
                *old(escrow),
                *final(escrow),
                Err(r->Err_0),
            ) && *final(seller) == *old(seller) && *final(escrow) == *old(escrow),
    {
        let deal = match Deal::list(
            EntityType::Offer,
            id,
            seller,
            payment,
            payment,
            None,
            meeting_point,
            meeting_datetime,
            escrow,
        ) {
            Ok(d) => d,
            Err(e) => {
                return Err(e);
            },
        };
        Ok(Offer { deal, goodsorservice_name, goodsorservice_description })
    }

    /// Accepts a `Listed` offer: issues the seller's and buyer's one-time
    /// secrets and locks the buyer's payment-plus-insurance stake.
    pub fn accept_offer(&mut self, buyer: &mut User, escrow: &mut Escrow) -> (r: Result<
        (),
        DLUError,
    >)
        requires
            old(self).wf(),
            old(self).deal.custody_consistent(*old(escrow)),
        ensures
            accept_post(
                old(self).deal,
                final(self).deal,
                *old(buyer),
                *final(buyer),
                *old(escrow),
                *final(escrow),
                r,
            ),
            final(self).wf(),
            final(self).deal.custody_consistent(*final(escrow)),
            final(self).goodsorservice_name == old(self).goodsorservice_name,
            final(self).goodsorservice_description == old(self).goodsorservice_description,
            r is Err ==> *final(self) == *old(self) && *final(buyer) == *old(buyer) && *final(escrow) == *old(escrow),
    {
        self.deal.accept(buyer, escrow)
    }

    /// Settles an `Accepted` offer.  Both entered secrets are validated
    /// before any fund moves; on success the seller collects payment plus
    /// insurance, the buyer is returned the insurance, both slots are
    /// consumed and both reputations are marked successful.
    pub fn complete_offer(
        &mut self,
        entered_buyer_key: String,
        entered_seller_key: String,
        seller: &mut User,
        buyer: &mut User,
        escrow: &mut Escrow,
    ) -> (r: Result<(), DLUError>)
        requires
            old(self).wf(),
            old(self).deal.custody_consistent(*old(escrow)),
            old(seller).account_id == old(self).deal.initiator,
            old(self).deal.status is Accepted ==> old(self).deal.acceptor == Some(
                old(buyer).account_id,
            ),
            old(self).deal.status is Accepted ==> old(seller).wallet.balance + old(
                self,
            ).deal.release_to_initiator() <= u64::MAX,
            old(self).deal.status is Accepted ==> old(buyer).wallet.balance + old(
                self,
            ).deal.release_to_acceptor() <= u64::MAX,
            old(self).deal.status is Accepted ==> old(seller).can_mark(false) && old(
                buyer,
            ).can_mark(false),
        ensures
            complete_post(
                old(self).deal,
                final(self).deal,
                entered_seller_key@,
                entered_buyer_key@,
                None,
                *old(seller),
                *final(seller),
                *old(buyer),
                *final(buyer),
                *old(escrow),
                *final(escrow),
                r,
            ),
            final(self).wf(),
            final(self).deal.custody_consistent(*final(escrow)),
            final(self).goodsorservice_name == old(self).goodsorservice_name,
            final(self).goodsorservice_description == old(self).goodsorservice_description,
            r is Ok <==> old(self).deal.status is Accepted && old(self).deal.all_secrets_match(
                entered_seller_key@,
                entered_buyer_key@,
                None,
            ),
            r is Err ==> *final(self) == *old(self) && *final(seller) == *old(seller) && *final(buyer) == *old(buyer) && *final(escrow) == *old(escrow),
    {
        self.deal.complete(&entered_seller_key, &entered_buyer_key, None, seller, buyer, escrow)
    }

    /// Fails an `Accepted` offer on the seller's authority: the presented
    /// seller secret must still match.  The whole stake is forfeited to the
    /// penalty sink and the buyer's reputation is marked failed.
    pub fn fail_offer(
        &mut self,
        entered_seller_key: String,
        buyer: &mut User,
        escrow: &mut Escrow,
        penalty: &mut Wallet,
    ) -> (r: Result<(), DLUError>)
        requires
            old(self).wf(),
            old(self).deal.custody_consistent(*old(escrow)),
            old(self).deal.status is Accepted ==> old(self).deal.acceptor == Some(
                old(buyer).account_id,
            ),
            old(self).deal.status is Accepted ==> old(penalty).balance + old(
                self,
            ).deal.total_lock() <= u64::MAX,
            old(self).deal.status is Accepted ==> old(buyer).can_mark(false),
        ensures
            fail_post(
                old(self).deal,
                final(self).deal,
                entered_seller_key@,
                *old(buyer),
                *final(buyer),
                *old(escrow),
                *final(escrow),
                *old(penalty),
                *final(penalty),
                r,
            ),
            final(self).wf(),
            final(self).deal.custody_consistent(*final(escrow)),
            final(self).goodsorservice_name == old(self).goodsorservice_name,
            final(self).goodsorservice_description == old(self).goodsorservice_description,
            r is Err ==> *final(self) == *old(self) && *final(buyer) == *old(buyer) && *final(escrow) == *old(escrow) && *final(penalty) == *old(penalty),
    {
        self.deal.fail(&entered_seller_key, buyer, escrow, penalty)
    }

    /// Expires an `Accepted` offer at the given time: once the meeting
    /// datetime plus the grace window has been reached, both parties are
    /// refunded exactly what they staked, with no penalty and no reputation
    /// change.
    pub fn expire_offer_at(
        &mut self,
        now: i64,
        seller: &mut User,
        buyer: &mut User,
        escrow: &mut Escrow,
    ) -> (r: Result<(), DLUError>)
        requires
            old(self).wf(),
            old(self).deal.custody_consistent(*old(escrow)),
            old(self).deal.deadline + GRACE_WINDOW_SECONDS <= i64::MAX,
            old(self).deal.status is Accepted ==> old(seller).account_id == old(
                self,
            ).deal.initiator,
            old(self).deal.status is Accepted ==> old(self).deal.acceptor == Some(
                old(buyer).account_id,
            ),
            old(self).deal.status is Accepted ==> old(seller).wallet.balance + old(
                self,
            ).deal.initiator_lock() <= u64::MAX,
            old(self).deal.status is Accepted ==> old(buyer).wallet.balance + old(
                self,
            ).deal.acceptor_lock() <= u64::MAX,
        ensures
            expire_post(
                old(self).deal,
                final(self).deal,
                now,
                *old(seller),
                *final(seller),
                *old(buyer),
                *final(buyer),
                *old(escrow),
                *final(escrow),
                r,
            ),
            final(self).wf(),
            final(self).deal.custody_consistent(*final(escrow)),
            final(self).goodsorservice_name == old(self).goodsorservice_name,
            final(self).goodsorservice_description == old(self).goodsorservice_description,
            r is Err ==> *final(self) == *old(self) && *final(seller) == *old(seller) && *final(buyer) == *old(buyer) && *final(escrow) == *old(escrow),
    {
        self.deal.expire_at(now, seller, buyer, escrow)
    }

    /// Expires an `Accepted` offer against the wall clock.  The refusal and
    /// refund rules are those of `expire_offer_at`, applied to the clock
    /// reading the call happens to see.
    pub fn expire_offer(
        &mut self,
        seller: &mut User,
        buyer: &mut User,
        escrow: &mut Escrow,
    ) -> (r: Result<(), DLUError>)
        requires
            old(self).wf(),
            old(self).deal.custody_consistent(*old(escrow)),
            old(self).deal.deadline + GRACE_WINDOW_SECONDS <= i64::MAX,
            old(self).deal.status is Accepted ==> old(seller).account_id == old(
                self,
            ).deal.initiator,
            old(self).deal.status is Accepted ==> old(self).deal.acceptor == Some(
                old(buyer).account_id,
            ),
            old(self).deal.status is Accepted ==> old(seller).wallet.balance + old(
                self,
            ).deal.initiator_lock() <= u64::MAX,
            old(self).deal.status is Accepted ==> old(buyer).wallet.balance + old(
                self,
            ).deal.acceptor_lock() <= u64::MAX,
        ensures
            exists|now: i64|
                expire_post(
                    old(self).deal,
                    final(self).deal,
                    now,
                    *old(seller),
                    *final(seller),
                    *old(buyer),
                    *final(buyer),
                    *old(escrow),
                    *final(escrow),
                    r,
                ),
            final(self).wf(),
            final(self).deal.custody_consistent(*final(escrow)),
            final(self).goodsorservice_name == old(self).goodsorservice_name,
            final(self).goodsorservice_description == old(self).goodsorservice_description,
            old(self).deal.status is Accepted || r is Err,
            r is Err ==> r == Err::<(), DLUError>(DLUError::OperationNotAllowed) && *final(self)
                == *old(self) && *final(seller) == *old(seller) && *final(buyer) == *old(buyer)
                && *final(escrow) == *old(escrow),
    {
        let now = now_unix();
        self.deal.expire_at(now, seller, buyer, escrow)
    }

    /// Cancels a `Listed` offer: the seller's stake — the only one taken so
    /// far — is refunded in full.
    pub fn cancel_offer(&mut self, seller: &mut User, escrow: &mut Escrow) -> (r: Result<
        (),
        DLUError,
    >)
        requires
            old(self).wf(),
            old(self).deal.custody_consistent(*old(escrow)),
            old(self).deal.status is Listed ==> old(seller).account_id == old(self).deal.initiator,
            old(self).deal.status is Listed ==> old(seller).wallet.balance + old(
                self,
            ).deal.initiator_lock() <= u64::MAX,
        ensures
            cancel_post(
                old(self).deal,
                final(self).deal,
                *old(seller),
                *final(seller),
                *old(escrow),
                *final(escrow),
                r,
            ),
            final(self).wf(),
            final(self).deal.custody_consistent(*final(escrow)),
            final(self).goodsorservice_name == old(self).goodsorservice_name,
            final(self).goodsorservice_description == old(self).goodsorservice_description,
            r is Err ==> *final(self) == *old(self) && *final(seller) == *old(seller) && *final(escrow) == *old(escrow),
    {
        self.deal.cancel(seller, escrow)
    }

    /// Overwrites the status field.  This bypasses the lifecycle rules and
    /// offers no guarantee beyond the written value; the transitions above
    /// are the supported way to move a deal.
    pub fn update_status(&mut self, new_status: OfferStatus)
        ensures
            *final(self) == (Offer {
                deal: Deal { status: new_status, ..old(self).deal },
                ..*old(self)
            }),
    {
        self.deal.status = new_status;
    }
}

} // verus!

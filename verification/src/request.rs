//! Requests: deals listed by a buyer and accepted by a seller.

use vstd::prelude::*;

use crate::clock::now_unix;
use crate::deal::{
    accept_post, acceptor_lock_of, cancel_post, complete_post, expire_post, fail_post,
    initiator_lock_of, list_post, Deal, DealStatus, EntityType, Location, GRACE_WINDOW_SECONDS,
};
use crate::dlu_wallet::Wallet;
use crate::errors::DLUError;
use crate::escrow::Escrow;
use crate::user::User;

verus! {

/// The lifecycle states of a request.
pub type RequestStatus = DealStatus;

/// A single request posted by a buyer.  The buyer is the deal's initiator
/// and the seller its acceptor: the buyer prepays payment plus insurance at
/// listing, the seller stakes the insurance at acceptance, and settlement
/// routes payment plus insurance to the seller and the insurance back to
/// the buyer.
#[derive(Clone, Debug)]
pub struct Request {
    /// The shared lifecycle record.
    pub deal: Deal,
    pub goodsorservice_name: String,
    pub goodsorservice_description: String,
}

impl Request {
    /// Well-formedness: the underlying record is well formed and of the
    /// request kind.
    pub open spec fn wf(self) -> bool {
        &&& self.deal.wf()
        &&& self.deal.kind is Request
    }

    /// Lists a new request.  Insurance always equals the payment, and the
    /// buyer's payment-plus-insurance stake is debited into the fresh
    /// custody account.
    pub fn list_request(
        id: u64,
        buyer: &mut User,
        goodsorservice_name: String,
        goodsorservice_description: String,
        payment: u64,
        meeting_point: Location,
        meeting_datetime: i64,
        escrow: &mut Escrow,
    ) -> (r: Result<Request, DLUError>)
        requires
            old(escrow).balance == 0,
            initiator_lock_of(EntityType::Request, payment, payment) + acceptor_lock_of(
                EntityType::Request,
                payment,
                payment,
            ) <= u64::MAX,
        ensures
            r is Ok ==> list_post(
                EntityType::Request,
                id,
                payment,
                payment,
                None,
                meeting_point,
                meeting_datetime,
                *old(buyer),
                *final(buyer),
                *old(escrow),
                *final(escrow),
                Ok(r->Ok_0.deal),
            ) && r->Ok_0.goodsorservice_name == goodsorservice_name
                && r->Ok_0.goodsorservice_description == goodsorservice_description
                && r->Ok_0.wf() && r->Ok_0.deal.custody_consistent(*final(escrow)),
            r is Err ==> list_post(
                EntityType::Request,
                id,
                payment,
                payment,
                None,
                meeting_point,
                meeting_datetime,
                *old(buyer),
                *final(buyer),
                *old(escrow),
                *final(escrow),
                Err(r->Err_0),
            ) && *final(buyer) == *old(buyer) && *final(escrow) == *old(escrow),
    {
        let deal = match Deal::list(
            EntityType::Request,
            id,
            buyer,
            payment,
            payment,
            None,
            meeting_point,
            meeting_datetime,
            escrow,
        ) {
            Ok(d) => d,
            Err(e) => {
                return Err(e);
            },
        };
        Ok(Request { deal, goodsorservice_name, goodsorservice_description })
    }

    /// Accepts a `Listed` request: issues the buyer's and seller's one-time
    /// secrets and locks the seller's insurance stake.
    pub fn accept_request(&mut self, seller: &mut User, escrow: &mut Escrow) -> (r: Result<
        (),
        DLUError,
    >)
        requires
            old(self).wf(),
            old(self).deal.custody_consistent(*old(escrow)),
        ensures
            accept_post(
                old(self).deal,
                final(self).deal,
                *old(seller),
                *final(seller),
                *old(escrow),
                *final(escrow),
                r,
            ),
            final(self).wf(),
            final(self).deal.custody_consistent(*final(escrow)),
            final(self).goodsorservice_name == old(self).goodsorservice_name,
            final(self).goodsorservice_description == old(self).goodsorservice_description,
            r is Err ==> *final(self) == *old(self) && *final(seller) == *old(seller) && *final(escrow) == *old(escrow),
    {
        self.deal.accept(seller, escrow)
    }

    /// Settles an `Accepted` request.  Both entered secrets are validated
    /// before any fund moves; on success the seller collects payment plus
    /// insurance, the buyer is returned the insurance, both slots are
    /// consumed and both reputations are marked successful.
    pub fn complete_request(
        &mut self,
        entered_buyer_key: String,
        entered_seller_key: String,
        seller: &mut User,
        buyer: &mut User,
        escrow: &mut Escrow,
    ) -> (r: Result<(), DLUError>)
        requires
            old(self).wf(),
            old(self).deal.custody_consistent(*old(escrow)),
            old(buyer).account_id == old(self).deal.initiator,
            old(self).deal.status is Accepted ==> old(self).deal.acceptor == Some(
                old(seller).account_id,
            ),
            old(self).deal.status is Accepted ==> old(buyer).wallet.balance + old(
                self,
            ).deal.release_to_initiator() <= u64::MAX,
            old(self).deal.status is Accepted ==> old(seller).wallet.balance + old(
                self,
            ).deal.release_to_acceptor() <= u64::MAX,
            old(self).deal.status is Accepted ==> old(seller).can_mark(false) && old(
                buyer,
            ).can_mark(false),
        ensures
            complete_post(
                old(self).deal,
                final(self).deal,
                entered_buyer_key@,
                entered_seller_key@,
                None,
                *old(buyer),
                *final(buyer),
                *old(seller),
                *final(seller),
                *old(escrow),
                *final(escrow),
                r,
            ),
            final(self).wf(),
            final(self).deal.custody_consistent(*final(escrow)),
            final(self).goodsorservice_name == old(self).goodsorservice_name,
            final(self).goodsorservice_description == old(self).goodsorservice_description,
            r is Ok <==> old(self).deal.status is Accepted && old(self).deal.all_secrets_match(
                entered_buyer_key@,
                entered_seller_key@,
                None,
            ),
            r is Err ==> *final(self) == *old(self) && *final(seller) == *old(seller) && *final(buyer) == *old(buyer) && *final(escrow) == *old(escrow),
    {
        self.deal.complete(&entered_buyer_key, &entered_seller_key, None, buyer, seller, escrow)
    }

    /// Fails an `Accepted` request on the seller's authority: the presented
    /// seller secret must still match.  The whole stake is forfeited to the
    /// penalty sink and the buyer's reputation is marked failed.
    pub fn fail_request(
        &mut self,
        entered_seller_key: String,
        buyer: &mut User,
        escrow: &mut Escrow,
        penalty: &mut Wallet,
    ) -> (r: Result<(), DLUError>)
        requires
            old(self).wf(),
            old(self).deal.custody_consistent(*old(escrow)),
            old(self).deal.status is Accepted ==> old(buyer).account_id == old(
                self,
            ).deal.initiator,
            old(self).deal.status is Accepted ==> old(penalty).balance + old(
                self,
            ).deal.total_lock() <= u64::MAX,
            old(self).deal.status is Accepted ==> old(buyer).can_mark(false),
        ensures
            fail_post(
                old(self).deal,
                final(self).deal,
                entered_seller_key@,
                *old(buyer),
                *final(buyer),
                *old(escrow),
                *final(escrow),
                *old(penalty),
                *final(penalty),
                r,
            ),
            final(self).wf(),
            final(self).deal.custody_consistent(*final(escrow)),
            final(self).goodsorservice_name == old(self).goodsorservice_name,
            final(self).goodsorservice_description == old(self).goodsorservice_description,
            r is Err ==> *final(self) == *old(self) && *final(buyer) == *old(buyer) && *final(escrow) == *old(escrow) && *final(penalty) == *old(penalty),
    {
        self.deal.fail(&entered_seller_key, buyer, escrow, penalty)
    }

    /// Expires an `Accepted` request at the given time: once the meeting
    /// datetime plus the grace window has been reached, both parties are
    /// refunded exactly what they staked, with no penalty and no reputation
    /// change.
    pub fn expire_request_at(
        &mut self,
        now: i64,
        buyer: &mut User,
        seller: &mut User,
        escrow: &mut Escrow,
    ) -> (r: Result<(), DLUError>)
        requires
            old(self).wf(),
            old(self).deal.custody_consistent(*old(escrow)),
            old(self).deal.deadline + GRACE_WINDOW_SECONDS <= i64::MAX,
            old(self).deal.status is Accepted ==> old(buyer).account_id == old(
                self,
            ).deal.initiator,
            old(self).deal.status is Accepted ==> old(self).deal.acceptor == Some(
                old(seller).account_id,
            ),
            old(self).deal.status is Accepted ==> old(buyer).wallet.balance + old(
                self,
            ).deal.initiator_lock() <= u64::MAX,
            old(self).deal.status is Accepted ==> old(seller).wallet.balance + old(
                self,
            ).deal.acceptor_lock() <= u64::MAX,
        ensures
            expire_post(
                old(self).deal,
                final(self).deal,
                now,
                *old(buyer),
                *final(buyer),
                *old(seller),
                *final(seller),
                *old(escrow),
                *final(escrow),
                r,
            ),
            final(self).wf(),
            final(self).deal.custody_consistent(*final(escrow)),
            final(self).goodsorservice_name == old(self).goodsorservice_name,
            final(self).goodsorservice_description == old(self).goodsorservice_description,
            r is Err ==> *final(self) == *old(self) && *final(buyer) == *old(buyer) && *final(seller) == *old(seller) && *final(escrow) == *old(escrow),
    {
        self.deal.expire_at(now, buyer, seller, escrow)
    }

    /// Expires an `Accepted` request against the wall clock.  The refusal
    /// and refund rules are those of `expire_request_at`, applied to the
    /// clock reading the call happens to see.
    pub fn expire_request(
        &mut self,
        buyer: &mut User,
        seller: &mut User,
        escrow: &mut Escrow,
    ) -> (r: Result<(), DLUError>)
        requires
            old(self).wf(),
            old(self).deal.custody_consistent(*old(escrow)),
            old(self).deal.deadline + GRACE_WINDOW_SECONDS <= i64::MAX,
            old(self).deal.status is Accepted ==> old(buyer).account_id == old(
                self,
            ).deal.initiator,
            old(self).deal.status is Accepted ==> old(self).deal.acceptor == Some(
                old(seller).account_id,
            ),
            old(self).deal.status is Accepted ==> old(buyer).wallet.balance + old(
                self,
            ).deal.initiator_lock() <= u64::MAX,
            old(self).deal.status is Accepted ==> old(seller).wallet.balance + old(
                self,
            ).deal.acceptor_lock() <= u64::MAX,
        ensures
            exists|now: i64|
                expire_post(
                    old(self).deal,
                    final(self).deal,
                    now,
                    *old(buyer),
                    *final(buyer),
                    *old(seller),
                    *final(seller),
                    *old(escrow),
                    *final(escrow),
                    r,
                ),
            final(self).wf(),
            final(self).deal.custody_consistent(*final(escrow)),
            final(self).goodsorservice_name == old(self).goodsorservice_name,
            final(self).goodsorservice_description == old(self).goodsorservice_description,
            old(self).deal.status is Accepted || r is Err,
            r is Err ==> r == Err::<(), DLUError>(DLUError::OperationNotAllowed) && *final(self)
                == *old(self) && *final(buyer) == *old(buyer) && *final(seller) == *old(seller)
                && *final(escrow) == *old(escrow),
    {
        let now = now_unix();
        self.deal.expire_at(now, buyer, seller, escrow)
    }

    /// Cancels a `Listed` request: the buyer's stake — the only one taken
    /// so far — is refunded in full to the buyer.
    pub fn cancel_request(&mut self, buyer: &mut User, escrow: &mut Escrow) -> (r: Result<
        (),
        DLUError,
    >)
        requires
            old(self).wf(),
            old(self).deal.custody_consistent(*old(escrow)),
            old(self).deal.status is Listed ==> old(buyer).account_id == old(self).deal.initiator,
            old(self).deal.status is Listed ==> old(buyer).wallet.balance + old(
                self,
            ).deal.initiator_lock() <= u64::MAX,
        ensures
            cancel_post(
                old(self).deal,
                final(self).deal,
                *old(buyer),
                *final(buyer),
                *old(escrow),
                *final(escrow),
                r,
            ),
            final(self).wf(),
            final(self).deal.custody_consistent(*final(escrow)),
            final(self).goodsorservice_name == old(self).goodsorservice_name,
            final(self).goodsorservice_description == old(self).goodsorservice_description,
            r is Err ==> *final(self) == *old(self) && *final(buyer) == *old(buyer) && *final(escrow) == *old(escrow),
    {
        self.deal.cancel(buyer, escrow)
    }

    /// Overwrites the status field.  This bypasses the lifecycle rules and
    /// offers no guarantee beyond the written value; the transitions above
    /// are the supported way to move a deal.
    pub fn update_status(&mut self, new_status: RequestStatus)
        ensures
            *final(self) == (Request {
                deal: Deal { status: new_status, ..old(self).deal },
                ..*old(self)
            }),
    {
        self.deal.status = new_status;
    }
}

} // verus!

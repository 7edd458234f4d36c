//! The escrow-backed deal state machine.
//!
//! One lifecycle is shared by the three record kinds: a deal is created in
//! `Listed` with the initiator's stake in custody, moves to `Accepted` when
//! a counterparty stakes its own lock and one-time secrets are issued, and
//! ends in exactly one of the terminal states `Completed`, `Failed`,
//! `Expired` or `Canceled`, each of which empties the custody account.

use vstd::prelude::*;

use crate::dlu_wallet::Wallet;
use crate::errors::DLUError;
use crate::escrow::Escrow;
use crate::onetimekeys::fresh_secret;
use crate::user::{spec_marked, User};

verus! {

/// The grace window, in seconds, past a deal's scheduled datetime after
/// which an accepted but unconfirmed deal becomes eligible for expiry.
pub const GRACE_WINDOW_SECONDS: i64 = 24 * 60 * 60;

/// The three record kinds that share the deal lifecycle.
#[derive(Clone, Copy, Debug, PartialEq, Eq, Structural)]
pub enum EntityType {
    /// Posted by a seller; a buyer accepts.
    Offer,
    /// Posted by a buyer; a seller accepts.
    Request,
    /// Posted by a sender; a carrier accepts, a recipient confirms.
    Shipment,
}

/// The lifecycle states.
#[derive(Clone, Copy, Debug, PartialEq, Eq, Structural)]
pub enum DealStatus {
    Listed,
    Accepted,
    Completed,
    Failed,
    Expired,
    Canceled,
}

/// One role's confirmation-secret slot.  A secret is issued at acceptance
/// and moves to `Consumed` when it is spent; a consumed slot never matches
/// a presented secret again.
#[derive(Clone, Debug)]
pub enum KeySlot {
    /// No secret has been issued for this role yet.
    Unissued,
    /// A secret has been issued and not yet spent.
    Issued(String),
    /// The secret has been spent and can never validate again.
    Consumed,
}

/// A meeting, pickup or drop-off place.
#[derive(Clone, Debug)]
pub struct Location {
    pub country: String,
    pub town: String,
    pub address: String,
}

/// The record shared by offers, requests and shipments: parties are held by
/// account id, funds by a dedicated custody account, and each required role
/// has a one-time confirmation-secret slot.
#[derive(Clone, Debug)]
pub struct Deal {
    pub id: u64,
    pub kind: EntityType,
    pub status: DealStatus,
    /// The account id of the party that listed the deal.
    pub initiator: u64,
    /// The account id of the party that accepted it, unset until acceptance.
    pub acceptor: Option<u64>,
    /// The account id of the shipment recipient; `None` for the two-role kinds.
    pub recipient: Option<u64>,
    pub payment: u64,
    pub insurance: u64,
    /// Where the parties meet, or where the shipment is dropped off.
    pub venue: Location,
    /// The scheduled meeting or drop-off datetime, in Unix seconds.
    pub deadline: i64,
    /// The confirmation-secret slot of the initiating party.
    pub initiator_key: KeySlot,
    /// The confirmation-secret slot of the accepting party.
    pub acceptor_key: KeySlot,
    /// The confirmation-secret slot of the recipient, shipments only.
    pub recipient_key: KeySlot,
    /// The id of the custody account holding this deal's locked funds.
    pub escrow_id: u64,
}

/// True for the states in which a deal is closed for good.
pub open spec fn is_terminal(s: DealStatus) -> bool {
    ||| s is Completed
    ||| s is Failed
    ||| s is Expired
    ||| s is Canceled
}

/// The lifecycle graph: these are the only edges a transition may take.
pub open spec fn lifecycle_edge(pre: DealStatus, post: DealStatus) -> bool {
    ||| (pre is Listed && post is Accepted)
    ||| (pre is Listed && post is Canceled)
    ||| (pre is Accepted && post is Completed)
    ||| (pre is Accepted && post is Failed)
    ||| (pre is Accepted && post is Expired)
}

/// The amount the listing party locks at `list`: a seller posting an offer
/// stakes the insurance, a buyer posting a request prepays payment plus
/// insurance, a sender posting a shipment prepays the payment.
pub open spec fn initiator_lock_of(kind: EntityType, payment: u64, insurance: u64) -> int {
    match kind {
        EntityType::Offer => insurance as int,
        EntityType::Request => payment + insurance,
        EntityType::Shipment => payment as int,
    }
}

/// The amount the accepting party locks at `accept`: a buyer accepting an
/// offer pays payment plus insurance, a seller accepting a request and a
/// carrier accepting a shipment stake the insurance.
pub open spec fn acceptor_lock_of(kind: EntityType, payment: u64, insurance: u64) -> int {
    match kind {
        EntityType::Offer => payment + insurance,
        EntityType::Request => insurance as int,
        EntityType::Shipment => insurance as int,
    }
}

/// True when a presented secret matches a slot: the slot must still hold an
/// issued, unspent secret equal to the presented one.
pub open spec fn slot_matches(slot: KeySlot, presented: Seq<char>) -> bool {
    match slot {
        KeySlot::Issued(s) => s@ == presented,
        _ => false,
    }
}

/// The view of an optional presented secret.
pub open spec fn opt_view(o: Option<&String>) -> Option<Seq<char>> {
    match o {
        Some(s) => Some(s@),
        None => None,
    }
}

impl Deal {
    /// The amount the initiator locked.
    pub open spec fn initiator_lock(self) -> int {
        initiator_lock_of(self.kind, self.payment, self.insurance)
    }

    /// The amount the acceptor locks at acceptance.
    pub open spec fn acceptor_lock(self) -> int {
        acceptor_lock_of(self.kind, self.payment, self.insurance)
    }

    /// The whole stake of an accepted deal.
    pub open spec fn total_lock(self) -> int {
        self.initiator_lock() + self.acceptor_lock()
    }

    /// What `complete` releases to the initiating party: a seller collects
    /// payment plus insurance, a buyer is returned the insurance, a sender
    /// gets nothing back.
    pub open spec fn release_to_initiator(self) -> int {
        match self.kind {
            EntityType::Offer => self.payment + self.insurance,
            EntityType::Request => self.insurance as int,
            EntityType::Shipment => 0,
        }
    }

    /// What `complete` releases to the accepting party: a buyer is returned
    /// the insurance, a seller and a carrier collect payment plus insurance.
    pub open spec fn release_to_acceptor(self) -> int {
        match self.kind {
            EntityType::Offer => self.insurance as int,
            EntityType::Request => self.payment + self.insurance,
            EntityType::Shipment => self.payment + self.insurance,
        }
    }

    /// The slot whose secret authorizes `fail`: the party that hands the
    /// goods over — the seller of an offer or a request, the sender of a
    /// shipment.
    pub open spec fn fail_authority_slot(self) -> KeySlot {
        match self.kind {
            EntityType::Offer => self.initiator_key,
            EntityType::Request => self.acceptor_key,
            EntityType::Shipment => self.initiator_key,
        }
    }

    /// The account whose reputation `fail` marks as failed: the counterparty
    /// of the authorizing party — the buyer of an offer or a request, the
    /// carrier of a shipment.
    pub open spec fn failing_counterparty(self) -> Option<u64> {
        match self.kind {
            EntityType::Offer => self.acceptor,
            EntityType::Request => Some(self.initiator),
            EntityType::Shipment => self.acceptor,
        }
    }

    /// The value this deal is entitled to hold in custody: the initiator's
    /// stake while `Listed`, both stakes while `Accepted`, nothing once
    /// terminal.
    pub open spec fn locked_value(self) -> int {
        match self.status {
            DealStatus::Listed => self.initiator_lock(),
            DealStatus::Accepted => self.total_lock(),
            _ => 0,
        }
    }

    /// Well-formedness of a deal record, established at `list` and preserved
    /// by every transition.
    pub open spec fn wf(self) -> bool {
        // The two-role kinds have no recipient, equate insurance with
        // payment, and never touch the third slot.
        &&& (!(self.kind is Shipment) ==> self.insurance == self.payment && self.recipient
            is None && self.recipient_key is Unissued)
        &&& (self.kind is Shipment ==> self.recipient is Some)
        // The whole stake fits the balance type.
        &&& self.total_lock() <= u64::MAX
        // Secrets do not exist before acceptance and no acceptor is set.
        &&& (self.status is Listed ==> self.acceptor is None && self.initiator_key is Unissued
            && self.acceptor_key is Unissued && self.recipient_key is Unissued)
        // An accepted deal has an acceptor and every required secret issued.
        &&& (self.status is Accepted ==> self.acceptor is Some && self.initiator_key is Issued
            && self.acceptor_key is Issued && (self.kind is Shipment
            ==> self.recipient_key is Issued))
        // Settlement spends every required secret.
        &&& (self.status is Completed || self.status is Failed ==> self.acceptor is Some
            && self.initiator_key is Consumed && self.acceptor_key is Consumed && (self.kind
            is Shipment ==> self.recipient_key is Consumed))
    }

    /// The custody invariant: the account the record references holds
    /// exactly the value locked by this deal's still-open stakes.
    pub open spec fn custody_consistent(self, escrow: Escrow) -> bool {
        &&& escrow.id == self.escrow_id
        &&& escrow.balance == self.locked_value()
    }

    /// True when every required secret of this deal matches its presented
    /// counterpart — which also means that none of them was consumed before.
    pub open spec fn all_secrets_match(
        self,
        k_initiator: Seq<char>,
        k_acceptor: Seq<char>,
        k_recipient: Option<Seq<char>>,
    ) -> bool {
        &&& slot_matches(self.initiator_key, k_initiator)
        &&& slot_matches(self.acceptor_key, k_acceptor)
        &&& (self.kind is Shipment ==> k_recipient is Some && slot_matches(
            self.recipient_key,
            k_recipient->Some_0,
        ))
    }
}

/// Everything `list` does, as a relation between the values before and after
/// the call.
pub open spec fn list_post(
    kind: EntityType,
    id: u64,
    payment: u64,
    insurance: u64,
    recipient: Option<u64>,
    venue: Location,
    deadline: i64,
    init_pre: User,
    init_post: User,
    esc_pre: Escrow,
    esc_post: Escrow,
    r: Result<Deal, DLUError>,
) -> bool {
    let lock = initiator_lock_of(kind, payment, insurance);
    if init_pre.wallet.balance >= lock {
        &&& r is Ok
        &&& r->Ok_0 == (Deal {
            id,
            kind,
            status: DealStatus::Listed,
            initiator: init_pre.account_id,
            acceptor: None,
            recipient,
            payment,
            insurance,
            venue,
            deadline,
            initiator_key: KeySlot::Unissued,
            acceptor_key: KeySlot::Unissued,
            recipient_key: KeySlot::Unissued,
            escrow_id: esc_pre.id,
        })
        &&& init_post == (User {
            wallet: Wallet { balance: (init_pre.wallet.balance - lock) as u64, ..init_pre.wallet },
            ..init_pre
        })
        &&& esc_post == (Escrow { balance: lock as u64, ..esc_pre })
    } else {
        &&& r == Err::<Deal, DLUError>(DLUError::InsufficientFunds)
        &&& init_post == init_pre
        &&& esc_post == esc_pre
    }
}

/// Everything `accept` does.
pub open spec fn accept_post(
    pre: Deal,
    post: Deal,
    acc_pre: User,
    acc_post: User,
    esc_pre: Escrow,
    esc_post: Escrow,
    r: Result<(), DLUError>,
) -> bool {
    if !(pre.status is Listed) {
        &&& r == Err::<(), DLUError>(DLUError::IncorrectState)
        &&& post == pre
        &&& acc_post == acc_pre
        &&& esc_post == esc_pre
    } else if acc_pre.wallet.balance < pre.acceptor_lock() {
        &&& r == Err::<(), DLUError>(DLUError::InsufficientFunds)
        &&& post == pre
        &&& acc_post == acc_pre
        &&& esc_post == esc_pre
    } else {
        &&& r is Ok
        &&& post.status is Accepted
        &&& post.acceptor == Some(acc_pre.account_id)
        &&& post.initiator_key is Issued
        &&& post.acceptor_key is Issued
        &&& (pre.kind is Shipment ==> post.recipient_key is Issued)
        &&& (!(pre.kind is Shipment) ==> post.recipient_key is Unissued)
        &&& post == (Deal {
            status: post.status,
            acceptor: post.acceptor,
            initiator_key: post.initiator_key,
            acceptor_key: post.acceptor_key,
            recipient_key: post.recipient_key,
            ..pre
        })
        &&& acc_post == (User {
            wallet: Wallet {
                balance: (acc_pre.wallet.balance - pre.acceptor_lock()) as u64,
                ..acc_pre.wallet
            },
            ..acc_pre
        })
        &&& esc_post == (Escrow {
            balance: (esc_pre.balance + pre.acceptor_lock()) as u64,
            ..esc_pre
        })
    }
}

/// Everything `complete` does.
pub open spec fn complete_post(
    pre: Deal,
    post: Deal,
    k_initiator: Seq<char>,
    k_acceptor: Seq<char>,
    k_recipient: Option<Seq<char>>,
    init_pre: User,
    init_post: User,
    acc_pre: User,
    acc_post: User,
    esc_pre: Escrow,
    esc_post: Escrow,
    r: Result<(), DLUError>,
) -> bool {
    if !(pre.status is Accepted) {
        &&& r == Err::<(), DLUError>(DLUError::IncorrectState)
        &&& post == pre
        &&& init_post == init_pre
        &&& acc_post == acc_pre
        &&& esc_post == esc_pre
    } else if !pre.all_secrets_match(k_initiator, k_acceptor, k_recipient) {
        &&& r == Err::<(), DLUError>(DLUError::KeyMismatch)
        &&& post == pre
        &&& init_post == init_pre
        &&& acc_post == acc_pre
        &&& esc_post == esc_pre
    } else {
        &&& r is Ok
        &&& post == (Deal {
            status: DealStatus::Completed,
            initiator_key: KeySlot::Consumed,
            acceptor_key: KeySlot::Consumed,
            recipient_key: if pre.kind is Shipment {
                KeySlot::Consumed
            } else {
                pre.recipient_key
            },
            ..pre
        })
        &&& init_post == spec_marked(
            (User {
                wallet: Wallet {
                    balance: (init_pre.wallet.balance + pre.release_to_initiator()) as u64,
                    ..init_pre.wallet
                },
                ..init_pre
            }),
            pre.kind is Shipment,
            true,
        )
        &&& acc_post == spec_marked(
            (User {
                wallet: Wallet {
                    balance: (acc_pre.wallet.balance + pre.release_to_acceptor()) as u64,
                    ..acc_pre.wallet
                },
                ..acc_pre
            }),
            pre.kind is Shipment,
            true,
        )
        &&& esc_post == (Escrow { balance: 0, ..esc_pre })
    }
}

/// Everything `fail` does.
pub open spec fn fail_post(
    pre: Deal,
    post: Deal,
    presented: Seq<char>,
    marked_pre: User,
    marked_post: User,
    esc_pre: Escrow,
    esc_post: Escrow,
    pen_pre: Wallet,
    pen_post: Wallet,
    r: Result<(), DLUError>,
) -> bool {
    if !(pre.status is Accepted) {
        &&& r == Err::<(), DLUError>(DLUError::IncorrectState)
        &&& post == pre
        &&& marked_post == marked_pre
        &&& esc_post == esc_pre
        &&& pen_post == pen_pre
    } else if !slot_matches(pre.fail_authority_slot(), presented) {
        &&& r == Err::<(), DLUError>(DLUError::KeyMismatch)
        &&& post == pre
        &&& marked_post == marked_pre
        &&& esc_post == esc_pre
        &&& pen_post == pen_pre
    } else {
        &&& r is Ok
        &&& post == (Deal {
            status: DealStatus::Failed,
            initiator_key: KeySlot::Consumed,
            acceptor_key: KeySlot::Consumed,
            recipient_key: if pre.kind is Shipment {
                KeySlot::Consumed
            } else {
                pre.recipient_key
            },
            ..pre
        })
        &&& marked_post == spec_marked(marked_pre, pre.kind is Shipment, false)
        &&& esc_post == (Escrow { balance: 0, ..esc_pre })
        &&& pen_post == (Wallet {
            balance: (pen_pre.balance + pre.total_lock()) as u64,
            ..pen_pre
        })
    }
}

/// Everything `expire_at` does at a given current time.
pub open spec fn expire_post(
    pre: Deal,
    post: Deal,
    now: i64,
    init_pre: User,
    init_post: User,
    acc_pre: User,
    acc_post: User,
    esc_pre: Escrow,
    esc_post: Escrow,
    r: Result<(), DLUError>,
) -> bool {
    if !(pre.status is Accepted) || now < pre.deadline + GRACE_WINDOW_SECONDS {
        &&& r == Err::<(), DLUError>(DLUError::OperationNotAllowed)
        &&& post == pre
        &&& init_post == init_pre
        &&& acc_post == acc_pre
        &&& esc_post == esc_pre
    } else {
        &&& r is Ok
        &&& post == (Deal { status: DealStatus::Expired, ..pre })
        &&& init_post == (User {
            wallet: Wallet {
                balance: (init_pre.wallet.balance + pre.initiator_lock()) as u64,
                ..init_pre.wallet
            },
            ..init_pre
        })
        &&& acc_post == (User {
            wallet: Wallet {
                balance: (acc_pre.wallet.balance + pre.acceptor_lock()) as u64,
                ..acc_pre.wallet
            },
            ..acc_pre
        })
        &&& esc_post == (Escrow { balance: 0, ..esc_pre })
    }
}

/// Everything `cancel` does.
pub open spec fn cancel_post(
    pre: Deal,
    post: Deal,
    init_pre: User,
    init_post: User,
    esc_pre: Escrow,
    esc_post: Escrow,
    r: Result<(), DLUError>,
) -> bool {
    if !(pre.status is Listed) {
        &&& r == Err::<(), DLUError>(DLUError::IncorrectState)
        &&& post == pre
        &&& init_post == init_pre
        &&& esc_post == esc_pre
    } else {
        &&& r is Ok
        &&& post == (Deal { status: DealStatus::Canceled, ..pre })
        &&& init_post == (User {
            wallet: Wallet {
                balance: (init_pre.wallet.balance + pre.initiator_lock()) as u64,
                ..init_pre.wallet
            },
            ..init_pre
        })
        &&& esc_post == (Escrow { balance: 0, ..esc_pre })
    }
}

impl Deal {
    /// Creates a deal in `Listed`, debiting the initiator's stake into the
    /// fresh custody account.  Fails with `InsufficientFunds`, and changes
    /// nothing, when the initiator's balance is short.
    pub fn list(
        kind: EntityType,
        id: u64,
        initiator: &mut User,
        payment: u64,
        insurance: u64,
        recipient: Option<u64>,
        venue: Location,
        deadline: i64,
        escrow: &mut Escrow,
    ) -> (r: Result<Deal, DLUError>)
        requires
            old(escrow).balance == 0,
            kind is Shipment <==> recipient is Some,
            !(kind is Shipment) ==> insurance == payment,
            initiator_lock_of(kind, payment, insurance) + acceptor_lock_of(kind, payment, insurance)
                <= u64::MAX,
        ensures
            list_post(
                kind,
                id,
                payment,
                insurance,
                recipient,
                venue,
                deadline,
                *old(initiator),
                *final(initiator),
                *old(escrow),
                *final(escrow),
                r,
            ),
            r is Ok ==> r->Ok_0.wf() && r->Ok_0.custody_consistent(*final(escrow)),
            r is Err ==> *final(initiator) == *old(initiator) && *final(escrow) == *old(escrow),
    {
        let lock_amount: u64 = match kind {
            EntityType::Offer => insurance,
            EntityType::Request => payment + insurance,
            EntityType::Shipment => payment,
        };
        match escrow.lock_funds(&mut initiator.wallet, lock_amount) {
            Ok(()) => {},
            Err(e) => {
                return Err(e);
            },
        }
        Ok(
            Deal {
                id,
                kind,
                status: DealStatus::Listed,
                initiator: initiator.account_id,
                acceptor: None,
                recipient,
                payment,
                insurance,
                venue,
                deadline,
                initiator_key: KeySlot::Unissued,
                acceptor_key: KeySlot::Unissued,
                recipient_key: KeySlot::Unissued,
                escrow_id: escrow.id,
            },
        )
    }

    /// Moves a `Listed` deal to `Accepted`: issues one fresh secret per
    /// required role, records the acceptor and debits its stake into
    /// custody.  Validation precedes every mutation, so a refused call
    /// changes nothing.
    pub fn accept(&mut self, acceptor: &mut User, escrow: &mut Escrow) -> (r: Result<
        (),
        DLUError,
    >)
        requires
            old(self).wf(),
            old(self).custody_consistent(*old(escrow)),
        ensures
            accept_post(
                *old(self),
                *final(self),
                *old(acceptor),
                *final(acceptor),
                *old(escrow),
                *final(escrow),
                r,
            ),
            final(self).wf(),
            final(self).custody_consistent(*final(escrow)),
            final(self).status == old(self).status || lifecycle_edge(
                old(self).status,
                final(self).status,
            ),
            r is Err ==> *final(self) == *old(self) && *final(acceptor) == *old(acceptor)
                && *final(escrow) == *old(escrow),
    {
        if !matches!(self.status, DealStatus::Listed) {
            return Err(DLUError::IncorrectState);
        }
        let stake: u64 = match self.kind {
            EntityType::Offer => self.payment + self.insurance,
            EntityType::Request => self.insurance,
            EntityType::Shipment => self.insurance,
        };
        if acceptor.wallet.balance < stake {
            return Err(DLUError::InsufficientFunds);
        }
        match escrow.lock_funds(&mut acceptor.wallet, stake) {
            Ok(()) => {},
            Err(e) => {
                return Err(e);
            },
        }
        self.acceptor = Some(acceptor.account_id);
        self.initiator_key = KeySlot::Issued(fresh_secret());
        self.acceptor_key = KeySlot::Issued(fresh_secret());
        if matches!(self.kind, EntityType::Shipment) {
            self.recipient_key = KeySlot::Issued(fresh_secret());
        }
        self.status = DealStatus::Accepted;
        Ok(())
    }

    /// Settles an `Accepted` deal.  Every required secret is validated
    /// before any fund moves or any slot is spent; only when all of them
    /// match are the slots atomically consumed, the payment released to the
    /// providing party, each insurance stake returned to the party that
    /// locked it, and both parties' reputations marked successful.
    pub fn complete(
        &mut self,
        k_initiator: &String,
        k_acceptor: &String,
        k_recipient: Option<&String>,
        initiator: &mut User,
        acceptor: &mut User,
        escrow: &mut Escrow,
    ) -> (r: Result<(), DLUError>)
        requires
            old(self).wf(),
            old(self).custody_consistent(*old(escrow)),
            old(self).kind is Shipment <==> k_recipient is Some,
            old(initiator).account_id == old(self).initiator,
            old(self).status is Accepted ==> old(self).acceptor == Some(
                old(acceptor).account_id,
            ),
            old(self).status is Accepted ==> old(initiator).wallet.balance + old(
                self,
            ).release_to_initiator() <= u64::MAX,
            old(self).status is Accepted ==> old(acceptor).wallet.balance + old(
                self,
            ).release_to_acceptor() <= u64::MAX,
            old(self).status is Accepted ==> old(initiator).can_mark(old(self).kind is Shipment),
            old(self).status is Accepted ==> old(acceptor).can_mark(old(self).kind is Shipment),
        ensures
            complete_post(
                *old(self),
                *final(self),
                k_initiator@,
                k_acceptor@,
                opt_view(k_recipient),
                *old(initiator),
                *final(initiator),
                *old(acceptor),
                *final(acceptor),
                *old(escrow),
                *final(escrow),
                r,
            ),
            final(self).wf(),
            final(self).custody_consistent(*final(escrow)),
            final(self).status == old(self).status || lifecycle_edge(
                old(self).status,
                final(self).status,
            ),
            r is Ok <==> old(self).status is Accepted && old(self).all_secrets_match(
                k_initiator@,
                k_acceptor@,
                opt_view(k_recipient),
            ),
            r is Err ==> *final(self) == *old(self) && *final(initiator) == *old(initiator)
                && *final(acceptor) == *old(acceptor) && *final(escrow) == *old(escrow),
    {
        if !matches!(self.status, DealStatus::Accepted) {
            return Err(DLUError::IncorrectState);
        }
        // Validate every required secret before anything moves.
        let initiator_matches = match &self.initiator_key {
            KeySlot::Issued(s) => *s == *k_initiator,
            _ => false,
        };
        let acceptor_matches = match &self.acceptor_key {
            KeySlot::Issued(s) => *s == *k_acceptor,
            _ => false,
        };
        let recipient_matches = if matches!(self.kind, EntityType::Shipment) {
            match (&self.recipient_key, k_recipient) {
                (KeySlot::Issued(s), Some(k)) => *s == *k,
                _ => false,
            }
        } else {
            true
        };
        if !(initiator_matches && acceptor_matches && recipient_matches) {
            return Err(DLUError::KeyMismatch);
        }
        // Defensive check: custody must cover the whole release.
        let release_initiator: u64 = match self.kind {
            EntityType::Offer => self.payment + self.insurance,
            EntityType::Request => self.insurance,
            EntityType::Shipment => 0,
        };
        let release_acceptor: u64 = match self.kind {
            EntityType::Offer => self.insurance,
            EntityType::Request => self.payment + self.insurance,
            EntityType::Shipment => self.payment + self.insurance,
        };
        if escrow.balance < release_initiator || escrow.balance - release_initiator
            < release_acceptor {
            return Err(DLUError::InsufficientFunds);
        }
        // Release the funds and spend every slot.
        escrow.release_funds(&mut initiator.wallet, release_initiator);
        escrow.release_funds(&mut acceptor.wallet, release_acceptor);
        self.initiator_key = KeySlot::Consumed;
        self.acceptor_key = KeySlot::Consumed;
        if matches!(self.kind, EntityType::Shipment) {
            self.recipient_key = KeySlot::Consumed;
        }
        self.status = DealStatus::Completed;
        if matches!(self.kind, EntityType::Shipment) {
            initiator.mark_shipment(true);
            acceptor.mark_shipment(true);
        } else {
            initiator.mark_deal(true);
            acceptor.mark_deal(true);
        }
        Ok(())
    }

    /// Fails an `Accepted` deal on the authority of the party that hands the
    /// goods over: its presented secret must still match.  The whole stake
    /// is forfeited to the penalty sink, every slot is cleared, and the
    /// counterparty's reputation is marked failed.
    pub fn fail(
        &mut self,
        presented: &String,
        marked: &mut User,
        escrow: &mut Escrow,
        penalty: &mut Wallet,
    ) -> (r: Result<(), DLUError>)
        requires
            old(self).wf(),
            old(self).custody_consistent(*old(escrow)),
            old(self).status is Accepted ==> old(self).failing_counterparty() == Some(
                old(marked).account_id,
            ),
            old(self).status is Accepted ==> old(penalty).balance + old(self).total_lock()
                <= u64::MAX,
            old(self).status is Accepted ==> old(marked).can_mark(old(self).kind is Shipment),
        ensures
            fail_post(
                *old(self),
                *final(self),
                presented@,
                *old(marked),
                *final(marked),
                *old(escrow),
                *final(escrow),
                *old(penalty),
                *final(penalty),
                r,
            ),
            final(self).wf(),
            final(self).custody_consistent(*final(escrow)),
            final(self).status == old(self).status || lifecycle_edge(
                old(self).status,
                final(self).status,
            ),
            r is Ok <==> old(self).status is Accepted && slot_matches(
                old(self).fail_authority_slot(),
                presented@,
            ),
            r is Err ==> *final(self) == *old(self) && *final(marked) == *old(marked)
                && *final(escrow) == *old(escrow) && *final(penalty) == *old(penalty),
    {
        if !matches!(self.status, DealStatus::Accepted) {
            return Err(DLUError::IncorrectState);
        }
        let authority_matches = match self.kind {
            EntityType::Request => match &self.acceptor_key {
                KeySlot::Issued(s) => *s == *presented,
                _ => false,
            },
            _ => match &self.initiator_key {
                KeySlot::Issued(s) => *s == *presented,
                _ => false,
            },
        };
        if !authority_matches {
            return Err(DLUError::KeyMismatch);
        }
        let forfeit: u64 = escrow.balance;
        escrow.transfer_to_penalty(penalty, forfeit);
        self.initiator_key = KeySlot::Consumed;
        self.acceptor_key = KeySlot::Consumed;
        if matches!(self.kind, EntityType::Shipment) {
            self.recipient_key = KeySlot::Consumed;
        }
        self.status = DealStatus::Failed;
        if matches!(self.kind, EntityType::Shipment) {
            marked.mark_shipment(false);
        } else {
            marked.mark_deal(false);
        }
        Ok(())
    }

    /// Expires an `Accepted` deal once the given current time has reached
    /// the scheduled datetime plus the grace window.  Each party is refunded
    /// exactly what it locked; no penalty is taken and no reputation moves.
    /// Before the window, or in any other state, the call is refused with
    /// `OperationNotAllowed` and changes nothing.
    pub fn expire_at(
        &mut self,
        now: i64,
        initiator: &mut User,
        acceptor: &mut User,
        escrow: &mut Escrow,
    ) -> (r: Result<(), DLUError>)
        requires
            old(self).wf(),
            old(self).custody_consistent(*old(escrow)),
            old(self).deadline + GRACE_WINDOW_SECONDS <= i64::MAX,
            old(self).status is Accepted ==> old(initiator).account_id == old(self).initiator,
            old(self).status is Accepted ==> old(self).acceptor == Some(
                old(acceptor).account_id,
            ),
            old(self).status is Accepted ==> old(initiator).wallet.balance + old(
                self,
            ).initiator_lock() <= u64::MAX,
            old(self).status is Accepted ==> old(acceptor).wallet.balance + old(
                self,
            ).acceptor_lock() <= u64::MAX,
        ensures
            expire_post(
                *old(self),
                *final(self),
                now,
                *old(initiator),
                *final(initiator),
                *old(acceptor),
                *final(acceptor),
                *old(escrow),
                *final(escrow),
                r,
            ),
            final(self).wf(),
            final(self).custody_consistent(*final(escrow)),
            final(self).status == old(self).status || lifecycle_edge(
                old(self).status,
                final(self).status,
            ),
            r is Ok <==> old(self).status is Accepted && now >= old(self).deadline
                + GRACE_WINDOW_SECONDS,
            r is Err ==> r == Err::<(), DLUError>(DLUError::OperationNotAllowed) && *final(self)
                == *old(self) && *final(initiator) == *old(initiator) && *final(acceptor) == *old(
                acceptor,
            ) && *final(escrow) == *old(escrow),
    {
        if now < self.deadline + GRACE_WINDOW_SECONDS {
            return Err(DLUError::OperationNotAllowed);
        }
        if !matches!(self.status, DealStatus::Accepted) {
            return Err(DLUError::OperationNotAllowed);
        }
        let refund_initiator: u64 = match self.kind {
            EntityType::Offer => self.insurance,
            EntityType::Request => self.payment + self.insurance,
            EntityType::Shipment => self.payment,
        };
        let refund_acceptor: u64 = match self.kind {
            EntityType::Offer => self.payment + self.insurance,
            EntityType::Request => self.insurance,
            EntityType::Shipment => self.insurance,
        };
        escrow.release_funds(&mut initiator.wallet, refund_initiator);
        escrow.release_funds(&mut acceptor.wallet, refund_acceptor);
        self.status = DealStatus::Expired;
        Ok(())
    }

    /// Cancels a `Listed` deal: only the initiator has staked anything yet,
    /// and that stake is refunded in full.  Refused with `IncorrectState`
    /// from any other state.
    pub fn cancel(&mut self, initiator: &mut User, escrow: &mut Escrow) -> (r: Result<
        (),
        DLUError,
    >)
        requires
            old(self).wf(),
            old(self).custody_consistent(*old(escrow)),
            old(self).status is Listed ==> old(initiator).account_id == old(self).initiator,
            old(self).status is Listed ==> old(initiator).wallet.balance + old(
                self,
            ).initiator_lock() <= u64::MAX,
        ensures
            cancel_post(
                *old(self),
                *final(self),
                *old(initiator),
                *final(initiator),
                *old(escrow),
                *final(escrow),
                r,
            ),
            final(self).wf(),
            final(self).custody_consistent(*final(escrow)),
            final(self).status == old(self).status || lifecycle_edge(
                old(self).status,
                final(self).status,
            ),
            r is Ok <==> old(self).status is Listed,
            r is Err ==> *final(self) == *old(self) && *final(initiator) == *old(initiator)
                && *final(escrow) == *old(escrow),
    {
        if !matches!(self.status, DealStatus::Listed) {
            return Err(DLUError::IncorrectState);
        }
        let refund: u64 = escrow.balance;
        escrow.release_funds(&mut initiator.wallet, refund);
        self.status = DealStatus::Canceled;
        Ok(())
    }
}

/// Custody-held value for a deal equals the value locked by its still-open
/// stakes, and is therefore zero at every terminal state: settlement,
/// failure, expiry and cancellation all empty the custody account.
pub proof fn lemma_custody_zero_at_terminal(d: Deal, e: Escrow)
    requires
        d.custody_consistent(e),
        is_terminal(d.status),
    ensures
        e.balance == 0,
{
}

/// A consumed confirmation-secret slot never matches any presented secret,
/// whatever is presented: once spent, a secret can never validate again.
pub proof fn lemma_consumed_never_matches(presented: Seq<char>)
    ensures
        !slot_matches(KeySlot::Consumed, presented),
{
}

/// `expire_at` succeeds at most once on a deal: after a successful expiry,
/// a further call — at any time, with any parties — is refused and changes
/// nothing.
pub proof fn lemma_expire_only_once(
    pre: Deal,
    post: Deal,
    now: i64,
    init_pre: User,
    init_post: User,
    acc_pre: User,
    acc_post: User,
    esc_pre: Escrow,
    esc_post: Escrow,
    r: Result<(), DLUError>,
)
    requires
        expire_post(pre, post, now, init_pre, init_post, acc_pre, acc_post, esc_pre, esc_post, r),
        r is Ok,
    ensures
        forall|
            post2: Deal,
            now2: i64,
            i1: User,
            i2: User,
            a1: User,
            a2: User,
            e1: Escrow,
            e2: Escrow,
            r2: Result<(), DLUError>,
        |
            expire_post(post, post2, now2, i1, i2, a1, a2, e1, e2, r2) ==> r2 == Err::<
                (),
                DLUError,
            >(DLUError::OperationNotAllowed),
{
}

} // verus!

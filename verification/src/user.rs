//! Participants and their reputation.

use vstd::prelude::*;

use crate::dlu_wallet::Wallet;

verus! {

/// The discrete reputation classification of a participant, derived from
/// the history of its deal and shipment outcomes.
#[derive(Clone, Copy, Debug, PartialEq, Eq, Structural)]
pub enum UserStatus {
    New,
    Credible,
    Reliable,
    Risky,
    Unreliable,
    Suspicious,
    Fraud,
}

/// A participant: identity, wallet, and rolling outcome counters with the
/// status those counters imply.
#[derive(Clone, Debug)]
pub struct User {
    pub username: String,
    /// The numeric id of the participant's account.
    pub account_id: u64,
    pub wallet: Wallet,
    pub status: UserStatus,
    pub total_deals: u32,
    pub successful_deals: u32,
    pub failed_deals: u32,
    pub total_shipments: u32,
    pub successful_shipments: u32,
    pub failed_shipments: u32,
}

/// The status that a history of `total` operations, `successful` of them
/// successful, classifies a participant into.
///
/// The rate thresholds are exact: a success rate of at least 9/10 is
/// `Reliable`, at least 7/10 `Risky`, at least 1/2 `Unreliable`, at least
/// 1/5 `Suspicious`, and anything lower `Fraud`.
pub open spec fn classify(total: int, successful: int) -> UserStatus {
    if total < 3 {
        UserStatus::New
    } else if total > 10 && successful == total {
        UserStatus::Credible
    } else if 10 * successful >= 9 * total {
        UserStatus::Reliable
    } else if 10 * successful >= 7 * total {
        UserStatus::Risky
    } else if 2 * successful >= total {
        UserStatus::Unreliable
    } else if 5 * successful >= total {
        UserStatus::Suspicious
    } else {
        UserStatus::Fraud
    }
}

impl User {
    /// The combined number of operations this participant has been party to.
    pub open spec fn spec_total_operations(self) -> int {
        self.total_deals + self.total_shipments
    }

    /// The combined number of successful operations.
    pub open spec fn spec_successful_operations(self) -> int {
        self.successful_deals + self.successful_shipments
    }

    /// The status that this participant's counters imply.
    pub open spec fn spec_status(self) -> UserStatus {
        classify(self.spec_total_operations(), self.spec_successful_operations())
    }

    /// True when one more outcome of the given kind can still be counted.
    pub open spec fn can_mark(self, shipment: bool) -> bool {
        if shipment {
            &&& self.total_shipments < u32::MAX
            &&& self.successful_shipments < u32::MAX
            &&& self.failed_shipments < u32::MAX
        } else {
            &&& self.total_deals < u32::MAX
            &&& self.successful_deals < u32::MAX
            &&& self.failed_deals < u32::MAX
        }
    }

    /// Creates a participant with no history.
    pub fn new(username: String, account_id: u64, wallet: Wallet) -> (r: User)
        ensures
            r == (User {
                username: username,
                account_id: account_id,
                wallet: wallet,
                status: UserStatus::New,
                total_deals: 0,
                successful_deals: 0,
                failed_deals: 0,
                total_shipments: 0,
                successful_shipments: 0,
                failed_shipments: 0,
            }),
    {
        User {
            username,
            account_id,
            wallet,
            status: UserStatus::New,
            total_deals: 0,
            successful_deals: 0,
            failed_deals: 0,
            total_shipments: 0,
            successful_shipments: 0,
            failed_shipments: 0,
        }
    }

    /// Counts one deal outcome and reclassifies the participant.
    pub fn mark_deal(&mut self, successful: bool)
        requires
            old(self).can_mark(false),
        ensures
            *final(self) == spec_marked(*old(self), false, successful),
    {
        self.total_deals = self.total_deals + 1;
        if successful {
            self.successful_deals = self.successful_deals + 1;
        } else {
            self.failed_deals = self.failed_deals + 1;
        }
        self.update_status();
    }

    /// Counts one shipment outcome and reclassifies the participant.
    pub fn mark_shipment(&mut self, successful: bool)
        requires
            old(self).can_mark(true),
        ensures
            *final(self) == spec_marked(*old(self), true, successful),
    {
        self.total_shipments = self.total_shipments + 1;
        if successful {
            self.successful_shipments = self.successful_shipments + 1;
        } else {
            self.failed_shipments = self.failed_shipments + 1;
        }
        self.update_status();
    }

    /// Recomputes the status from the counters as they stand.
    pub fn update_status(&mut self)
        ensures
            *final(self) == (User { status: old(self).spec_status(), ..*old(self) }),
    {
        let total_operations: u64 = (self.total_deals as u64) + (self.total_shipments as u64);
        let successful_operations: u64 = (self.successful_deals as u64) + (
        self.successful_shipments as u64);

        if total_operations < 3 {
            self.status = UserStatus::New;
        } else if total_operations > 10 && successful_operations == total_operations {
            self.status = UserStatus::Credible;
        } else if 10 * successful_operations >= 9 * total_operations {
            self.status = UserStatus::Reliable;
        } else if 10 * successful_operations >= 7 * total_operations {
            self.status = UserStatus::Risky;
        } else if 2 * successful_operations >= total_operations {
            self.status = UserStatus::Unreliable;
        } else if 5 * successful_operations >= total_operations {
            self.status = UserStatus::Suspicious;
        } else {
            self.status = UserStatus::Fraud;
        }
    }
}

/// The participant as it stands after one more outcome of the given kind is
/// counted and the status recomputed.
pub open spec fn spec_marked(u: User, shipment: bool, successful: bool) -> User {
    let counted = if shipment {
        User {
            total_shipments: (u.total_shipments + 1) as u32,
            successful_shipments: if successful {
                (u.successful_shipments + 1) as u32
            } else {
                u.successful_shipments
            },
            failed_shipments: if successful {
                u.failed_shipments
            } else {
                (u.failed_shipments + 1) as u32
            },
            ..u
        }
    } else {
        User {
            total_deals: (u.total_deals + 1) as u32,
            successful_deals: if successful {
                (u.successful_deals + 1) as u32
            } else {
                u.successful_deals
            },
            failed_deals: if successful { u.failed_deals } else { (u.failed_deals + 1) as u32 },
            ..u
        }
    };
    User { status: counted.spec_status(), ..counted }
}

} // verus!

//! The fund custodian: a custody account that holds value locked by a deal.

use vstd::prelude::*;

use crate::dlu_wallet::Wallet;
use crate::errors::DLUError;

verus! {

/// A custody account.  Value moved here belongs to no single party: it is
/// held under the engine's authority until a transition releases it, refunds
/// it, or forfeits it to the penalty sink.  Each deal is backed by a custody
/// account dedicated to it, named by the deal record's `escrow_id`.
#[derive(Clone, Debug)]
pub struct Escrow {
    /// The id under which deal records reference this account.
    pub id: u64,
    /// The value currently held in custody.
    pub balance: u64,
}

impl Escrow {
    /// Opens an empty custody account under the given id.
    pub fn new(id: u64) -> (r: Escrow)
        ensures
            r.id == id,
            r.balance == 0,
    {
        Escrow { id, balance: 0 }
    }

    /// Moves `amount` from the payer's wallet into custody.  All-or-nothing:
    /// on a shortfall the wallet and the custody balance are untouched.
    pub fn lock_funds(&mut self, payer: &mut Wallet, amount: u64) -> (r: Result<(), DLUError>)
        requires
            old(self).balance + amount <= u64::MAX,
        ensures
            r is Ok <==> old(payer).balance >= amount,
            r is Ok ==> *final(payer) == (Wallet {
                balance: (old(payer).balance - amount) as u64,
                ..*old(payer)
            }) && *final(self) == (Escrow {
                balance: (old(self).balance + amount) as u64,
                ..*old(self)
            }),
            r is Err ==> r == Err::<(), DLUError>(DLUError::InsufficientFunds)
                && *final(self) == *old(self)
                && *final(payer) == *old(payer),
    {
        if payer.balance < amount {
            return Err(DLUError::InsufficientFunds);
        }
        payer.balance = payer.balance - amount;
        self.balance = self.balance + amount;
        Ok(())
    }

    /// Moves `amount` from custody into the payee's wallet.  The caller must
    /// already have established that the custody balance covers the amount.
    pub fn release_funds(&mut self, payee: &mut Wallet, amount: u64)
        requires
            old(self).balance >= amount,
            old(payee).balance + amount <= u64::MAX,
        ensures
            *final(self) == (Escrow { balance: (old(self).balance - amount) as u64, ..*old(self) }),
            *final(payee) == (Wallet {
                balance: (old(payee).balance + amount) as u64,
                ..*old(payee)
            }),
    {
        self.balance = self.balance - amount;
        payee.balance = payee.balance + amount;
    }

    /// Forfeits `amount` from custody to the penalty sink.  Used only by the
    /// `fail` transitions.
    pub fn transfer_to_penalty(&mut self, penalty: &mut Wallet, amount: u64)
        requires
            old(self).balance >= amount,
            old(penalty).balance + amount <= u64::MAX,
        ensures
            *final(self) == (Escrow { balance: (old(self).balance - amount) as u64, ..*old(self) }),
            *final(penalty) == (Wallet {
                balance: (old(penalty).balance + amount) as u64,
                ..*old(penalty)
            }),
    {
        self.balance = self.balance - amount;
        penalty.balance = penalty.balance + amount;
    }
}

} // verus!

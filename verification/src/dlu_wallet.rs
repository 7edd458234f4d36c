//! A participant's spendable balance.

use vstd::prelude::*;

use crate::errors::DLUError;

verus! {

/// A wallet holding a participant's spendable value, addressed by the
/// numeric id of the account that owns it.
#[derive(Clone, Debug)]
pub struct Wallet {
    /// The account id of the owner.
    pub owner: u64,
    /// The current spendable balance.
    pub balance: u64,
}

impl Wallet {
    /// Opens an empty wallet for the given owner.
    pub fn new(owner: u64) -> (r: Wallet)
        ensures
            r.owner == owner,
            r.balance == 0,
    {
        Wallet { owner, balance: 0 }
    }

    /// Removes `amount` from the wallet, refusing a shortfall.
    pub fn deduct(&mut self, amount: u64) -> (r: Result<(), DLUError>)
        ensures
            r is Ok <==> old(self).balance >= amount,
            r is Ok ==> *final(self) == (Wallet {
                balance: (old(self).balance - amount) as u64,
                ..*old(self)
            }),
            r is Err ==> r == Err::<(), DLUError>(DLUError::InsufficientFunds)
                && *final(self) == *old(self),
    {
        if self.balance < amount {
            return Err(DLUError::InsufficientFunds);
        }
        self.balance = self.balance - amount;
        Ok(())
    }

    /// Moves `amount` from this wallet into `recipient`, refusing a
    /// shortfall; nothing moves on refusal.
    pub fn transfer(&mut self, recipient: &mut Wallet, amount: u64) -> (r: Result<(), DLUError>)
        requires
            old(recipient).balance + amount <= u64::MAX,
        ensures
            r is Ok <==> old(self).balance >= amount,
            r is Ok ==> *final(self) == (Wallet {
                balance: (old(self).balance - amount) as u64,
                ..*old(self)
            }) && *final(recipient) == (Wallet {
                balance: (old(recipient).balance + amount) as u64,
                ..*old(recipient)
            }),
            r is Err ==> r == Err::<(), DLUError>(DLUError::InsufficientFunds)
                && *final(self) == *old(self)
                && *final(recipient) == *old(recipient),
    {
        if self.balance < amount {
            return Err(DLUError::InsufficientFunds);
        }
        self.balance = self.balance - amount;
        recipient.balance = recipient.balance + amount;
        Ok(())
    }
}

} // verus!

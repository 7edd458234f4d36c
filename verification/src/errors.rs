//! The error kinds that the engine's operations report.

use vstd::prelude::*;

verus! {

/// Every way an operation of the engine can be refused.
///
/// A transition validates before it mutates, so whenever one of these is
/// returned the deal record, the wallets and the custody account are exactly
/// as they were before the call.
#[derive(Clone, Copy, Debug, PartialEq, Eq, Structural)]
pub enum DLUError {
    /// The command bytes did not name a known instruction.
    InvalidInstruction,
    /// The signer is not allowed to move the funds it named.
    NotAuthorized,
    /// A balance is below the amount that would have to be locked or moved.
    InsufficientFunds,
    /// No offer record exists under the derived address.
    OfferNotFound,
    /// No request record exists under the derived address.
    RequestNotFound,
    /// No shipment record exists under the derived address.
    ShipmentNotFound,
    /// A presented confirmation secret does not match its issued slot.
    KeyMismatch,
    /// A time gate has not been satisfied yet.
    OperationNotAllowed,
    /// The deal is not in the state the transition starts from.
    IncorrectState,
    /// No user record exists under the derived address.
    UserNotFound,
    /// The operation is not meaningful for this record.
    InvalidOperation,
    /// A referenced account was not supplied by the caller.
    AccountNotFound,
    /// A persisted record could not be read back.
    DeserializationFailed,
    /// A record could not be written out.
    SerializationFailed,
    /// No account address could be derived from the given id.
    AddressDerivationFailed,
    /// A fresh account could not be created.
    AccountCreationFailed,
    /// The grace window of a shipment has not elapsed.
    ShipmentNotExpired,
}

} // verus!

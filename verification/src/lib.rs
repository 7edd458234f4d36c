//! A trustless marketplace escrow engine.
//!
//! Three symmetric transaction kinds — an `Offer` posted by a seller, a
//! `Request` posted by a buyer, and a `Shipment` posted by a sender — share
//! one escrow-backed lifecycle: funds are taken into custody at listing and
//! acceptance, and are released only when every required counterparty
//! presents its matching one-time confirmation secret, or returned through
//! the timeout and cancellation paths, or forfeited to a penalty sink on
//! failure.  Outcomes feed per-participant reputation counters.

pub mod deal;
pub mod dlu_wallet;
pub mod errors;
pub mod escrow;
pub mod offer;
pub mod onetimekeys;
pub mod request;
pub mod shipment;
pub mod user;

mod clock;

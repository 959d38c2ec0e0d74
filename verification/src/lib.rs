//! A custodial payment relay for a single fungible asset.
//!
//! The library is the state-transition core of an on-chain escrow contract:
//! it decides, for every operation, whether the caller, the inputs and the
//! live balances permit the requested movement, and it models the effect of
//! the movement on the asset ledger. The pieces that only a host environment
//! can supply (persistent storage, capability checks, the real token
//! contract, event publication) stay outside; they hand this library plain
//! values and perform the actions it decides on.

use vstd::prelude::*;

pub mod asset;
pub mod laws;
pub mod relay;

pub use asset::Asset;
pub use relay::Config;
pub use relay::PaymentsContract;
pub use relay::TransferEvent;

verus! {

/// An opaque, globally unique account or contract reference.
///
/// The relay never looks inside an identity; it only compares identities for
/// equality (caller against source account, caller against administrator,
/// source against destination). A host adapter maps its own address type to
/// `Identity` values, one distinct number per distinct address.
#[derive(Clone, Copy, PartialEq, Eq, Structural, Debug)]
pub struct Identity {
    pub id: u64,
}

impl Identity {
    pub fn new(id: u64) -> (r: Identity)
        ensures
            r.id == id,
    {
        Identity { id }
    }
}

/// The failure taxonomy shared by every mutating operation.
///
/// Read-only operations never fail; they degrade to a safe default instead
/// (a zero balance, a false predicate).
#[derive(Clone, Copy, PartialEq, Eq, Structural, Debug)]
pub enum Error {
    /// A mutating operation ran before `initialize` established the
    /// configuration.
    NotInitialized,
    /// `initialize` ran a second time; configuration is write-once.
    AlreadyInitialized,
    /// The amount was not strictly positive, or a deposit fell below the
    /// configured minimum.
    InvalidAmount,
    /// A transfer named the same account as source and destination.
    SelfTransfer,
    /// The source account's live balance does not cover the amount.
    InsufficientFunds,
    /// The caller's authorization proof does not match the identity the
    /// operation demands (the source account for transfers, the configured
    /// administrator for deposits and withdrawals).
    Unauthorized,
}

} // verus!

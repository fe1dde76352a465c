//! Verified core of a position-token lifecycle engine.
//!
//! A position — a liquidity-provider's claim on a pool — is represented by a
//! single-supply token. This crate verifies the order-sensitive lifecycle of
//! that token (provision the mint, deliver the one unit, freeze/thaw, transfer,
//! burn and close) against a model of the external token ledger, and the
//! binding of reward-slot descriptors on the pool record.

use vstd::prelude::*;

pub mod initialize_reward;
pub mod ledger;
pub mod metadata;
pub mod rent;
pub mod token_2022;

verus! {

/// Failure taxonomy of the lifecycle engine. Every operation aborts on the
/// first failure; the host environment rolls back all touched accounts.
#[derive(Clone, Copy, Debug, PartialEq, Eq, Structural)]
pub enum LifecycleError {
    /// Rent-exempt funding is insufficient, or a balance computation overflows.
    AllocationError,
    /// The extension layout for the mint account could not be computed.
    ExtensionConflict,
    /// The external token ledger rejected an invocation.
    ExternalLedgerRejected,
    /// The candidate reward mint is not on the compatibility allow-list.
    UnsupportedMint,
    /// The reward-slot index is not below the pool's slot capacity.
    IndexOutOfRange,
    /// The target reward slot already holds a non-default mint.
    SlotAlreadyBound,
}

} // verus!

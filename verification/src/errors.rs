//! The error taxonomy of the contract's entry points and continuation
//! handlers.
//!
//! Every failure is detected before any state mutation and before any
//! external call is issued, so an error always leaves the contract state
//! untouched and the action list empty.
//!
//! Two kinds are deliberately absent. There is no not-ready rejection:
//! before bootstrap completes, ratio queries answer the derived default of
//! zero, and a swap on an unfetched side fails as an unknown ledger, exactly
//! as a missing cache entry does. And there is no busy rejection: no
//! one-orchestration-in-flight gate exists, the reentrancy hazard of reading
//! pre-commit caches is preserved and stated as a law instead. A repeated
//! initialization is refused by the host shell, which alone can see whether
//! durable state already exists.

use vstd::prelude::*;

verus! {

/// A failure of an entry point or of a continuation handler.
#[derive(Clone, Copy, Debug, PartialEq, Eq, Structural)]
pub enum AmmError {
    /// The identity handed to the call is neither configured ledger, or the
    /// ledger's descriptor has not been fetched yet.
    UnknownLedger,
    /// A liquidity deposit was attempted by an identity other than the
    /// configured owner.
    Unauthorized,
    /// A continuation handler was invoked by an identity other than the
    /// contract itself, so the call is not a genuine continuation of the
    /// contract's own prior external call.
    UnauthorizedCallback,
    /// The quoted counterparty post-transfer supply would reach or exceed the
    /// counterparty's current supply, so the amount owed would not be
    /// positive.
    InsufficientLiquidity,
    /// Supply or decimal arithmetic does not fit the 128-bit working width;
    /// the operation fails closed instead of wrapping.
    Overflow,
}

} // verus!

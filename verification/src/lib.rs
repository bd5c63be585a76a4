//! An automated market maker (AMM) over two external fungible-token ledgers.
//!
//! The crate holds the contract's verified core: the pricing engine that turns
//! the two cached token supplies into an exchange ratio and a swap quote, the
//! metadata bootstrap state machine that populates the cached token
//! descriptors, and the swap orchestration that drives a swap through its
//! chain of external transfers and continuations.
//!
//! Every external effect (a metadata query, a wallet provisioning call, a
//! balance transfer) is returned as an [`actions::Action`] value instead of
//! being performed: an unverified host shell performs the call and feeds its
//! completion back into the matching continuation handler. The handlers take
//! the call's origin and the contract's own identity as explicit arguments,
//! so every authorization decision is part of the verified state machine.

pub mod actions;
pub mod errors;
pub mod orchestration;
pub mod pricing;
pub mod state;

use vstd::prelude::*;

verus! {

/// The identity of an account: the contract's owner, the contract itself, or
/// one of the two external token ledgers.
pub type AccountId = String;

} // verus!

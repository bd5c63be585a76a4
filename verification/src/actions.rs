//! The external calls the contract issues, as data.
//!
//! The contract never performs an external call itself: an entry point or a
//! continuation handler returns the calls it wants issued as [`Action`]
//! values, and the unverified host shell performs them. An action may name a
//! continuation: the handler of this contract that the host must invoke,
//! with the recorded in-flight data, once the call completes. An action
//! without a continuation is fire-and-forget: its completion is never
//! awaited and its failure is observable only by external monitoring.

use vstd::prelude::*;

use crate::AccountId;
use crate::pricing::Side;

verus! {

/// One call into an external token ledger.
#[derive(Clone, Debug, PartialEq, Eq)]
pub enum ExternalCall {
    /// Query the ledger's descriptor (symbol, decimals, total supply).
    GetMetadata { ledger: AccountId },
    /// Register a custody wallet for this contract on the ledger, a one-time
    /// provisioning step.
    CreateWallet { ledger: AccountId, sender: AccountId, amount: u128 },
    /// Move `amount` smallest units from `sender` to `receiver` on the
    /// ledger; the ledger fails it atomically on insufficient balance.
    TransferFrom { ledger: AccountId, sender: AccountId, receiver: AccountId, amount: u128 },
}

/// The continuation of an external call: which handler of this contract the
/// host must invoke when the call completes, and the in-flight data to hand
/// it. The data is carried here explicitly because no other record of the
/// orchestration run exists between the call and its completion.
#[derive(Clone, Debug, PartialEq, Eq)]
pub enum Callback {
    /// Deliver a fetched descriptor to `Contract::on_get_metadata`.
    OnGetMetadata { contract_id: AccountId },
    /// After the debit leg of a swap: invoke `Contract::on_ft_deposit` to
    /// issue the credit leg.
    OnFtDeposit {
        sender_side: Side,
        from_balance: u128,
        to_balance: u128,
        contract_id: AccountId,
        receiver_id: AccountId,
        amount: u128,
    },
    /// After the final leg: invoke `Contract::on_update_balances` to commit
    /// the two post-transfer supplies.
    OnUpdateBalances { sender_side: Side, sender_post_balance: u128, receiver_post_balance: u128 },
}

/// An external call to issue, together with the continuation, if any, that
/// its completion must be delivered to.
#[derive(Clone, Debug, PartialEq, Eq)]
pub struct Action {
    pub call: ExternalCall,
    pub on_done: Option<Callback>,
}

} // verus!

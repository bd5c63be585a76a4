//! The swap orchestration: from one synchronous entry call through two
//! dependent external transfers and their continuations to the final commit,
//! and the owner-only liquidity deposit that shares the commit step.
//!
//! Each step is a transition function: it validates, computes, and returns
//! the next external call as an [`Action`] carrying the in-flight data its
//! continuation needs. Validation failures abort the step with no state
//! mutation and no action. The caches are read without any in-flight gate:
//! an entry step interleaved between another run's quote and commit is
//! priced from the pre-commit supplies. That reentrancy hazard is kept
//! deliberately and is stated as [`lemma_interleaved_swaps_same_basis`].
//!
//! If the debit leg of a swap fails, the host never invokes its
//! continuation, so no later leg is issued and the caches are untouched. If
//! the credit leg fails after the debit succeeded, the external debit stands
//! while no commit happens; the contract has no compensation path for that
//! divergence, and the host must report it to external monitoring.

use vstd::prelude::*;

use crate::AccountId;
use crate::actions::{Action, Callback, ExternalCall};
use crate::errors::AmmError;
use crate::pricing;
use crate::pricing::{lemma_pow10_pos, pow10, quote_result, ratio_value, whole_units, Quote, Side};
use crate::state::{Contract, FetchState, TokenDescriptor};
use vstd::arithmetic::div_mod::{
    lemma_div_multiples_vanish,
    lemma_fundamental_div_mod,
    lemma_mod_division_less_than_divisor,
};

verus! {

impl Contract {
    /// The pricing decision of a swap entry: which error the offer is
    /// rejected with, or the exact quote it receives. The caller identity
    /// must be a configured ledger whose descriptor has been fetched; the
    /// quote is then priced from the two cached supplies.
    pub open spec fn swap_checks(self, sender: Seq<char>, amount_whole: u128) -> Result<
        Quote,
        AmmError,
    > {
        match self.side_of(sender) {
            None => Err(AmmError::UnknownLedger),
            Some(s) => if self.fetch_of(s) != FetchState::Fetched {
                Err(AmmError::UnknownLedger)
            } else {
                quote_result(
                    self.token_a_meta.total_supply,
                    self.token_a_meta.decimals,
                    self.token_b_meta.total_supply,
                    self.token_b_meta.decimals,
                    s,
                    amount_whole,
                )
            },
        }
    }

    /// The liquidity-deposit decision: which error the deposit is rejected
    /// with, or the transfer amount, the deposited side's post-transfer
    /// supply, and the other side's unchanged supply.
    pub open spec fn deposit_checks(
        self,
        caller: Seq<char>,
        token: Seq<char>,
        amount_whole: u128,
    ) -> Result<(u128, u128, u128), AmmError> {
        if caller != self.owner_id@ {
            Err(AmmError::Unauthorized)
        } else {
            match self.side_of(token) {
                None => Err(AmmError::UnknownLedger),
                Some(s) => {
                    let d = pow10(self.meta(s).decimals as nat);
                    if d > u128::MAX {
                        Err(AmmError::Overflow)
                    } else if amount_whole * d > u128::MAX {
                        Err(AmmError::Overflow)
                    } else if amount_whole * d + self.meta(s).total_supply > u128::MAX {
                        Err(AmmError::Overflow)
                    } else {
                        Ok(
                            (
                                (amount_whole * d) as u128,
                                (amount_whole * d + self.meta(s).total_supply) as u128,
                                self.meta(s.spec_counter()).total_supply,
                            ),
                        )
                    }
                },
            }
        }
    }

    /// `self` with the two cached supplies overwritten by the committed
    /// post-transfer balances: the offering side receives the sender's, the
    /// counter side the receiver's.
    pub open spec fn committed(
        self,
        sender_side: Side,
        sender_post: u128,
        receiver_post: u128,
    ) -> Contract {
        let a_supply = if sender_side is A {
            sender_post
        } else {
            receiver_post
        };
        let b_supply = if sender_side is A {
            receiver_post
        } else {
            sender_post
        };
        Contract {
            token_a_meta: TokenDescriptor { total_supply: a_supply, ..self.token_a_meta },
            token_b_meta: TokenDescriptor { total_supply: b_supply, ..self.token_b_meta },
            ..self
        }
    }

    /// The swap entry point. The caller's identity is the offering ledger:
    /// it must be one of the two configured sides, with its descriptor
    /// fetched, or the call fails with `UnknownLedger`. A rejected offer
    /// issues no external call and, since the entry step never writes the
    /// caches, mutates no state. An accepted offer returns the debit leg:
    /// transfer the offered smallest units from the caller into the
    /// contract's custody on the caller's own ledger, then continue in
    /// [`Contract::on_ft_deposit`] with the quoted in-flight data.
    pub fn deposit_contract(
        &self,
        sender_id: AccountId,
        current_id: AccountId,
        amount: u128,
    ) -> (r: Result<Action, AmmError>)
        ensures
            r is Ok <==> self.swap_checks(sender_id@, amount) is Ok,
            r matches Err(e) ==> (self.swap_checks(sender_id@, amount) matches Err(expected)
                && e == expected),
            r matches Ok(action) ==> ({
                let q = self.swap_checks(sender_id@, amount).unwrap();
                let s = self.side_of(sender_id@).unwrap();
                &&& (action.call matches ExternalCall::TransferFrom {
                    ledger,
                    sender,
                    receiver,
                    amount: amt,
                } && ledger@ == sender_id@ && sender@ == sender_id@ && receiver@ == current_id@
                    && amt == q.offered)
                &&& (action.on_done matches Some(Callback::OnFtDeposit {
                    sender_side,
                    from_balance,
                    to_balance,
                    contract_id,
                    receiver_id,
                    amount: owed,
                }) && sender_side == s && from_balance == q.sender_post_supply && to_balance
                    == q.receiver_post_supply && contract_id@ == self.ledger_of(
                    s.spec_counter(),
                )@ && receiver_id@ == sender_id@ && owed == q.counter_amount)
            }),
    {
        let side = if self.token_a == sender_id {
            Side::A
        } else if self.token_b == sender_id {
            Side::B
        } else {
            return Err(AmmError::UnknownLedger);
        };
        let fetch = match side {
            Side::A => self.token_a_fetch,
            Side::B => self.token_b_fetch,
        };
        if !(fetch == FetchState::Fetched) {
            return Err(AmmError::UnknownLedger);
        }
        let q = match pricing::quote(
            self.token_a_meta.total_supply,
            self.token_a_meta.decimals,
            self.token_b_meta.total_supply,
            self.token_b_meta.decimals,
            side,
            amount,
        ) {
            Ok(q) => q,
            Err(e) => { return Err(e) },
        };
        let counter_ledger = match side {
            Side::A => self.token_b.clone(),
            Side::B => self.token_a.clone(),
        };
        Ok(
            Action {
                call: ExternalCall::TransferFrom {
                    ledger: sender_id.clone(),
                    sender: sender_id.clone(),
                    receiver: current_id,
                    amount: q.offered,
                },
                on_done: Some(
                    Callback::OnFtDeposit {
                        sender_side: side,
                        from_balance: q.sender_post_supply,
                        to_balance: q.receiver_post_supply,
                        contract_id: counter_ledger,
                        receiver_id: sender_id,
                        amount: q.counter_amount,
                    },
                ),
            },
        )
    }

    /// Continuation of a swap's debit leg. Only the contract itself may
    /// deliver it; any other origin fails with `UnauthorizedCallback`. It
    /// mutates nothing either way: it only issues the credit leg, a transfer
    /// of the owed amount from the contract's custody on the counter-ledger
    /// to the beneficiary, continuing in [`Contract::on_update_balances`]
    /// with the two post-transfer supplies.
    pub fn on_ft_deposit(
        &mut self,
        predecessor_id: &AccountId,
        current_id: &AccountId,
        sender_side: Side,
        from_balance: u128,
        to_balance: u128,
        contract_id: AccountId,
        receiver_id: AccountId,
        amount: u128,
    ) -> (r: Result<Action, AmmError>)
        ensures
            *final(self) == *old(self),
            predecessor_id@ != current_id@ ==> (r matches Err(e) && e
                == AmmError::UnauthorizedCallback),
            predecessor_id@ == current_id@ ==> (r matches Ok(action) && (
            action.call matches ExternalCall::TransferFrom { ledger, sender, receiver, amount: amt }
                && ledger@ == contract_id@ && sender@ == current_id@ && receiver@ == receiver_id@
                && amt == amount) && action.on_done == Some(
                Callback::OnUpdateBalances {
                    sender_side,
                    sender_post_balance: from_balance,
                    receiver_post_balance: to_balance,
                },
            )),
    {
        if !(*predecessor_id == *current_id) {
            return Err(AmmError::UnauthorizedCallback);
        }
        Ok(
            Action {
                call: ExternalCall::TransferFrom {
                    ledger: contract_id,
                    sender: current_id.clone(),
                    receiver: receiver_id,
                    amount,
                },
                on_done: Some(
                    Callback::OnUpdateBalances {
                        sender_side,
                        sender_post_balance: from_balance,
                        receiver_post_balance: to_balance,
                    },
                ),
            },
        )
    }

    /// Continuation of the final leg: the commit. Only the contract itself
    /// may deliver it; any other origin fails with `UnauthorizedCallback`
    /// and mutates nothing. The commit overwrites the two cached supplies
    /// with the carried post-transfer balances, placed on their sides by the
    /// recorded offering side, and recomputes the ratio from them; if that
    /// recomputation overflows, the whole commit is rejected and the caches
    /// are untouched.
    pub fn on_update_balances(
        &mut self,
        predecessor_id: &AccountId,
        current_id: &AccountId,
        sender_side: Side,
        sender_post_balance: u128,
        receiver_post_balance: u128,
    ) -> (r: Result<(), AmmError>)
        ensures
            predecessor_id@ != current_id@ ==> r == Err::<(), AmmError>(
                AmmError::UnauthorizedCallback,
            ) && *final(self) == *old(self),
            predecessor_id@ == current_id@ ==> ({
                let updated = old(self).committed(
                    sender_side,
                    sender_post_balance,
                    receiver_post_balance,
                );
                if updated.decimals_fit() && updated.derived_ratio() <= u128::MAX {
                    &&& r == Ok::<(), AmmError>(())
                    &&& *final(self) == updated.with_ratio(updated.derived_ratio() as u128)
                    &&& final(self).wf()
                } else {
                    &&& r == Err::<(), AmmError>(AmmError::Overflow)
                    &&& *final(self) == *old(self)
                }
            }),
    {
        if !(*predecessor_id == *current_id) {
            return Err(AmmError::UnauthorizedCallback);
        }
        let (a_supply, b_supply) = match sender_side {
            Side::A => (sender_post_balance, receiver_post_balance),
            Side::B => (receiver_post_balance, sender_post_balance),
        };
        let v = match pricing::ratio(
            a_supply,
            self.token_a_meta.decimals,
            b_supply,
            self.token_b_meta.decimals,
        ) {
            Ok(v) => v,
            Err(e) => { return Err(e) },
        };
        self.token_a_meta.total_supply = a_supply;
        self.token_b_meta.total_supply = b_supply;
        self.tokens_ratio = v;
        Ok(())
    }

    /// The owner-only liquidity deposit. Any caller but the configured owner
    /// fails with `Unauthorized`; an unknown ledger fails with
    /// `UnknownLedger`; either way no external call is issued and, since the
    /// entry step never writes the caches, no state changes. Otherwise the
    /// deposit is converted to the side's smallest units and added to its
    /// cached supply, and the returned transfer moves it from the owner into
    /// the contract's custody, continuing in
    /// [`Contract::on_update_balances`] with the deposited side's new supply
    /// and the other side's unchanged one.
    pub fn deposit_token_contract(
        &mut self,
        predecessor_id: &AccountId,
        current_id: &AccountId,
        token_contract_id: AccountId,
        amount: u128,
    ) -> (r: Result<Action, AmmError>)
        ensures
            *final(self) == *old(self),
            r is Ok <==> old(self).deposit_checks(predecessor_id@, token_contract_id@, amount)
                is Ok,
            r matches Err(e) ==> (old(self).deposit_checks(
                predecessor_id@,
                token_contract_id@,
                amount,
            ) matches Err(expected) && e == expected),
            r matches Ok(action) ==> ({
                let plan = old(self).deposit_checks(
                    predecessor_id@,
                    token_contract_id@,
                    amount,
                ).unwrap();
                let s = old(self).side_of(token_contract_id@).unwrap();
                &&& (action.call matches ExternalCall::TransferFrom {
                    ledger,
                    sender,
                    receiver,
                    amount: amt,
                } && ledger@ == token_contract_id@ && sender@ == old(self).owner_id@ && receiver@
                    == current_id@ && amt == plan.0)
                &&& action.on_done == Some(
                    Callback::OnUpdateBalances {
                        sender_side: s,
                        sender_post_balance: plan.1,
                        receiver_post_balance: plan.2,
                    },
                )
            }),
    {
        if !(*predecessor_id == self.owner_id) {
            return Err(AmmError::Unauthorized);
        }
        let side = if self.token_a == token_contract_id {
            Side::A
        } else if self.token_b == token_contract_id {
            Side::B
        } else {
            return Err(AmmError::UnknownLedger);
        };
        let (dec, supply, opposite) = match side {
            Side::A => (
                self.token_a_meta.decimals,
                self.token_a_meta.total_supply,
                self.token_b_meta.total_supply,
            ),
            Side::B => (
                self.token_b_meta.decimals,
                self.token_b_meta.total_supply,
                self.token_a_meta.total_supply,
            ),
        };
        let d = match pricing::pow10_checked(dec) {
            Some(d) => d,
            None => { return Err(AmmError::Overflow) },
        };
        let transfer_amount = match amount.checked_mul(d) {
            Some(v) => v,
            None => { return Err(AmmError::Overflow) },
        };
        let post = match transfer_amount.checked_add(supply) {
            Some(v) => v,
            None => { return Err(AmmError::Overflow) },
        };
        Ok(
            Action {
                call: ExternalCall::TransferFrom {
                    ledger: token_contract_id,
                    sender: self.owner_id.clone(),
                    receiver: current_id.clone(),
                    amount: transfer_amount,
                },
                on_done: Some(
                    Callback::OnUpdateBalances {
                        sender_side: side,
                        sender_post_balance: post,
                        receiver_post_balance: opposite,
                    },
                ),
            },
        )
    }

    /// Completion acknowledgment of a fire-and-forget transfer. Nothing is
    /// awaited on it and no state depends on it, so it reads and changes
    /// nothing.
    pub fn on_fn_transfer(&self) {
    }
}

/// Law: a successful commit installs exactly the ratio derived from the
/// committed supplies — the offering side's post-balance truncated by its
/// decimals times the counter side's post-balance truncated by its own —
/// and the pre-commit ratio has no influence on it.
pub proof fn lemma_commit_refreshes_ratio(
    st: Contract,
    stale: u128,
    sender_side: Side,
    sender_post: u128,
    receiver_post: u128,
)
    ensures
        ({
            let c = st.committed(sender_side, sender_post, receiver_post);
            let a_supply = if sender_side is A {
                sender_post
            } else {
                receiver_post
            };
            let b_supply = if sender_side is A {
                receiver_post
            } else {
                sender_post
            };
            c.derived_ratio() == ratio_value(
                a_supply as nat,
                st.token_a_meta.decimals as nat,
                b_supply as nat,
                st.token_b_meta.decimals as nat,
            )
        }),
        ({
            let c = st.committed(sender_side, sender_post, receiver_post);
            c.derived_ratio() == whole_units(
                sender_post as nat,
                st.meta(sender_side).decimals as nat,
            ) * whole_units(
                receiver_post as nat,
                st.meta(sender_side.spec_counter()).decimals as nat,
            )
        }),
        st.with_ratio(stale).committed(sender_side, sender_post, receiver_post).derived_ratio()
            == st.committed(sender_side, sender_post, receiver_post).derived_ratio(),
{
    let ds = st.meta(sender_side).decimals as nat;
    let dr = st.meta(sender_side.spec_counter()).decimals as nat;
    assert(whole_units(receiver_post as nat, dr) * whole_units(sender_post as nat, ds)
        == whole_units(sender_post as nat, ds) * whole_units(receiver_post as nat, dr))
        by (nonlinear_arith);
}

/// Law: committing the post-amounts a quote returned leaves the cached
/// ratio recomputed from the new supplies, never the stale pre-commit one.
/// The recomputation can never overflow: truncation only shrinks the
/// product, so the committed ratio never exceeds the quoted one.
pub proof fn lemma_quote_commit_refreshes_ratio(st: Contract, sender: Seq<char>, amount: u128)
    requires
        st.wf(),
        st.swap_checks(sender, amount) is Ok,
    ensures
        ({
            let q = st.swap_checks(sender, amount).unwrap();
            let s = st.side_of(sender).unwrap();
            let c = st.committed(s, q.sender_post_supply, q.receiver_post_supply);
            &&& c.decimals_fit()
            &&& c.derived_ratio() <= q.ratio
            &&& c.with_ratio(c.derived_ratio() as u128).wf()
            &&& c.with_ratio(c.derived_ratio() as u128).tokens_ratio == c.derived_ratio()
        }),
{
    let q = st.swap_checks(sender, amount).unwrap();
    let s = st.side_of(sender).unwrap();
    let c = st.committed(s, q.sender_post_supply, q.receiver_post_supply);
    let ds = st.meta(s).decimals as nat;
    let dr = st.meta(s.spec_counter()).decimals as nat;
    let ratio = st.derived_ratio();
    let sender_post = q.sender_post_supply as nat;
    let spw = sender_post / pow10(ds);
    lemma_pow10_pos(ds);
    lemma_pow10_pos(dr);
    assert(q.ratio == ratio);
    assert(spw > 0);
    assert(q.receiver_post_supply == (ratio / spw) * pow10(dr));
    // The counter side's committed whole units are exactly ratio / spw:
    // the quote built that supply as a whole multiple of 10^dr.
    lemma_div_multiples_vanish((ratio / spw) as int, pow10(dr) as int);
    assert((ratio / spw) * pow10(dr) == pow10(dr) * (ratio / spw)) by (nonlinear_arith);
    assert(whole_units(q.receiver_post_supply as nat, dr) == ratio / spw);
    // Truncation only shrinks: spw * (ratio / spw) stays within ratio.
    lemma_fundamental_div_mod(ratio as int, spw as int);
    lemma_mod_division_less_than_divisor(ratio as int, spw as int);
    assert((spw * (ratio / spw)) as int <= ratio as int);
    assert(whole_units(sender_post, ds) == spw);
    match s {
        Side::A => {
            assert(c.derived_ratio() == spw * (ratio / spw));
        },
        Side::B => {
            assert(c.derived_ratio() == (ratio / spw) * spw);
            assert((ratio / spw) * spw == spw * (ratio / spw));
        },
    }
}

/// Law of the preserved reentrancy hazard: the swap entry step reads nothing
/// but the cached state and writes none of it, so two swap entries
/// interleaved between another run's quote and commit are both priced from
/// the same pre-commit supplies: each accepted quote carries the ratio
/// cached in that shared state, and equal offers receive equal quotes.
pub proof fn lemma_interleaved_swaps_same_basis(
    st: Contract,
    sender1: Seq<char>,
    amount1: u128,
    sender2: Seq<char>,
    amount2: u128,
)
    requires
        st.wf(),
    ensures
        st.swap_checks(sender1, amount1) matches Ok(q) ==> q.ratio == st.tokens_ratio,
        st.swap_checks(sender2, amount2) matches Ok(q) ==> q.ratio == st.tokens_ratio,
        sender1 == sender2 && amount1 == amount2 ==> st.swap_checks(sender1, amount1)
            == st.swap_checks(sender2, amount2),
{
}

} // verus!

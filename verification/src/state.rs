//! The durable contract state and the metadata bootstrap state machine.
//!
//! The state holds the owner identity, the two immutable ledger identities,
//! one cached [`TokenDescriptor`] per ledger side together with its fetch
//! state, and the cached exchange ratio. The ratio is derived, never set on
//! its own: every mutation recomputes it from the two cached supplies, so a
//! well-formed state always satisfies [`Contract::wf`].
//!
//! Bootstrap runs one fetch state machine per side, `Unfetched ->
//! AwaitingResponse -> Fetched`; the two sides are independent and their
//! responses may arrive in either order. Until a side is `Fetched` its
//! descriptor keeps the zero default, so ratio queries answer zero rather
//! than being rejected, and a swap offered on that side fails with
//! `UnknownLedger` because its descriptor is missing.
//!
//! The identity-keyed descriptor cache is the pair of side slots itself:
//! only the two configured identities ever hold a descriptor, so the
//! identity-agnostic lookups ([`Contract::token_info_by_id`] and the side
//! resolution of the orchestrator) key into the slots by comparing against
//! the two immutable ledger identities.

use vstd::prelude::*;

use crate::AccountId;
use crate::actions::{Action, Callback, ExternalCall};
use crate::errors::AmmError;
use crate::pricing;
use crate::pricing::{pow10, ratio_value, whole_units, Side};

verus! {

/// The cached snapshot of one external ledger: its symbol, its decimal
/// precision and its total supply as last observed. The decimal precision of
/// a ledger never changes between fetches; the supply does.
#[derive(Debug)]
pub struct TokenDescriptor {
    pub symbol: String,
    pub decimals: u8,
    pub total_supply: u128,
}

impl Default for TokenDescriptor {
    /// The zero descriptor a side holds before its first fetch.
    fn default() -> (d: Self)
        ensures
            d.symbol@ == Seq::<char>::empty(),
            d.decimals == 0,
            d.total_supply == 0,
    {
        TokenDescriptor { symbol: String::new(), decimals: 0, total_supply: 0 }
    }
}

/// The bootstrap progress of one ledger side. `Fetched` is absorbing: a
/// refresh request leaves a fetched descriptor valid while the new response
/// is in flight.
#[derive(Clone, Copy, Debug, PartialEq, Eq, Structural)]
pub enum FetchState {
    Unfetched,
    AwaitingResponse,
    Fetched,
}

/// The public snapshot of one cached descriptor: symbol and precision.
#[derive(Debug)]
pub struct TokenContractInfo {
    pub ticker: String,
    pub decimals: u8,
}

/// The public snapshot of the whole pool: both descriptors and the ratio.
#[derive(Debug)]
pub struct AmmContractInfo {
    pub token_a: TokenContractInfo,
    pub token_b: TokenContractInfo,
    pub ratio: u128,
}

/// The durable state of the AMM contract.
pub struct Contract {
    pub owner_id: AccountId,
    pub token_a: AccountId,
    pub token_a_meta: TokenDescriptor,
    pub token_a_fetch: FetchState,
    pub token_b: AccountId,
    pub token_b_meta: TokenDescriptor,
    pub token_b_fetch: FetchState,
    pub tokens_ratio: u128,
}

impl Contract {
    /// The side a ledger identity is configured on, if any. When both sides
    /// share one identity, side A answers, as the lookup order does in the
    /// executable code.
    pub open spec fn side_of(self, id: Seq<char>) -> Option<Side> {
        if id == self.token_a@ {
            Some(Side::A)
        } else if id == self.token_b@ {
            Some(Side::B)
        } else {
            None
        }
    }

    /// The cached descriptor of a side.
    pub open spec fn meta(self, s: Side) -> TokenDescriptor {
        match s {
            Side::A => self.token_a_meta,
            Side::B => self.token_b_meta,
        }
    }

    /// The fetch state of a side.
    pub open spec fn fetch_of(self, s: Side) -> FetchState {
        match s {
            Side::A => self.token_a_fetch,
            Side::B => self.token_b_fetch,
        }
    }

    /// The ledger identity configured on a side.
    pub open spec fn ledger_of(self, s: Side) -> AccountId {
        match s {
            Side::A => self.token_a,
            Side::B => self.token_b,
        }
    }

    /// Both cached decimal precisions stay within the 128-bit working width.
    pub open spec fn decimals_fit(self) -> bool {
        &&& pow10(self.token_a_meta.decimals as nat) <= u128::MAX
        &&& pow10(self.token_b_meta.decimals as nat) <= u128::MAX
    }

    /// The exchange ratio derived from the two cached supplies.
    pub open spec fn derived_ratio(self) -> nat {
        ratio_value(
            self.token_a_meta.total_supply as nat,
            self.token_a_meta.decimals as nat,
            self.token_b_meta.total_supply as nat,
            self.token_b_meta.decimals as nat,
        )
    }

    /// Well-formedness: the cached ratio is exactly the one derived from the
    /// two cached supplies, and all derived values fit the working width.
    /// Constructors establish it and every mutation preserves it, so the
    /// cached ratio is never stale.
    pub open spec fn wf(self) -> bool {
        &&& self.decimals_fit()
        &&& self.derived_ratio() <= u128::MAX
        &&& self.tokens_ratio == self.derived_ratio()
    }

    /// `self` with one side's descriptor replaced and that side marked
    /// fetched.
    pub open spec fn with_meta(self, s: Side, d: TokenDescriptor) -> Contract {
        match s {
            Side::A => Contract { token_a_meta: d, token_a_fetch: FetchState::Fetched, ..self },
            Side::B => Contract { token_b_meta: d, token_b_fetch: FetchState::Fetched, ..self },
        }
    }

    /// `self` with the cached ratio replaced.
    pub open spec fn with_ratio(self, v: u128) -> Contract {
        Contract { tokens_ratio: v, ..self }
    }

    /// The descriptor a metadata response leaves on a side: the delivered
    /// one, except that a side already fetched keeps its cached decimal
    /// precision — the precision of a ledger is immutable once observed,
    /// only symbol and supply refresh.
    pub open spec fn merged_meta(self, s: Side, d: TokenDescriptor) -> TokenDescriptor {
        if self.fetch_of(s) == FetchState::Fetched {
            TokenDescriptor { decimals: self.meta(s).decimals, ..d }
        } else {
            d
        }
    }

    /// A request for a side's metadata moves `Unfetched` to
    /// `AwaitingResponse` and leaves the other states alone.
    pub open spec fn requested(f: FetchState) -> FetchState {
        match f {
            FetchState::Unfetched => FetchState::AwaitingResponse,
            _ => f,
        }
    }

    /// One-time initializer of the contract. Returns the fresh state
    /// together with the bootstrap actions to issue: one metadata query per
    /// side, whose responses are delivered to [`Contract::on_get_metadata`],
    /// and one fire-and-forget custody wallet registration per side, which
    /// passes along the cached, still zero, supply of that side. The host
    /// shell must invoke this once only, rejecting a repeated
    /// initialization itself, since only the host can see whether durable
    /// state already exists.
    pub fn new(
        owner_id: AccountId,
        token_a_contract_id: AccountId,
        token_b_contract_id: AccountId,
    ) -> (r: (Contract, Vec<Action>))
        ensures
            r.0.owner_id@ == owner_id@,
            r.0.token_a@ == token_a_contract_id@,
            r.0.token_b@ == token_b_contract_id@,
            r.0.token_a_meta.total_supply == 0 && r.0.token_a_meta.decimals == 0,
            r.0.token_b_meta.total_supply == 0 && r.0.token_b_meta.decimals == 0,
            r.0.token_a_fetch == FetchState::AwaitingResponse,
            r.0.token_b_fetch == FetchState::AwaitingResponse,
            r.0.tokens_ratio == 0,
            r.0.wf(),
            r.1@.len() == 4,
            r.1@[0] == (Action {
                call: ExternalCall::GetMetadata { ledger: token_a_contract_id },
                on_done: Some(Callback::OnGetMetadata { contract_id: token_a_contract_id }),
            }),
            r.1@[1] == (Action {
                call: ExternalCall::GetMetadata { ledger: token_b_contract_id },
                on_done: Some(Callback::OnGetMetadata { contract_id: token_b_contract_id }),
            }),
            r.1@[2] == (Action {
                call: ExternalCall::CreateWallet {
                    ledger: token_a_contract_id,
                    sender: owner_id,
                    amount: 0,
                },
                on_done: None,
            }),
            r.1@[3] == (Action {
                call: ExternalCall::CreateWallet {
                    ledger: token_b_contract_id,
                    sender: owner_id,
                    amount: 0,
                },
                on_done: None,
            }),
    {
        let contract = Contract {
            owner_id: owner_id.clone(),
            token_a: token_a_contract_id.clone(),
            token_a_meta: TokenDescriptor::default(),
            token_a_fetch: FetchState::AwaitingResponse,
            token_b: token_b_contract_id.clone(),
            token_b_meta: TokenDescriptor::default(),
            token_b_fetch: FetchState::AwaitingResponse,
            tokens_ratio: 0,
        };
        let mut actions: Vec<Action> = Vec::new();
        actions.push(
            Action {
                call: ExternalCall::GetMetadata { ledger: token_a_contract_id.clone() },
                on_done: Some(
                    Callback::OnGetMetadata { contract_id: token_a_contract_id.clone() },
                ),
            },
        );
        actions.push(
            Action {
                call: ExternalCall::GetMetadata { ledger: token_b_contract_id.clone() },
                on_done: Some(
                    Callback::OnGetMetadata { contract_id: token_b_contract_id.clone() },
                ),
            },
        );
        actions.push(
            Action {
                call: ExternalCall::CreateWallet {
                    ledger: token_a_contract_id,
                    sender: owner_id.clone(),
                    amount: contract.token_a_meta.total_supply,
                },
                on_done: None,
            },
        );
        actions.push(
            Action {
                call: ExternalCall::CreateWallet {
                    ledger: token_b_contract_id,
                    sender: owner_id,
                    amount: contract.token_b_meta.total_supply,
                },
                on_done: None,
            },
        );
        proof {
            assert(pow10(0) == 1);
            assert(whole_units(0, 0) == 0);
            assert(contract.derived_ratio() == 0);
        }
        (contract, actions)
    }

    /// Requests a fresh descriptor fetch for both sides, on demand. Returns
    /// the two metadata queries to issue; the state only records that a
    /// response is now awaited on any side that had never been fetched.
    pub fn internal_query_external_metadata(&mut self) -> (r: Vec<Action>)
        ensures
            *final(self) == (Contract {
                token_a_fetch: Self::requested(old(self).token_a_fetch),
                token_b_fetch: Self::requested(old(self).token_b_fetch),
                ..*old(self)
            }),
            r@.len() == 2,
            r@[0] == (Action {
                call: ExternalCall::GetMetadata { ledger: old(self).token_a },
                on_done: Some(Callback::OnGetMetadata { contract_id: old(self).token_a }),
            }),
            r@[1] == (Action {
                call: ExternalCall::GetMetadata { ledger: old(self).token_b },
                on_done: Some(Callback::OnGetMetadata { contract_id: old(self).token_b }),
            }),
    {
        let mut actions: Vec<Action> = Vec::new();
        actions.push(
            Action {
                call: ExternalCall::GetMetadata { ledger: self.token_a.clone() },
                on_done: Some(Callback::OnGetMetadata { contract_id: self.token_a.clone() }),
            },
        );
        actions.push(
            Action {
                call: ExternalCall::GetMetadata { ledger: self.token_b.clone() },
                on_done: Some(Callback::OnGetMetadata { contract_id: self.token_b.clone() }),
            },
        );
        if matches!(self.token_a_fetch, FetchState::Unfetched) {
            self.token_a_fetch = FetchState::AwaitingResponse;
        }
        if matches!(self.token_b_fetch, FetchState::Unfetched) {
            self.token_b_fetch = FetchState::AwaitingResponse;
        }
        actions
    }

    /// Continuation of a metadata query: the sole mutator of a cached
    /// descriptor outside an orchestration commit. Only the contract itself
    /// may deliver it; the queried ledger must be one of the two configured
    /// sides. The side takes the delivered descriptor — except that a side
    /// already fetched keeps its cached decimal precision, which never
    /// changes after the first fetch — becomes `Fetched`, and the ratio is
    /// recomputed from the now-cached supplies; if that recomputation
    /// overflows, the whole update is rejected and the state is untouched.
    pub fn on_get_metadata(
        &mut self,
        predecessor_id: &AccountId,
        current_id: &AccountId,
        contract_id: AccountId,
        metadata: TokenDescriptor,
    ) -> (r: Result<(), AmmError>)
        ensures
            predecessor_id@ != current_id@ ==> r == Err::<(), AmmError>(
                AmmError::UnauthorizedCallback,
            ) && *final(self) == *old(self),
            predecessor_id@ == current_id@ && old(self).side_of(contract_id@) is None ==> r
                == Err::<(), AmmError>(AmmError::UnknownLedger) && *final(self) == *old(self),
            predecessor_id@ == current_id@ && old(self).side_of(contract_id@) is Some ==> ({
                let s = old(self).side_of(contract_id@).unwrap();
                let updated = old(self).with_meta(s, old(self).merged_meta(s, metadata));
                if updated.decimals_fit() && updated.derived_ratio() <= u128::MAX {
                    &&& r == Ok::<(), AmmError>(())
                    &&& *final(self) == updated.with_ratio(updated.derived_ratio() as u128)
                    &&& final(self).wf()
                } else {
                    &&& r == Err::<(), AmmError>(AmmError::Overflow)
                    &&& *final(self) == *old(self)
                }
            }),
    {
        if !(*predecessor_id == *current_id) {
            return Err(AmmError::UnauthorizedCallback);
        }
        let side = if self.token_a == contract_id {
            Side::A
        } else if self.token_b == contract_id {
            Side::B
        } else {
            return Err(AmmError::UnknownLedger);
        };
        // The decimal precision of a ledger never changes after its first
        // fetch: a refetched side keeps the cached precision and takes only
        // the delivered symbol and supply.
        let dec = match side {
            Side::A => if self.token_a_fetch == FetchState::Fetched {
                self.token_a_meta.decimals
            } else {
                metadata.decimals
            },
            Side::B => if self.token_b_fetch == FetchState::Fetched {
                self.token_b_meta.decimals
            } else {
                metadata.decimals
            },
        };
        let cached = TokenDescriptor {
            symbol: metadata.symbol,
            decimals: dec,
            total_supply: metadata.total_supply,
        };
        let (na_supply, na_dec, nb_supply, nb_dec) = match side {
            Side::A => (
                cached.total_supply,
                cached.decimals,
                self.token_b_meta.total_supply,
                self.token_b_meta.decimals,
            ),
            Side::B => (
                self.token_a_meta.total_supply,
                self.token_a_meta.decimals,
                cached.total_supply,
                cached.decimals,
            ),
        };
        let new_ratio = match pricing::ratio(na_supply, na_dec, nb_supply, nb_dec) {
            Ok(v) => v,
            Err(e) => { return Err(e) },
        };
        match side {
            Side::A => {
                self.token_a_meta = cached;
                self.token_a_fetch = FetchState::Fetched;
            },
            Side::B => {
                self.token_b_meta = cached;
                self.token_b_fetch = FetchState::Fetched;
            },
        }
        self.tokens_ratio = new_ratio;
        Ok(())
    }

    /// Law: decimal precision never changes after the first fetch. A
    /// metadata response delivered to a side already `Fetched` leaves that
    /// side's cached decimals as they were, whatever precision it carries,
    /// and touches nothing of the other side; the supply and symbol take
    /// the delivered values.
    pub proof fn lemma_fetched_decimals_never_change(
        self,
        s: Side,
        d: TokenDescriptor,
        v: u128,
    )
        requires
            self.fetch_of(s) == FetchState::Fetched,
        ensures
            ({
                let updated = self.with_meta(s, self.merged_meta(s, d)).with_ratio(v);
                &&& updated.meta(s).decimals == self.meta(s).decimals
                &&& updated.meta(s).total_supply == d.total_supply
                &&& updated.meta(s).symbol == d.symbol
                &&& updated.meta(s.spec_counter()) == self.meta(s.spec_counter())
            }),
    {
    }

    /// Recomputes the cached ratio from the two cached supplies. On a
    /// well-formed state this changes nothing and returns the cached ratio:
    /// recomputation on unchanged supplies is idempotent.
    pub fn update_tokens_ratio(&mut self) -> (r: Result<u128, AmmError>)
        ensures
            if old(self).decimals_fit() && old(self).derived_ratio() <= u128::MAX {
                &&& r == Ok::<u128, AmmError>(old(self).derived_ratio() as u128)
                &&& *final(self) == old(self).with_ratio(old(self).derived_ratio() as u128)
                &&& final(self).wf()
            } else {
                &&& r == Err::<u128, AmmError>(AmmError::Overflow)
                &&& *final(self) == *old(self)
            },
            old(self).wf() ==> *final(self) == *old(self) && r == Ok::<u128, AmmError>(
                old(self).tokens_ratio,
            ),
    {
        let v = match pricing::ratio(
            self.token_a_meta.total_supply,
            self.token_a_meta.decimals,
            self.token_b_meta.total_supply,
            self.token_b_meta.decimals,
        ) {
            Ok(v) => v,
            Err(e) => { return Err(e) },
        };
        self.tokens_ratio = v;
        Ok(v)
    }

    /// The cached exchange ratio, as of the last successful commit or
    /// metadata update; zero until both sides have supplied metadata that
    /// yields a positive ratio.
    pub fn get_tokens_ratio(&self) -> (r: u128)
        ensures
            r == self.tokens_ratio,
    {
        self.tokens_ratio
    }

    /// The full public snapshot: both cached descriptors and the ratio.
    pub fn tokens_full_info(&self) -> (r: AmmContractInfo)
        ensures
            r.token_a.ticker@ == self.token_a_meta.symbol@,
            r.token_a.decimals == self.token_a_meta.decimals,
            r.token_b.ticker@ == self.token_b_meta.symbol@,
            r.token_b.decimals == self.token_b_meta.decimals,
            r.ratio == self.tokens_ratio,
    {
        AmmContractInfo {
            token_a: TokenContractInfo {
                ticker: self.token_a_meta.symbol.clone(),
                decimals: self.token_a_meta.decimals,
            },
            token_b: TokenContractInfo {
                ticker: self.token_b_meta.symbol.clone(),
                decimals: self.token_b_meta.decimals,
            },
            ratio: self.tokens_ratio,
        }
    }

    /// Law: the two bootstrap responses are order-independent. Each one
    /// updates only its own side, so delivering them in either order yields
    /// the same state, and with it the same recomputed ratio.
    pub proof fn lemma_bootstrap_sides_commute(
        self,
        da: TokenDescriptor,
        db: TokenDescriptor,
    )
        ensures
            self.with_meta(Side::A, da).with_meta(Side::B, db) == self.with_meta(
                Side::B,
                db,
            ).with_meta(Side::A, da),
    {
    }

    /// Law: the derived ratio is the product of the two truncated
    /// whole-unit supplies, and recomputing it on unchanged supplies is
    /// idempotent: installing the derived ratio yields a well-formed state,
    /// and installing it again changes nothing.
    pub proof fn lemma_ratio_recompute_idempotent(self)
        requires
            self.decimals_fit(),
            self.derived_ratio() <= u128::MAX,
        ensures
            self.derived_ratio() == whole_units(
                self.token_a_meta.total_supply as nat,
                self.token_a_meta.decimals as nat,
            ) * whole_units(
                self.token_b_meta.total_supply as nat,
                self.token_b_meta.decimals as nat,
            ),
            self.with_ratio(self.derived_ratio() as u128).wf(),
            self.with_ratio(self.derived_ratio() as u128).with_ratio(
                self.with_ratio(self.derived_ratio() as u128).derived_ratio() as u128,
            ) == self.with_ratio(self.derived_ratio() as u128),
    {
    }

    /// The identity-agnostic descriptor lookup: the snapshot of whichever
    /// side the identity is configured on.
    pub fn token_info_by_id(&self, token_contract_id: AccountId) -> (r: Result<
        TokenContractInfo,
        AmmError,
    >)
        ensures
            self.side_of(token_contract_id@) is None ==> (r matches Err(e) && e
                == AmmError::UnknownLedger),
            self.side_of(token_contract_id@) matches Some(s) ==> (r matches Ok(info)
                && info.ticker@ == self.meta(s).symbol@ && info.decimals == self.meta(s).decimals),
    {
        if self.token_a == token_contract_id {
            Ok(
                TokenContractInfo {
                    ticker: self.token_a_meta.symbol.clone(),
                    decimals: self.token_a_meta.decimals,
                },
            )
        } else if self.token_b == token_contract_id {
            Ok(
                TokenContractInfo {
                    ticker: self.token_b_meta.symbol.clone(),
                    decimals: self.token_b_meta.decimals,
                },
            )
        } else {
            Err(AmmError::UnknownLedger)
        }
    }
}

} // verus!

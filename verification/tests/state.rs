use amm_contract::actions::{Action, Callback, ExternalCall};
use amm_contract::errors::AmmError;
use amm_contract::state::{Contract, FetchState, TokenDescriptor};

fn acct(s: &str) -> String {
    s.to_string()
}

fn descriptor(symbol: &str, decimals: u8, total_supply: u128) -> TokenDescriptor {
    TokenDescriptor {
        symbol: symbol.to_string(),
        decimals,
        total_supply,
    }
}

/// A contract whose both sides completed their metadata fetch: ledger A
/// holds 1,000,000 smallest units at 6 decimals, ledger B 2,000,000 at 6.
fn bootstrapped() -> Contract {
    let (mut contract, _) = Contract::new(acct("owner"), acct("token_a"), acct("token_b"));
    let amm = acct("amm");
    contract
        .on_get_metadata(&amm, &amm, acct("token_a"), descriptor("tkn_A", 6, 1_000_000))
        .unwrap();
    contract
        .on_get_metadata(&amm, &amm, acct("token_b"), descriptor("tkn_B", 6, 2_000_000))
        .unwrap();
    contract
}

#[test]
fn test_new_contract_state() {
    let (contract, actions) = Contract::new(acct("owner"), acct("token_a"), acct("token_b"));
    assert_eq!(contract.owner_id, "owner");
    assert_eq!(contract.token_a, "token_a");
    assert_eq!(contract.token_b, "token_b");
    assert_eq!(contract.token_a_meta.total_supply, 0);
    assert_eq!(contract.token_b_meta.total_supply, 0);
    assert_eq!(contract.token_a_fetch, FetchState::AwaitingResponse);
    assert_eq!(contract.token_b_fetch, FetchState::AwaitingResponse);
    assert_eq!(contract.get_tokens_ratio(), 0);
    assert_eq!(
        actions,
        vec![
            Action {
                call: ExternalCall::GetMetadata { ledger: acct("token_a") },
                on_done: Some(Callback::OnGetMetadata { contract_id: acct("token_a") }),
            },
            Action {
                call: ExternalCall::GetMetadata { ledger: acct("token_b") },
                on_done: Some(Callback::OnGetMetadata { contract_id: acct("token_b") }),
            },
            Action {
                call: ExternalCall::CreateWallet {
                    ledger: acct("token_a"),
                    sender: acct("owner"),
                    amount: 0,
                },
                on_done: None,
            },
            Action {
                call: ExternalCall::CreateWallet {
                    ledger: acct("token_b"),
                    sender: acct("owner"),
                    amount: 0,
                },
                on_done: None,
            },
        ]
    );
}

#[test]
fn test_ratio_is_zero_before_bootstrap() {
    // The chosen policy for a not-yet-ready contract: ratio queries answer
    // the derived default of zero instead of being rejected.
    let (contract, _) = Contract::new(acct("owner"), acct("token_a"), acct("token_b"));
    assert_eq!(contract.get_tokens_ratio(), 0);
    let info = contract.tokens_full_info();
    assert_eq!(info.ratio, 0);
    assert_eq!(info.token_a.ticker, "");
    assert_eq!(info.token_a.decimals, 0);
}

#[test]
fn test_on_get_metadata_populates_both_sides() {
    let contract = bootstrapped();
    assert_eq!(contract.token_a_fetch, FetchState::Fetched);
    assert_eq!(contract.token_b_fetch, FetchState::Fetched);
    assert_eq!(contract.token_a_meta.total_supply, 1_000_000);
    assert_eq!(contract.token_b_meta.total_supply, 2_000_000);
    // Whole-unit supplies 1 and 2, so the recomputed ratio is 2.
    assert_eq!(contract.get_tokens_ratio(), 2);
    let info = contract.tokens_full_info();
    assert_eq!(info.token_a.ticker, "tkn_A");
    assert_eq!(info.token_a.decimals, 6);
    assert_eq!(info.token_b.ticker, "tkn_B");
    assert_eq!(info.token_b.decimals, 6);
    assert_eq!(info.ratio, 2);
}

#[test]
fn test_on_get_metadata_sides_commute() {
    // The two bootstrap responses may arrive in either order.
    let (mut contract, _) = Contract::new(acct("owner"), acct("token_a"), acct("token_b"));
    let amm = acct("amm");
    contract
        .on_get_metadata(&amm, &amm, acct("token_b"), descriptor("tkn_B", 6, 2_000_000))
        .unwrap();
    assert_eq!(contract.token_a_fetch, FetchState::AwaitingResponse);
    assert_eq!(contract.token_b_fetch, FetchState::Fetched);
    // Side A still holds the zero default, so the ratio stays 0 * 2 = 0.
    assert_eq!(contract.get_tokens_ratio(), 0);
    contract
        .on_get_metadata(&amm, &amm, acct("token_a"), descriptor("tkn_A", 6, 1_000_000))
        .unwrap();
    assert_eq!(contract.get_tokens_ratio(), 2);
}

#[test]
fn test_on_get_metadata_rejects_foreign_origin() {
    // A continuation delivered by anything but the contract itself fails
    // and mutates nothing.
    let (mut contract, _) = Contract::new(acct("owner"), acct("token_a"), acct("token_b"));
    let r = contract.on_get_metadata(
        &acct("mallory"),
        &acct("amm"),
        acct("token_a"),
        descriptor("tkn_A", 6, 1_000_000),
    );
    assert_eq!(r, Err(AmmError::UnauthorizedCallback));
    assert_eq!(contract.token_a_fetch, FetchState::AwaitingResponse);
    assert_eq!(contract.token_a_meta.total_supply, 0);
    assert_eq!(contract.get_tokens_ratio(), 0);
}

#[test]
fn test_on_get_metadata_rejects_unknown_ledger() {
    let (mut contract, _) = Contract::new(acct("owner"), acct("token_a"), acct("token_b"));
    let amm = acct("amm");
    let r = contract.on_get_metadata(&amm, &amm, acct("elsewhere"), descriptor("x", 6, 1));
    assert_eq!(r, Err(AmmError::UnknownLedger));
    assert_eq!(contract.get_tokens_ratio(), 0);
}

#[test]
fn test_on_get_metadata_rejects_overflowing_decimals() {
    // On a side that was never fetched the delivered precision is taken as
    // is, and 10^40 exceeds the working width: the whole update is refused
    // and the zero default is kept.
    let (mut contract, _) = Contract::new(acct("owner"), acct("token_a"), acct("token_b"));
    let amm = acct("amm");
    let r = contract.on_get_metadata(&amm, &amm, acct("token_a"), descriptor("huge", 40, 1));
    assert_eq!(r, Err(AmmError::Overflow));
    assert_eq!(contract.token_a_fetch, FetchState::AwaitingResponse);
    assert_eq!(contract.token_a_meta.decimals, 0);
    assert_eq!(contract.token_a_meta.total_supply, 0);
    assert_eq!(contract.get_tokens_ratio(), 0);
}

#[test]
fn test_refetch_keeps_decimals() {
    // Decimal precision never changes after the first fetch: a refetched
    // side takes the delivered symbol and supply but keeps its cached
    // precision, and the ratio is recomputed with it.
    let mut contract = bootstrapped();
    let amm = acct("amm");
    let r = contract.on_get_metadata(&amm, &amm, acct("token_a"), descriptor("tkn_A2", 8, 3_000_000));
    assert_eq!(r, Ok(()));
    assert_eq!(contract.token_a_meta.decimals, 6);
    assert_eq!(contract.token_a_meta.symbol, "tkn_A2");
    assert_eq!(contract.token_a_meta.total_supply, 3_000_000);
    assert_eq!(contract.token_b_meta.decimals, 6);
    // Whole-unit supplies 3 and 2 at the kept precision.
    assert_eq!(contract.get_tokens_ratio(), 6);
}

#[test]
fn test_update_tokens_ratio_is_idempotent() {
    let mut contract = bootstrapped();
    assert_eq!(contract.update_tokens_ratio(), Ok(2));
    assert_eq!(contract.get_tokens_ratio(), 2);
    assert_eq!(contract.update_tokens_ratio(), Ok(2));
    assert_eq!(contract.get_tokens_ratio(), 2);
}

#[test]
fn test_token_info_by_id() {
    let contract = bootstrapped();
    let info_a = contract.token_info_by_id(acct("token_a")).unwrap();
    assert_eq!(info_a.ticker, "tkn_A");
    assert_eq!(info_a.decimals, 6);
    let info_b = contract.token_info_by_id(acct("token_b")).unwrap();
    assert_eq!(info_b.ticker, "tkn_B");
    assert_eq!(info_b.decimals, 6);
    assert_eq!(
        contract.token_info_by_id(acct("elsewhere")).unwrap_err(),
        AmmError::UnknownLedger
    );
}

#[test]
fn test_internal_query_external_metadata_actions() {
    let mut contract = bootstrapped();
    // Force one side back to never-fetched to observe the request
    // transition.
    contract.token_a_fetch = FetchState::Unfetched;
    let actions = contract.internal_query_external_metadata();
    assert_eq!(
        actions,
        vec![
            Action {
                call: ExternalCall::GetMetadata { ledger: acct("token_a") },
                on_done: Some(Callback::OnGetMetadata { contract_id: acct("token_a") }),
            },
            Action {
                call: ExternalCall::GetMetadata { ledger: acct("token_b") },
                on_done: Some(Callback::OnGetMetadata { contract_id: acct("token_b") }),
            },
        ]
    );
    // An unfetched side now awaits a response; a fetched side stays valid.
    assert_eq!(contract.token_a_fetch, FetchState::AwaitingResponse);
    assert_eq!(contract.token_b_fetch, FetchState::Fetched);
}

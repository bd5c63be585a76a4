use amm_contract::errors::AmmError;
use amm_contract::pricing::{quote, ratio, Quote, Side};

#[test]
fn test_ratio_is_product_of_whole_units() {
    // 1,000,000 at 6 decimals is 1 whole unit; 2,000,000 is 2; ratio 1 * 2.
    assert_eq!(ratio(1_000_000, 6, 2_000_000, 6), Ok(2));
}

#[test]
fn test_ratio_truncates_fractions() {
    // 1,999,999 truncates to 1 whole unit, 3,500,000 to 3.
    assert_eq!(ratio(1_999_999, 6, 3_500_000, 6), Ok(3));
}

#[test]
fn test_ratio_mixed_decimals() {
    // 5 whole units at 2 decimals times 7 whole units at 0 decimals.
    assert_eq!(ratio(500, 2, 7, 0), Ok(35));
}

#[test]
fn test_ratio_rerun_is_idempotent() {
    let first = ratio(1_000_000, 6, 2_000_000, 6);
    let second = ratio(1_000_000, 6, 2_000_000, 6);
    assert_eq!(first, Ok(2));
    assert_eq!(first, second);
}

#[test]
fn test_ratio_overflow_on_large_decimals() {
    // 10^39 exceeds the 128-bit working width.
    assert_eq!(ratio(1, 39, 1, 0), Err(AmmError::Overflow));
    assert_eq!(ratio(1, 0, 1, 39), Err(AmmError::Overflow));
}

#[test]
fn test_ratio_overflow_on_product() {
    // Each factor fits, their product does not.
    let big = u128::MAX;
    assert_eq!(ratio(big, 0, big, 0), Err(AmmError::Overflow));
}

#[test]
fn test_quote_one_whole_unit_swap() {
    // Offering 1 whole unit on side A when A holds 1 and B holds 2 whole
    // units: sender post-amount is 2 whole units, receiver post-amount is
    // ratio / 2 = 1 whole unit, and 1,000,000 smallest units are owed.
    let q = quote(1_000_000, 6, 2_000_000, 6, Side::A, 1);
    assert_eq!(
        q,
        Ok(Quote {
            ratio: 2,
            offered: 1_000_000,
            sender_post_supply: 2_000_000,
            receiver_post_supply: 1_000_000,
            counter_amount: 1_000_000,
        })
    );
}

#[test]
fn test_quote_insufficient_liquidity_on_zero_offer() {
    // An offer of zero leaves the receiver post-amount at the full current
    // supply, so nothing positive would be owed.
    assert_eq!(
        quote(1_000_000, 6, 2_000_000, 6, Side::A, 0),
        Err(AmmError::InsufficientLiquidity)
    );
}

#[test]
fn test_quote_insufficient_liquidity_below_one_whole_unit() {
    // The sender's post-transfer supply truncates to zero whole units.
    assert_eq!(
        quote(5, 6, 2_000_000, 6, Side::A, 0),
        Err(AmmError::InsufficientLiquidity)
    );
}

#[test]
fn test_quote_overflow_on_offer_conversion() {
    // The offered whole units do not fit in smallest units.
    assert_eq!(
        quote(1_000_000, 6, 2_000_000, 6, Side::A, u128::MAX),
        Err(AmmError::Overflow)
    );
}

#[test]
fn test_quote_from_side_b() {
    // The same pool quoted from the other side: B holds 2 whole units and
    // 2 more are offered, so the sender post-amount is 4 whole units. The
    // receiver post-amount truncates to ratio / 4 = 0 whole units, leaving
    // the full A supply of 1,000,000 smallest units owed.
    let q = quote(1_000_000, 6, 2_000_000, 6, Side::B, 2);
    assert_eq!(
        q,
        Ok(Quote {
            ratio: 2,
            offered: 2_000_000,
            sender_post_supply: 4_000_000,
            receiver_post_supply: 0,
            counter_amount: 1_000_000,
        })
    );
}

//! The pricing engine: pure arithmetic turning the two cached token supplies
//! into an exchange ratio and a swap quote.
//!
//! Each supply is first truncated to a whole-unit count by integer division
//! by `10^decimals`; the ratio is the product of the two whole-unit counts.
//! The truncation deliberately loses any fraction below one whole unit.
//! All arithmetic runs at a 128-bit working width and fails closed with
//! [`AmmError::Overflow`] instead of wrapping.

use vstd::prelude::*;

use crate::errors::AmmError;

verus! {

/// The two configured ledger sides of the pool.
#[derive(Clone, Copy, Debug, PartialEq, Eq, Structural)]
pub enum Side {
    A,
    B,
}

impl Side {
    /// The opposite side: the counter-ledger of an offer made on `self`.
    pub open spec fn spec_counter(self) -> Side {
        match self {
            Side::A => Side::B,
            Side::B => Side::A,
        }
    }

    /// Returns the opposite side.
    #[verifier::when_used_as_spec(spec_counter)]
    pub fn counter(self) -> (r: Side)
        ensures
            r == self.spec_counter(),
    {
        match self {
            Side::A => Side::B,
            Side::B => Side::A,
        }
    }
}

/// The outcome of pricing one offer: the in-flight numbers of a single swap,
/// all in the smallest units of their respective ledgers.
#[derive(Clone, Copy, Debug, PartialEq, Eq, Structural)]
pub struct Quote {
    /// The exchange ratio derived from the two supplies the quote was priced
    /// from.
    pub ratio: u128,
    /// The offered amount, converted to the offering ledger's smallest units.
    pub offered: u128,
    /// The offering ledger's supply after the offer is added to it.
    pub sender_post_supply: u128,
    /// The counter-ledger's supply after the swap, `(ratio / sender
    /// post-transfer whole units) * 10^(counter decimals)`.
    pub receiver_post_supply: u128,
    /// The amount owed to the beneficiary on the counter-ledger: its prior
    /// supply minus its post-transfer supply.
    pub counter_amount: u128,
}

/// `10^e` over the mathematical integers.
pub open spec fn pow10(e: nat) -> nat
    decreases e,
{
    if e == 0 {
        1
    } else {
        10 * pow10((e - 1) as nat)
    }
}

/// A power of ten is strictly positive.
pub proof fn lemma_pow10_pos(e: nat)
    ensures
        pow10(e) >= 1,
    decreases e,
{
    if e > 0 {
        lemma_pow10_pos((e - 1) as nat);
    }
}

/// Powers of ten grow with the exponent.
pub proof fn lemma_pow10_increases(e1: nat, e2: nat)
    requires
        e1 <= e2,
    ensures
        pow10(e1) <= pow10(e2),
    decreases e2 - e1,
{
    if e1 < e2 {
        lemma_pow10_increases(e1, (e2 - 1) as nat);
        lemma_pow10_pos((e2 - 1) as nat);
    }
}

/// The whole-unit count of a supply held in smallest units: the supply
/// truncated by `10^decimals`.
pub open spec fn whole_units(supply: nat, decimals: nat) -> nat {
    supply / pow10(decimals)
}

/// The exchange ratio of two supplies: the product of their truncated
/// whole-unit counts.
pub open spec fn ratio_value(
    supply_a: nat,
    decimals_a: nat,
    supply_b: nat,
    decimals_b: nat,
) -> nat {
    whole_units(supply_a, decimals_a) * whole_units(supply_b, decimals_b)
}

/// Computes `10^e`, or `None` when the power exceeds the 128-bit working
/// width.
pub fn pow10_checked(e: u8) -> (r: Option<u128>)
    ensures
        r matches Some(p) ==> p == pow10(e as nat),
        r is Some <==> pow10(e as nat) <= u128::MAX,
{
    let mut acc: u128 = 1;
    let mut i: u8 = 0;
    while i < e
        invariant
            i <= e,
            acc == pow10(i as nat),
        decreases e - i,
    {
        acc = match acc.checked_mul(10) {
            Some(next) => next,
            None => {
                proof {
                    lemma_pow10_increases((i + 1) as nat, e as nat);
                }
                return None;
            },
        };
        i = i + 1;
    }
    Some(acc)
}

/// The exchange ratio of the two supplies, failing closed when `10^decimals`
/// or the product of the whole-unit counts exceeds the 128-bit working
/// width.
///
/// The returned value is exactly [`ratio_value`]: the product of the two
/// truncated whole-unit supplies. Recomputing it from unchanged inputs
/// always yields the same value.
pub fn ratio(supply_a: u128, decimals_a: u8, supply_b: u128, decimals_b: u8) -> (r: Result<
    u128,
    AmmError,
>)
    ensures
        r matches Ok(v) ==> v == ratio_value(
            supply_a as nat,
            decimals_a as nat,
            supply_b as nat,
            decimals_b as nat,
        ),
        r is Ok <==> {
            &&& pow10(decimals_a as nat) <= u128::MAX
            &&& pow10(decimals_b as nat) <= u128::MAX
            &&& ratio_value(supply_a as nat, decimals_a as nat, supply_b as nat, decimals_b as nat)
                <= u128::MAX
        },
        r matches Err(e) ==> e == AmmError::Overflow,
{
    let pa = match pow10_checked(decimals_a) {
        Some(p) => p,
        None => { return Err(AmmError::Overflow) },
    };
    let pb = match pow10_checked(decimals_b) {
        Some(p) => p,
        None => { return Err(AmmError::Overflow) },
    };
    proof {
        lemma_pow10_pos(decimals_a as nat);
        lemma_pow10_pos(decimals_b as nat);
    }
    let wa = supply_a / pa;
    let wb = supply_b / pb;
    match wa.checked_mul(wb) {
        Some(v) => Ok(v),
        None => Err(AmmError::Overflow),
    }
}

/// The full pricing decision for one offer, over the mathematical integers:
/// which error an offer is rejected with, or the exact [`Quote`] it yields.
///
/// `side` is the offering ledger; `amount_whole` is the offer in whole
/// units. The quoted counter-ledger post-transfer supply is
/// `(ratio / sender post-transfer whole units) * 10^(counter decimals)`; the
/// offer is rejected with `InsufficientLiquidity` when the sender's
/// post-transfer supply truncates to zero whole units or when the
/// counter-ledger's post-transfer supply would reach or exceed its current
/// supply, and with `Overflow` when any intermediate value exceeds the
/// 128-bit working width.
pub open spec fn quote_result(
    supply_a: u128,
    decimals_a: u8,
    supply_b: u128,
    decimals_b: u8,
    side: Side,
    amount_whole: u128,
) -> Result<Quote, AmmError> {
    let sender_supply = if side is A {
        supply_a as nat
    } else {
        supply_b as nat
    };
    let sender_dec = if side is A {
        decimals_a as nat
    } else {
        decimals_b as nat
    };
    let receiver_supply = if side is A {
        supply_b as nat
    } else {
        supply_a as nat
    };
    let receiver_dec = if side is A {
        decimals_b as nat
    } else {
        decimals_a as nat
    };
    if pow10(sender_dec) > u128::MAX || pow10(receiver_dec) > u128::MAX {
        Err(AmmError::Overflow)
    } else if amount_whole * pow10(sender_dec) > u128::MAX {
        Err(AmmError::Overflow)
    } else if amount_whole * pow10(sender_dec) + sender_supply > u128::MAX {
        Err(AmmError::Overflow)
    } else if ratio_value(supply_a as nat, decimals_a as nat, supply_b as nat, decimals_b as nat)
        > u128::MAX {
        Err(AmmError::Overflow)
    } else {
        let offered = (amount_whole * pow10(sender_dec)) as nat;
        let sender_post = offered + sender_supply;
        let ratio = ratio_value(supply_a as nat, decimals_a as nat, supply_b as nat, decimals_b as nat);
        let sender_post_whole = sender_post / pow10(sender_dec);
        if sender_post_whole == 0 {
            Err(AmmError::InsufficientLiquidity)
        } else {
            let receiver_post = (ratio / sender_post_whole) * pow10(receiver_dec);
            if receiver_post > u128::MAX {
                Err(AmmError::Overflow)
            } else if receiver_post >= receiver_supply {
                Err(AmmError::InsufficientLiquidity)
            } else {
                Ok(
                    Quote {
                        ratio: ratio as u128,
                        offered: offered as u128,
                        sender_post_supply: sender_post as u128,
                        receiver_post_supply: receiver_post as u128,
                        counter_amount: (receiver_supply - receiver_post) as u128,
                    },
                )
            }
        }
    }
}

/// Prices one offer of `amount_whole` whole units made on `side`, against
/// the supplies and decimal precisions of the two ledgers.
///
/// Pure over its arguments: the result is exactly [`quote_result`] of them.
pub fn quote(
    supply_a: u128,
    decimals_a: u8,
    supply_b: u128,
    decimals_b: u8,
    side: Side,
    amount_whole: u128,
) -> (r: Result<Quote, AmmError>)
    ensures
        r == quote_result(supply_a, decimals_a, supply_b, decimals_b, side, amount_whole),
{
    let (sender_supply, sender_dec, receiver_supply, receiver_dec) = match side {
        Side::A => (supply_a, decimals_a, supply_b, decimals_b),
        Side::B => (supply_b, decimals_b, supply_a, decimals_a),
    };
    let ps = match pow10_checked(sender_dec) {
        Some(p) => p,
        None => { return Err(AmmError::Overflow) },
    };
    let pr = match pow10_checked(receiver_dec) {
        Some(p) => p,
        None => { return Err(AmmError::Overflow) },
    };
    let offered = match amount_whole.checked_mul(ps) {
        Some(v) => v,
        None => { return Err(AmmError::Overflow) },
    };
    let sender_post = match offered.checked_add(sender_supply) {
        Some(v) => v,
        None => { return Err(AmmError::Overflow) },
    };
    let ratio_now = match ratio(supply_a, decimals_a, supply_b, decimals_b) {
        Ok(v) => v,
        Err(e) => { return Err(e) },
    };
    proof {
        lemma_pow10_pos(sender_dec as nat);
    }
    let sender_post_whole = sender_post / ps;
    if sender_post_whole == 0 {
        return Err(AmmError::InsufficientLiquidity);
    }
    let receiver_post = match (ratio_now / sender_post_whole).checked_mul(pr) {
        Some(v) => v,
        None => { return Err(AmmError::Overflow) },
    };
    if receiver_post >= receiver_supply {
        return Err(AmmError::InsufficientLiquidity);
    }
    Ok(
        Quote {
            ratio: ratio_now,
            offered,
            sender_post_supply: sender_post,
            receiver_post_supply: receiver_post,
            counter_amount: receiver_supply - receiver_post,
        },
    )
}

} // verus!

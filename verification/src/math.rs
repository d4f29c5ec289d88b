//! Checked financial arithmetic shared by the engine: USD valuation of
//! collateral, health factors, collateral ratios, proportional splits and
//! peg deviation. Every executable function either is total or reports
//! `MathOverflow`; none panics.

use vstd::prelude::*;
use crate::error::ErrorCode;

verus! {

/// 10 to the power `e`.
pub open spec fn pow10(e: nat) -> nat
    decreases e,
{
    if e == 0 {
        1
    } else {
        10 * pow10((e - 1) as nat)
    }
}

pub proof fn lemma_pow10_positive(e: nat)
    ensures
        pow10(e) >= 1,
    decreases e,
{
    if e > 0 {
        lemma_pow10_positive((e - 1) as nat);
    }
}

pub proof fn lemma_pow10_increases(a: nat, b: nat)
    requires
        a <= b,
    ensures
        pow10(a) <= pow10(b),
    decreases b,
{
    if a < b {
        lemma_pow10_increases(a, (b - 1) as nat);
        lemma_pow10_positive((b - 1) as nat);
    }
}

/// `10^e` as a `u64`, or `None` where that does not fit.
pub fn pow10_checked(e: u8) -> (r: Option<u64>)
    ensures
        pow10(e as nat) <= u64::MAX ==> r == Some((pow10(e as nat)) as u64),
        pow10(e as nat) > u64::MAX ==> r is None,
{
    let mut result: u64 = 1;
    let mut i: u8 = 0;
    while i < e
        invariant
            i <= e,
            result == pow10(i as nat),
        decreases e - i,
    {
        match result.checked_mul(10) {
            Some(next) => {
                result = next;
                i = i + 1;
            },
            None => {
                proof {
                    lemma_pow10_increases((i + 1) as nat, e as nat);
                }
                return None;
            },
        }
    }
    Some(result)
}

/// USD value of `amount` native units priced at `price`, with the native
/// unit carrying `decimals` decimals: `(amount / 10^decimals) * price`,
/// the division truncating.
pub open spec fn usd_value_of(amount: u64, price: u64, decimals: u8) -> int {
    (amount as int / pow10(decimals as nat) as int) * price
}

/// Converts a collateral amount to its USD value. Reports `MathOverflow`
/// exactly where the value does not fit in 64 bits.
pub fn calculate_usd_value(amount: u64, price: u64, decimals: u8) -> (r: Result<u64, ErrorCode>)
    ensures
        usd_value_of(amount, price, decimals) <= u64::MAX ==> r == Ok::<u64, ErrorCode>(
            usd_value_of(amount, price, decimals) as u64,
        ),
        usd_value_of(amount, price, decimals) > u64::MAX ==> r == Err::<u64, ErrorCode>(
            ErrorCode::MathOverflow,
        ),
{
    proof {
        lemma_pow10_positive(decimals as nat);
    }
    let scaled: u64 = match pow10_checked(decimals) {
        Some(divisor) => amount / divisor,
        None => {
            // 10^decimals exceeds every u64 amount, so the quotient is zero.
            proof {
                vstd::arithmetic::div_mod::lemma_basic_div(
                    amount as int,
                    pow10(decimals as nat) as int,
                );
            }
            0
        },
    };
    match scaled.checked_mul(price) {
        Some(v) => Ok(v),
        None => Err(ErrorCode::MathOverflow),
    }
}

/// Health factor of a position: collateral value in USD, scaled by 10000,
/// divided by the outstanding debt (a zero debt counts as 1), saturating
/// at `u64::MAX`.
pub open spec fn health_factor_of(collateral_value: u64, debt: u64) -> int {
    let d: int = if debt == 0 {
        1
    } else {
        debt as int
    };
    let hf: int = collateral_value * 10000 / d;
    if hf > u64::MAX {
        u64::MAX as int
    } else {
        hf
    }
}

/// Computes the health factor of a position.
pub fn health_factor(collateral_value: u64, debt: u64) -> (r: u64)
    ensures
        r == health_factor_of(collateral_value, debt),
{
    let d: u128 = if debt == 0 {
        1
    } else {
        debt as u128
    };
    let num: u128 = (collateral_value as u128) * 10000;
    let q: u128 = num / d;
    if q > u64::MAX as u128 {
        u64::MAX
    } else {
        q as u64
    }
}

/// Collateral ratio of the protocol: total collateral value in USD, scaled
/// by 10000, divided by the total stable supply; `u64::MAX` (infinitely
/// solvent) when the supply is zero, and saturating at `u64::MAX`.
pub open spec fn collateral_ratio_of(total_collateral_value: u64, total_stablecoin_supply: u64) -> int {
    if total_stablecoin_supply == 0 {
        u64::MAX as int
    } else {
        let ratio: int = total_collateral_value * 10000 / (total_stablecoin_supply as int);
        if ratio > u64::MAX {
            u64::MAX as int
        } else {
            ratio
        }
    }
}

/// The part of `value` that `part` out of `whole` units stand for:
/// `value * part / whole`, truncating. Reports `MathOverflow` exactly
/// where the checked 64-bit product overflows.
pub fn mul_div(value: u64, part: u64, whole: u64) -> (r: Result<u64, ErrorCode>)
    requires
        whole > 0,
    ensures
        value * part <= u64::MAX ==> r == Ok::<u64, ErrorCode>((value * part / whole as int) as u64),
        value * part > u64::MAX ==> r == Err::<u64, ErrorCode>(ErrorCode::MathOverflow),
{
    match value.checked_mul(part) {
        Some(product) => Ok(product / whole),
        None => Err(ErrorCode::MathOverflow),
    }
}

/// Distance of `current` from `target` in basis points:
/// `|current - target| * 10000 / target`.
pub open spec fn deviation_bps_of(current: u64, target: u64) -> int {
    let diff: int = if current > target {
        current - target
    } else {
        target - current
    };
    diff * 10000 / target as int
}

/// Computes the peg deviation of a market price in basis points. A
/// target of at least 10000 keeps the deviation within 64 bits, since
/// the deviation then never exceeds the difference itself.
pub fn deviation_bps(current: u64, target: u64) -> (r: u64)
    requires
        target >= 10000,
    ensures
        r == deviation_bps_of(current, target),
{
    let diff: u64 = if current > target {
        current - target
    } else {
        target - current
    };
    let q: u128 = (diff as u128) * 10000 / (target as u128);
    proof {
        vstd::arithmetic::mul::lemma_mul_inequality(10000int, target as int, diff as int);
        vstd::arithmetic::div_mod::lemma_div_is_ordered(
            diff * 10000,
            diff * target,
            target as int,
        );
        vstd::arithmetic::div_mod::lemma_div_by_multiple(diff as int, target as int);
    }
    q as u64
}

} // verus!

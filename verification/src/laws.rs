//! Protocol-wide laws, each stated over the same spec functions the
//! operations' contracts use and proved for every input its statement
//! admits.

use vstd::prelude::*;
use crate::constants::{NO_OWNER, TARGET_PEG_PRICE};
use crate::error::ErrorCode;
use crate::math::{collateral_ratio_of, deviation_bps_of, health_factor_of, usd_value_of};
use crate::state::protocol::ProtocolState;
use crate::state::collateral::{CollateralPool, CollateralType, UserPosition};
use crate::instructions::deposit_collateral::spec_deposit;
use crate::instructions::withdraw_collateral::{spec_withdraw, lemma_withdrawal_value_bounded};
use crate::instructions::liquidate::spec_liquidate;
use crate::instructions::mint_stable::spec_mint;
use crate::instructions::rebalance::{spec_rebalance, rebalance_percentage_of, RebalanceAction};

verus! {

/// Every successful deposit credits the pool, and the protocol aggregate,
/// with exactly the deposit's USD value, `(amount / 10^decimals) * price`
/// with truncating division.
pub proof fn lemma_deposit_valuation(
    s: ProtocolState,
    p: CollateralPool,
    u: UserPosition,
    user: u64,
    collateral_type: CollateralType,
    amount: u64,
    price: u64,
    decimals: u8,
    user_balance: u64,
    now: i64,
    t: (ProtocolState, CollateralPool, UserPosition, u64),
)
    requires
        spec_deposit(s, p, u, user, collateral_type, amount, price, decimals, user_balance, now)
            == Ok::<_, ErrorCode>(t),
    ensures
        t.3 == usd_value_of(amount, price, decimals),
        t.1.total_value_usd == p.total_value_usd + usd_value_of(amount, price, decimals),
        t.0.total_collateral_value == s.total_collateral_value + usd_value_of(
            amount,
            price,
            decimals,
        ),
        t.1.total_deposited == p.total_deposited + amount,
{
    lemma_usd_value_nonnegative(amount, price, decimals);
}

/// A deposit's USD value is never negative: both the scaled amount and
/// the price are non-negative.
pub proof fn lemma_usd_value_nonnegative(amount: u64, price: u64, decimals: u8)
    ensures
        0 <= usd_value_of(amount, price, decimals),
{
    crate::math::lemma_pow10_positive(decimals as nat);
    vstd::arithmetic::div_mod::lemma_div_pos_is_pos(
        amount as int,
        crate::math::pow10(decimals as nat) as int,
    );
    vstd::arithmetic::mul::lemma_mul_nonnegative(
        amount as int / crate::math::pow10(decimals as nat) as int,
        price as int,
    );
}

/// The collateral ratio is `u64::MAX` ("infinitely solvent") when no
/// stable supply is outstanding; otherwise it is
/// `total_collateral_value * 10000 / total_stablecoin_supply`, saturating
/// at `u64::MAX`.
pub proof fn lemma_collateral_ratio(total_collateral_value: u64, total_stablecoin_supply: u64)
    ensures
        total_stablecoin_supply == 0 ==> collateral_ratio_of(
            total_collateral_value,
            total_stablecoin_supply,
        ) == u64::MAX,
        total_stablecoin_supply != 0 && total_collateral_value * 10000 / (
        total_stablecoin_supply as int) <= u64::MAX ==> collateral_ratio_of(
            total_collateral_value,
            total_stablecoin_supply,
        ) == total_collateral_value * 10000 / (total_stablecoin_supply as int),
{
}

/// Depositing and then withdrawing the same amount, with no intervening
/// operation, returns the pool's deposit total and the user's collateral
/// total to their pre-deposit values (a user never seen before starts,
/// and ends, at zero).
pub proof fn lemma_deposit_withdraw_round_trip(
    s: ProtocolState,
    p: CollateralPool,
    u: UserPosition,
    user: u64,
    collateral_type: CollateralType,
    amount: u64,
    price: u64,
    decimals: u8,
    user_balance: u64,
    now1: i64,
    now2: i64,
    t1: (ProtocolState, CollateralPool, UserPosition, u64),
    t2: (ProtocolState, CollateralPool, UserPosition, u64),
)
    requires
        spec_deposit(s, p, u, user, collateral_type, amount, price, decimals, user_balance, now1)
            == Ok::<_, ErrorCode>(t1),
        spec_withdraw(t1.0, t1.1, t1.2, amount, now2) == Ok::<_, ErrorCode>(t2),
    ensures
        t2.1.total_deposited == p.total_deposited,
        t2.2.collateral_deposited == (if u.owner == NO_OWNER {
            0int
        } else {
            u.collateral_deposited as int
        }),
{
}

/// After a deposit by a user with no stable debt, the matching withdrawal
/// is owed success, provided the proportional-value product fits in 64
/// bits and the records were consistent (the tracked sub-position's value
/// within the pool's, the pool's within the protocol's).
pub proof fn lemma_withdraw_after_deposit_succeeds(
    s: ProtocolState,
    p: CollateralPool,
    u: UserPosition,
    user: u64,
    collateral_type: CollateralType,
    amount: u64,
    price: u64,
    decimals: u8,
    user_balance: u64,
    now1: i64,
    now2: i64,
    t1: (ProtocolState, CollateralPool, UserPosition, u64),
)
    requires
        spec_deposit(s, p, u, user, collateral_type, amount, price, decimals, user_balance, now1)
            == Ok::<_, ErrorCode>(t1),
        u.owner == NO_OWNER || u.stablecoin_minted == 0,
        p.total_value_usd <= s.total_collateral_value,
        u.collateral_pool matches Some(pos) ==> (pos.pool == p.mint ==> pos.value_usd
            <= p.total_value_usd),
        t1.2.collateral_pool matches Some(sub) ==> sub.value_usd * amount <= u64::MAX,
    ensures
        spec_withdraw(t1.0, t1.1, t1.2, amount, now2) is Ok,
{
    let sub = t1.2.collateral_pool->Some_0;
    lemma_withdrawal_value_bounded(sub, amount);
}

/// The liquidation bonus is always exactly 5% of the seized collateral
/// value (`collateral_value / 20`), and the burned stable debt and the
/// bonus add back up to the collateral value.
pub proof fn lemma_liquidation_bonus(
    s: ProtocolState,
    p: CollateralPool,
    u: UserPosition,
    collateral_amount: u64,
    liquidator_balance: u64,
    now: i64,
    t: (ProtocolState, CollateralPool, UserPosition, crate::instructions::liquidate::LiquidationReceipt),
)
    requires
        spec_liquidate(s, p, u, collateral_amount, liquidator_balance, now) == Ok::<
            _,
            ErrorCode,
        >(t),
    ensures
        t.3.liquidation_bonus == t.3.collateral_value / 20,
        t.3.stablecoin_to_burn + t.3.liquidation_bonus == t.3.collateral_value,
{
}

/// A mint is rejected with `InsufficientCollateralRatio` exactly when it
/// would drop the user's post-mint health factor below the protocol
/// minimum; at or above the boundary value computed by integer division,
/// and with both 64-bit sums in range, the mint is owed success.
pub proof fn lemma_mint_health_gate(s: ProtocolState, u: UserPosition, amount: u64, now: i64)
    requires
        !s.is_paused,
        u.stablecoin_minted + amount <= u64::MAX,
    ensures
        (spec_mint(s, u, amount, now) == Err::<(ProtocolState, UserPosition), ErrorCode>(
            ErrorCode::InsufficientCollateralRatio,
        )) <==> health_factor_of(
            u.pool_collateral_value(),
            (u.stablecoin_minted + amount) as u64,
        ) < s.min_collateral_ratio,
        health_factor_of(u.pool_collateral_value(), (u.stablecoin_minted + amount) as u64)
            >= s.min_collateral_ratio && s.total_stablecoin_supply + amount <= u64::MAX
            ==> spec_mint(s, u, amount, now) is Ok,
{
}

/// A rebalance is a no-op exactly while the peg deviation stays within
/// the protocol threshold; once it acts, the minted or burned amount
/// never exceeds 10% of the stable supply.
pub proof fn lemma_rebalance_cap(
    s: ProtocolState,
    current_price: u64,
    treasury_balance: u64,
    now: i64,
)
    requires
        !s.is_paused,
    ensures
        (spec_rebalance(s, current_price, treasury_balance, now) == Err::<
            (ProtocolState, RebalanceAction),
            ErrorCode,
        >(ErrorCode::RebalancingNotRequired)) <==> deviation_bps_of(current_price, TARGET_PEG_PRICE)
            <= s.peg_deviation_threshold,
        spec_rebalance(s, current_price, treasury_balance, now) matches Ok(t) ==> (match t.1 {
            RebalanceAction::Minted(a) => a <= s.total_stablecoin_supply / 10,
            RebalanceAction::Burned(a) => a <= s.total_stablecoin_supply / 10,
        }),
{
    let deviation = deviation_bps_of(current_price, TARGET_PEG_PRICE);
    if deviation > s.peg_deviation_threshold {
        let pct = rebalance_percentage_of(deviation);
        let supply = s.total_stablecoin_supply as int;
        if supply * pct <= u64::MAX {
            assert(supply * pct <= supply * 1000) by (nonlinear_arith)
                requires
                    0 <= supply,
                    pct <= 1000,
            ;
            vstd::arithmetic::div_mod::lemma_div_is_ordered(supply * pct, supply * 1000, 10000int);
            vstd::arithmetic::div_mod::lemma_div_denominator(supply * 1000, 1000int, 10int);
            vstd::arithmetic::div_mod::lemma_div_by_multiple(supply, 1000int);
        }
    }
}

} // verus!

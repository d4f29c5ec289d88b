use seedstable::error::ErrorCode;
use seedstable::instructions::deposit_collateral::deposit_collateral;
use seedstable::instructions::initialize::initialize;
use seedstable::instructions::liquidate::liquidate;
use seedstable::instructions::mint_stable::mint_stable;
use seedstable::instructions::oracle_update::create_collateral_pool;
use seedstable::instructions::rebalance::{rebalance, RebalanceAction};
use seedstable::instructions::emergency_pause::emergency_pause;
use seedstable::state::collateral::{CollateralPool, CollateralType, UserPosition};
use seedstable::state::protocol::ProtocolState;

const AUTHORITY: u64 = 7;

fn fresh_state() -> ProtocolState {
    initialize(AUTHORITY, 8, 9, 0)
}

fn fresh_pool(max_deposit: u64) -> CollateralPool {
    create_collateral_pool(
        &fresh_state(),
        AUTHORITY,
        CollateralType::USDC,
        11,
        12,
        13,
        max_deposit,
    )
    .unwrap()
}

fn fresh_user() -> UserPosition {
    UserPosition {
        owner: 0,
        collateral_deposited: 0,
        stablecoin_minted: 0,
        last_update_timestamp: 0,
        collateral_pool: None,
    }
}

// A position whose collateral value has fallen after minting: deposit
// 500_000 at $1, mint 300_000, then the sub-position's value drops.
fn underwater_position(value_after_drop: u64) -> (ProtocolState, CollateralPool, UserPosition) {
    let mut s = fresh_state();
    let mut p = fresh_pool(10_000_000);
    let mut u = fresh_user();
    deposit_collateral(
        &mut s,
        &mut p,
        &mut u,
        5,
        CollateralType::USDC,
        500_000,
        1,
        0,
        600_000,
        10,
    )
    .unwrap();
    mint_stable(&mut s, &mut u, 300_000, 20).unwrap();
    let mut sub = u.collateral_pool.unwrap();
    sub.value_usd = value_after_drop;
    u.collateral_pool = Some(sub);
    p.total_value_usd = value_after_drop;
    s.total_collateral_value = value_after_drop;
    (s, p, u)
}

// The liquidation threshold is 12000: a health factor of 11000 is
// liquidatable, one of 12500 is not.
#[test]
fn scenario_liquidation_threshold() {
    // 330_000 * 10000 / 300_000 = 11000 < 12000: liquidatable.
    let (mut s, mut p, mut u) = underwater_position(330_000);
    let r = liquidate(&mut s, &mut p, &mut u, 100_000, 1_000_000, 30);
    assert!(r.is_ok());

    // 375_000 * 10000 / 300_000 = 12500 >= 12000: healthy, the guard fires.
    let (mut s, mut p, mut u) = underwater_position(375_000);
    let r = liquidate(&mut s, &mut p, &mut u, 100_000, 1_000_000, 30);
    assert_eq!(r.unwrap_err(), ErrorCode::PositionLiquidatable);
    assert_eq!(u.stablecoin_minted, 300_000);
}

// The bonus is exactly 5% of the seized value, and bonus plus burned debt
// add back up to the seized value.
#[test]
fn liquidation_bonus_is_five_percent() {
    let (mut s, mut p, mut u) = underwater_position(330_000);
    // Seize 250_000 of the 500_000 units: value 330_000 * 250_000 / 500_000
    // = 165_000; bonus 8_250; burned 156_750.
    let r = liquidate(&mut s, &mut p, &mut u, 250_000, 1_000_000, 30).unwrap();
    assert_eq!(r.collateral_value, 165_000);
    assert_eq!(r.liquidation_bonus, 8_250);
    assert_eq!(r.liquidation_bonus, r.collateral_value / 20);
    assert_eq!(r.stablecoin_to_burn, 156_750);
    assert_eq!(r.stablecoin_to_burn + r.liquidation_bonus, r.collateral_value);

    // The books after the partial liquidation.
    assert_eq!(u.stablecoin_minted, 300_000 - 156_750);
    let sub = u.collateral_pool.unwrap();
    assert_eq!(sub.amount, 250_000);
    assert_eq!(sub.value_usd, 165_000);
    assert_eq!(p.total_deposited, 250_000);
    assert_eq!(p.total_value_usd, 165_000);
    assert_eq!(s.total_collateral_value, 165_000);
    assert_eq!(s.total_stablecoin_supply, 300_000 - 156_750);
}

#[test]
fn liquidation_rejected_when_liquidator_cannot_pay() {
    let (mut s, mut p, mut u) = underwater_position(330_000);
    // Seizing 250_000 units burns 156_750; a balance of 156_749 is short.
    let r = liquidate(&mut s, &mut p, &mut u, 250_000, 156_749, 30);
    assert_eq!(r.unwrap_err(), ErrorCode::InsufficientFunds);
    let r = liquidate(&mut s, &mut p, &mut u, 250_000, 156_750, 30);
    assert!(r.is_ok());
}

#[test]
fn liquidation_rejected_beyond_position() {
    let (mut s, mut p, mut u) = underwater_position(330_000);
    let r = liquidate(&mut s, &mut p, &mut u, 500_001, 1_000_000, 30);
    assert_eq!(r.unwrap_err(), ErrorCode::InsufficientFunds);
}

#[test]
fn liquidation_rejected_while_paused() {
    let (mut s, mut p, mut u) = underwater_position(330_000);
    emergency_pause(&mut s, AUTHORITY, true).unwrap();
    let r = liquidate(&mut s, &mut p, &mut u, 100, 1_000_000, 30);
    assert_eq!(r.unwrap_err(), ErrorCode::ProtocolPaused);
}

// Rebalance is a no-op within the threshold: at $1.02 the deviation is
// exactly 200 bps, not above it.
#[test]
fn rebalance_not_required_within_threshold() {
    let mut s = fresh_state();
    s.total_stablecoin_supply = 1_000_000;
    let r = rebalance(&mut s, 1_020_000, 0, 40);
    assert_eq!(r.unwrap_err(), ErrorCode::RebalancingNotRequired);
    assert_eq!(s.total_stablecoin_supply, 1_000_000);

    let r = rebalance(&mut s, 1_000_000, 0, 40);
    assert_eq!(r.unwrap_err(), ErrorCode::RebalancingNotRequired);
}

// Above the peg the protocol mints a tenth of the deviation, in basis
// points of the supply: at $1.03 the deviation is 300 bps, so 30 bps of
// the supply (3_000) are minted to the treasury.
#[test]
fn rebalance_mints_above_peg() {
    let mut s = fresh_state();
    s.total_stablecoin_supply = 1_000_000;
    let r = rebalance(&mut s, 1_030_000, 0, 40).unwrap();
    assert_eq!(r, RebalanceAction::Minted(3_000));
    assert_eq!(s.total_stablecoin_supply, 1_003_000);
    assert_eq!(s.last_rebalance_timestamp, 40);
}

// Below the peg the protocol burns from the treasury, if the treasury
// can pay.
#[test]
fn rebalance_burns_below_peg() {
    let mut s = fresh_state();
    s.total_stablecoin_supply = 1_000_000;
    let r = rebalance(&mut s, 970_000, 2_999, 40);
    assert_eq!(r.unwrap_err(), ErrorCode::InsufficientFunds);
    assert_eq!(s.total_stablecoin_supply, 1_000_000);

    let r = rebalance(&mut s, 970_000, 3_000, 40).unwrap();
    assert_eq!(r, RebalanceAction::Burned(3_000));
    assert_eq!(s.total_stablecoin_supply, 997_000);
}

// However large the deviation, the moved amount caps at 10% of supply.
#[test]
fn rebalance_cap_at_ten_percent() {
    let mut s = fresh_state();
    s.total_stablecoin_supply = 1_000_000;
    // $3.00: deviation 20000 bps, a tenth would be 2000 bps, capped at 1000.
    let r = rebalance(&mut s, 3_000_000, 0, 40).unwrap();
    assert_eq!(r, RebalanceAction::Minted(100_000));
    assert_eq!(s.total_stablecoin_supply, 1_100_000);
}

#[test]
fn rebalance_rejected_while_paused() {
    let mut s = fresh_state();
    emergency_pause(&mut s, AUTHORITY, true).unwrap();
    let r = rebalance(&mut s, 3_000_000, 0, 40);
    assert_eq!(r.unwrap_err(), ErrorCode::ProtocolPaused);
}

use seedstable::error::ErrorCode;
use seedstable::instructions::initialize::initialize;
use seedstable::instructions::oracle_update::{
    create_collateral_pool, update_oracle_price, validate_price_data,
};
use seedstable::state::collateral::{CollateralPoolPosition, CollateralType, UserPosition};
use seedstable::state::oracle::PriceData;

const AUTHORITY: u64 = 7;

fn good_reading(now: i64) -> PriceData {
    PriceData {
        price: 100_000_000,
        confidence: 50_000,
        timestamp: now,
        is_valid: true,
    }
}

#[test]
fn gate_accepts_fresh_confident_reading() {
    let now: i64 = 1_000;
    assert_eq!(validate_price_data(&good_reading(now), now), Ok(()));
    // Exactly at the staleness bound the reading still passes.
    assert_eq!(validate_price_data(&good_reading(now - 300), now), Ok(()));
}

#[test]
fn gate_rejects_invalid_reading() {
    let now: i64 = 1_000;
    let mut reading = good_reading(now);
    reading.is_valid = false;
    assert_eq!(
        validate_price_data(&reading, now),
        Err(ErrorCode::InvalidOracleConfig)
    );
}

#[test]
fn gate_rejects_stale_reading() {
    let now: i64 = 1_000;
    let reading = good_reading(now - 301);
    assert_eq!(
        validate_price_data(&reading, now),
        Err(ErrorCode::StalePriceData)
    );
}

// Confidence is judged against the price: 5% of the price is the most
// the interval may span, and a zero price is never trusted.
#[test]
fn gate_rejects_low_confidence_reading() {
    let now: i64 = 1_000;
    let mut reading = good_reading(now);
    reading.confidence = 5_010_000;
    assert_eq!(
        validate_price_data(&reading, now),
        Err(ErrorCode::LowConfidencePriceData)
    );
    // The truncated quotient sits exactly on the bound: accepted.
    reading.confidence = 5_000_000;
    assert_eq!(validate_price_data(&reading, now), Ok(()));

    let zero_price = PriceData {
        price: 0,
        confidence: 0,
        timestamp: now,
        is_valid: true,
    };
    assert_eq!(
        validate_price_data(&zero_price, now),
        Err(ErrorCode::LowConfidencePriceData)
    );
}

#[test]
fn stale_and_confidence_predicates() {
    let reading = good_reading(500);
    assert!(!reading.is_stale(800, 300));
    assert!(reading.is_stale(801, 300));
    assert!(reading.has_high_confidence(500));
    assert!(!reading.has_high_confidence(4));
}

// A gated update revalues the pool's holdings at the reading's price.
#[test]
fn update_oracle_price_revalues_pool() {
    let s = initialize(AUTHORITY, 8, 9, 0);
    let mut p = create_collateral_pool(&s, AUTHORITY, CollateralType::SOL, 11, 12, 13, u64::MAX)
        .unwrap();
    p.total_deposited = 5_000_000_000;

    // 5 whole units (9 decimals) at $100.00 (6 decimals): 500_000_000.
    let reading = PriceData {
        price: 100_000_000,
        confidence: 50_000,
        timestamp: 990,
        is_valid: true,
    };
    assert_eq!(update_oracle_price(&mut p, &reading, 9, 1_000), Ok(()));
    assert_eq!(p.total_value_usd, 500_000_000);

    // A rejected reading leaves the pool untouched.
    let stale = PriceData {
        timestamp: 0,
        ..reading
    };
    assert_eq!(
        update_oracle_price(&mut p, &stale, 9, 1_000),
        Err(ErrorCode::StalePriceData)
    );
    assert_eq!(p.total_value_usd, 500_000_000);
}

// A revaluation that does not fit in 64 bits reports MathOverflow and
// leaves the pool unchanged.
#[test]
fn update_oracle_price_overflow() {
    let s = initialize(AUTHORITY, 8, 9, 0);
    let mut p = create_collateral_pool(&s, AUTHORITY, CollateralType::SOL, 11, 12, 13, u64::MAX)
        .unwrap();
    p.total_deposited = u64::MAX;
    p.total_value_usd = 77;
    let reading = PriceData {
        price: 1_000_000,
        confidence: 0,
        timestamp: 990,
        is_valid: true,
    };
    assert_eq!(
        update_oracle_price(&mut p, &reading, 0, 1_000),
        Err(ErrorCode::MathOverflow)
    );
    assert_eq!(p.total_value_usd, 77);
}

// Health factors and liquidatability on concrete values.
#[test]
fn health_factor_values() {
    let u = UserPosition {
        owner: 5,
        collateral_deposited: 500_000,
        stablecoin_minted: 300_000,
        last_update_timestamp: 0,
        collateral_pool: Some(CollateralPoolPosition {
            pool: 11,
            amount: 500_000,
            value_usd: 330_000,
        }),
    };
    assert_eq!(u.calculate_health_factor(330_000), 11_000);
    assert!(u.is_liquidatable(12_000));
    assert_eq!(u.calculate_health_factor(375_000), 12_500);

    // A debt-free position divides by one instead of zero.
    let free = UserPosition {
        stablecoin_minted: 0,
        ..u
    };
    assert_eq!(free.calculate_health_factor(100), 1_000_000);
    // The health factor saturates rather than overflowing.
    assert_eq!(free.calculate_health_factor(u64::MAX), u64::MAX);
}

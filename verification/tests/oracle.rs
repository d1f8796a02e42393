//! Tests of the price oracle component.

use stellend::oracle::PriceOracle;
use stellend::{Asset, Error};

const PRICE_SCALE: i128 = 10_000_000;

#[test]
fn oracle_lib_test_initialize() {
    let admin: u64 = 1;
    let oracle = PriceOracle::initialize(admin, 1000);

    assert_eq!(oracle.get_admin(), admin);
    assert_eq!(oracle.get_usdc_price(), PRICE_SCALE); // $1.00
    assert_eq!(oracle.get_xlm_price(), 0); // Not set yet
}

#[test]
fn test_set_and_get_price() {
    let admin: u64 = 1;
    let mut oracle = PriceOracle::initialize(admin, 1000);

    // Set XLM price to $0.30
    oracle.set_price(Asset::Xlm, 3_000_000, 1000).unwrap();

    assert_eq!(oracle.get_xlm_price(), 3_000_000);
    assert_eq!(oracle.get_price(Asset::Xlm), 3_000_000);
}

#[test]
fn test_set_prices_batch() {
    let admin: u64 = 1;
    let mut oracle = PriceOracle::initialize(admin, 1000);

    // Set both prices at once
    oracle.set_prices(3_000_000, 10_000_000, 1000).unwrap();

    assert_eq!(oracle.get_xlm_price(), 3_000_000);
    assert_eq!(oracle.get_usdc_price(), 10_000_000);

    let (xlm, usdc) = oracle.get_all_prices();
    assert_eq!(xlm, 3_000_000);
    assert_eq!(usdc, 10_000_000);
}

#[test]
fn test_crash_price() {
    let admin: u64 = 1;
    let mut oracle = PriceOracle::initialize(admin, 1000);

    // Set XLM to $0.30
    oracle.set_price(Asset::Xlm, 3_000_000, 1000).unwrap();
    assert_eq!(oracle.get_xlm_price(), 3_000_000);

    // Crash it (50% drop)
    oracle.crash_price(Asset::Xlm, 1000).unwrap();
    assert_eq!(oracle.get_xlm_price(), 1_500_000); // $0.15
}

#[test]
fn test_xlm_to_usd_conversion() {
    let admin: u64 = 1;
    let mut oracle = PriceOracle::initialize(admin, 1000);

    // Set XLM to $0.30
    oracle.set_price(Asset::Xlm, 3_000_000, 1000).unwrap();

    // 100 XLM = $30
    let xlm_amount: i128 = 100 * PRICE_SCALE;
    let usd_value = oracle.xlm_to_usd(xlm_amount);
    assert_eq!(usd_value, 30 * PRICE_SCALE);
}

#[test]
fn test_usd_to_xlm_conversion() {
    let admin: u64 = 1;
    let mut oracle = PriceOracle::initialize(admin, 1000);

    // Set XLM to $0.30
    oracle.set_price(Asset::Xlm, 3_000_000, 1000).unwrap();

    // $30 = 100 XLM
    let usd_amount: i128 = 30 * PRICE_SCALE;
    let xlm_value = oracle.usd_to_xlm(usd_amount).unwrap();
    assert_eq!(xlm_value, 100 * PRICE_SCALE);
}

#[test]
fn test_zero_price_rejected() {
    let admin: u64 = 1;
    let mut oracle = PriceOracle::initialize(admin, 1000);

    assert_eq!(oracle.set_price(Asset::Xlm, 0, 1000), Err(Error::InvalidParameter));
    assert_eq!(oracle.set_price(Asset::Xlm, -5, 1000), Err(Error::InvalidParameter));
    // The rejected write left nothing behind
    assert_eq!(oracle.get_xlm_price(), 0);
}

#[test]
fn test_unset_price_fails_closed() {
    let admin: u64 = 1;
    let mut oracle = PriceOracle::initialize(admin, 1000);

    // The collateral asset's price starts unset: every consumer fails closed
    assert_eq!(oracle.get_price_safe(Asset::Xlm, 1000), Err(Error::PriceUnavailable));
    assert_eq!(oracle.usd_to_xlm(30 * PRICE_SCALE), Err(Error::PriceUnavailable));
    assert_eq!(oracle.crash_price(Asset::Xlm, 1000), Err(Error::PriceUnavailable));
    assert_eq!(oracle.xlm_to_usd(100 * PRICE_SCALE), 0);
}

#[test]
fn test_staleness() {
    let admin: u64 = 1;
    let mut oracle = PriceOracle::initialize(admin, 1000);
    oracle.set_price(Asset::Xlm, 3_000_000, 1000).unwrap();

    // Fresh within the default hour
    assert!(!oracle.is_stale(Asset::Xlm, 1000 + 3600));
    assert_eq!(oracle.get_price_safe(Asset::Xlm, 1000 + 3600), Ok(3_000_000));

    // Stale one second past the threshold
    assert!(oracle.is_stale(Asset::Xlm, 1000 + 3601));
    assert_eq!(oracle.get_price_safe(Asset::Xlm, 1000 + 3601), Err(Error::PriceStale));

    // A shorter threshold makes it stale sooner
    oracle.set_staleness_threshold(60);
    assert_eq!(oracle.get_staleness_threshold(), 60);
    assert!(oracle.is_stale(Asset::Xlm, 1061 + 1));
    assert_eq!(oracle.get_last_update(Asset::Xlm), 1000);
}

#[test]
fn test_admin_handover() {
    let admin: u64 = 1;
    let mut oracle = PriceOracle::initialize(admin, 1000);

    oracle.set_admin(7);
    assert_eq!(oracle.get_admin(), 7);
}

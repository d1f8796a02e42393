//! Tests of the lending pool: supply, withdraw, collateral, borrow,
//! repay, accrual and liquidation.

use stellend::pool::LendingPool;
use stellend::valuation::Prices;
use stellend::{Asset, Error};

const SCALE: i128 = 10_000_000;

/// The clock the scenarios start at.
const T0: u64 = 1000;

/// A fresh pool and the identities the scenarios use.
fn setup_pool() -> (LendingPool, u64) {
    let pool = LendingPool::initialize(T0);
    let user: u64 = 2;
    (pool, user)
}

#[test]
fn test_test_initialize() {
    let pool = LendingPool::initialize(T0);

    // Check markets are initialized
    let xlm_ltv = pool.get_ltv_ratio(Asset::Xlm);
    let usdc_ltv = pool.get_ltv_ratio(Asset::Usdc);

    assert_eq!(xlm_ltv, 7_500_000); // 75%
    assert_eq!(usdc_ltv, 8_000_000); // 80%
}

#[test]
fn test_supply() {
    let (mut pool, user) = setup_pool();

    let supply_amount: i128 = 1_000_000_000; // 100 USDC

    // Supply USDC
    let shares = pool.supply(user, Asset::Usdc, supply_amount, T0).unwrap();

    // Check shares were minted (1:1 initially)
    assert!(shares > 0);
    assert_eq!(shares, supply_amount); // Initial exchange rate is 1:1

    // Check pool state
    let total_supply = pool.get_total_supply(Asset::Usdc);
    assert_eq!(total_supply, supply_amount);

    let user_shares = pool.get_user_shares(user, Asset::Usdc);
    assert_eq!(user_shares, shares);
}

#[test]
fn test_withdraw() {
    let (mut pool, user) = setup_pool();

    let supply_amount: i128 = 1_000_000_000; // 100 USDC

    // Supply first
    let shares = pool.supply(user, Asset::Usdc, supply_amount, T0).unwrap();

    // Withdraw all shares
    let withdrawn = pool.withdraw(user, Asset::Usdc, shares, T0).unwrap();

    // Check amount withdrawn
    assert_eq!(withdrawn, supply_amount);

    // Check pool state
    let total_supply = pool.get_total_supply(Asset::Usdc);
    assert_eq!(total_supply, 0);

    let user_shares = pool.get_user_shares(user, Asset::Usdc);
    assert_eq!(user_shares, 0);
}

#[test]
fn test_deposit_collateral() {
    let (mut pool, user) = setup_pool();

    let collateral_amount: i128 = 10_000_000_000; // 1000 XLM

    // Deposit collateral
    let deposited = pool.deposit_collateral(user, Asset::Xlm, collateral_amount).unwrap();

    assert_eq!(deposited, collateral_amount);

    // Check user collateral
    let user_collateral = pool.get_user_collateral(user, Asset::Xlm);
    assert_eq!(user_collateral, collateral_amount);
}

#[test]
fn test_borrow() {
    let (mut pool, user) = setup_pool();
    let prices = Prices::fallback();

    // First, supply USDC to the pool (so there's liquidity to borrow)
    let supply_amount: i128 = 100_000_000_000; // 10,000 USDC
    pool.supply(user, Asset::Usdc, supply_amount, T0).unwrap();

    // Deposit XLM as collateral
    let collateral_amount: i128 = 10_000_000_000; // 1000 XLM
    pool.deposit_collateral(user, Asset::Xlm, collateral_amount).unwrap();

    // Check position before borrow
    let position = pool.get_user_position(user, prices);
    assert!(position.collateral_value_usd > 0);
    assert!(position.available_borrow_usd > 0);

    // Borrow USDC (within LTV limit)
    // With 1000 XLM at $0.30 = $300 collateral
    // At 75% LTV, max borrow = $225
    let borrow_amount: i128 = 200_000_000; // 20 USDC (well within limit)

    let borrowed = pool.borrow(user, Asset::Usdc, borrow_amount, prices, T0).unwrap();

    assert_eq!(borrowed, borrow_amount);

    // Check debt recorded
    let user_debt = pool.get_user_debt(user, Asset::Usdc);
    assert_eq!(user_debt, borrow_amount);

    // Check position after borrow
    let position_after = pool.get_user_position(user, prices);
    assert!(position_after.debt_value_usd > 0);
    assert!(position_after.available_borrow_usd < position.available_borrow_usd);
}

#[test]
fn test_borrow_exceeds_ltv() {
    let (mut pool, user) = setup_pool();
    let prices = Prices::fallback();

    // Supply USDC to pool
    let supply_amount: i128 = 100_000_000_000;
    pool.supply(user, Asset::Usdc, supply_amount, T0).unwrap();

    // Deposit small collateral
    let collateral_amount: i128 = 1_000_000_000; // 100 XLM = $30 collateral
    pool.deposit_collateral(user, Asset::Xlm, collateral_amount).unwrap();

    // Try to borrow more than LTV allows (max ~$22.50)
    let borrow_amount: i128 = 500_000_000; // 50 USDC = $50 (exceeds limit)
    let result = pool.borrow(user, Asset::Usdc, borrow_amount, prices, T0);
    assert_eq!(result, Err(Error::LtvExceeded));
}

#[test]
fn test_repay() {
    let (mut pool, user) = setup_pool();
    let prices = Prices::fallback();

    // Setup: supply, deposit collateral, borrow
    pool.supply(user, Asset::Usdc, 100_000_000_000, T0).unwrap();
    pool.deposit_collateral(user, Asset::Xlm, 10_000_000_000).unwrap();
    let borrow_amount: i128 = 200_000_000;
    pool.borrow(user, Asset::Usdc, borrow_amount, prices, T0).unwrap();

    // Repay half
    let repay_amount: i128 = 100_000_000;
    let repaid = pool.repay(user, Asset::Usdc, repay_amount, T0).unwrap();

    assert_eq!(repaid, repay_amount);

    // Check debt decreased
    let remaining_debt = pool.get_user_debt(user, Asset::Usdc);
    assert_eq!(remaining_debt, borrow_amount - repay_amount);
}

#[test]
fn test_repay_full() {
    let (mut pool, user) = setup_pool();
    let prices = Prices::fallback();

    // Setup: supply, deposit collateral, borrow
    pool.supply(user, Asset::Usdc, 100_000_000_000, T0).unwrap();
    pool.deposit_collateral(user, Asset::Xlm, 10_000_000_000).unwrap();
    let borrow_amount: i128 = 200_000_000;
    pool.borrow(user, Asset::Usdc, borrow_amount, prices, T0).unwrap();

    // Repay more than owed (should cap at debt)
    let repay_amount: i128 = 500_000_000;
    let repaid = pool.repay(user, Asset::Usdc, repay_amount, T0).unwrap();

    // Should only repay actual debt
    assert_eq!(repaid, borrow_amount);

    // Debt should be zero
    let remaining_debt = pool.get_user_debt(user, Asset::Usdc);
    assert_eq!(remaining_debt, 0);
}

#[test]
fn test_withdraw_collateral() {
    let (mut pool, user) = setup_pool();
    let prices = Prices::fallback();

    let collateral_amount: i128 = 10_000_000_000;
    pool.deposit_collateral(user, Asset::Xlm, collateral_amount).unwrap();

    // Withdraw half (no debt, should succeed)
    let withdraw_amount: i128 = 5_000_000_000;
    let withdrawn = pool.withdraw_collateral(user, Asset::Xlm, withdraw_amount, prices).unwrap();

    assert_eq!(withdrawn, withdraw_amount);

    // Check collateral decreased
    let remaining = pool.get_user_collateral(user, Asset::Xlm);
    assert_eq!(remaining, collateral_amount - withdraw_amount);
}

#[test]
fn test_get_market_info() {
    let (mut pool, user) = setup_pool();
    let prices = Prices::fallback();

    // Supply and borrow
    pool.supply(user, Asset::Usdc, 1_000_000_000, T0).unwrap();
    pool.deposit_collateral(user, Asset::Xlm, 10_000_000_000).unwrap();
    pool.borrow(user, Asset::Usdc, 200_000_000, prices, T0).unwrap();

    let market_info = pool.get_market_info(Asset::Usdc);

    assert_eq!(market_info.total_supply, 1_000_000_000);
    assert_eq!(market_info.total_borrow, 200_000_000);
    assert!(market_info.utilization_rate > 0);
    assert_eq!(market_info.ltv_ratio, 8_000_000); // 80%
}

#[test]
fn test_get_user_position() {
    let (mut pool, user) = setup_pool();
    let prices = Prices::fallback();

    // Deposit collateral
    pool.deposit_collateral(user, Asset::Xlm, 10_000_000_000).unwrap(); // 1000 XLM

    let position = pool.get_user_position(user, prices);

    // 1000 XLM at $0.30 = $300 collateral
    assert!(position.collateral_value_usd > 0);
    assert_eq!(position.debt_value_usd, 0);
    assert!(position.available_borrow_usd > 0);
    assert_eq!(position.health_factor, 999 * SCALE); // Infinite when no debt
}

#[test]
fn test_borrow_rate_zero_utilization() {
    let (pool, _user) = setup_pool();

    // No borrows, utilization = 0%
    let borrow_rate = pool.get_borrow_rate(Asset::Usdc);
    assert_eq!(borrow_rate, 0); // 0% when no utilization
}

#[test]
fn test_borrow_rate_with_utilization() {
    let (mut pool, user) = setup_pool();
    let prices = Prices::fallback();

    // Supply USDC and borrow to create 20% utilization
    pool.supply(user, Asset::Usdc, 1_000_000_000, T0).unwrap(); // 100 USDC
    pool.deposit_collateral(user, Asset::Xlm, 10_000_000_000).unwrap(); // 1000 XLM
    pool.borrow(user, Asset::Usdc, 200_000_000, prices, T0).unwrap(); // 20 USDC (20% util)

    let market_info = pool.get_market_info(Asset::Usdc);

    // Utilization should be 20% (2_000_000 scaled)
    assert_eq!(market_info.utilization_rate, 2_000_000);

    // Borrow rate at 20% utilization:
    // rate = 0% + (20% / 80%) * 4% = 1%
    assert_eq!(market_info.borrow_rate, 100_000); // 1%

    // Supply rate = borrow_rate * utilization * (1 - reserve_factor)
    // = 1% * 20% * 90% = 0.18%
    assert!(market_info.supply_rate > 0);
}

#[test]
fn test_interest_accrual() {
    // Verifies that the borrow index increases when time passes
    let (mut pool, user) = setup_pool();
    let prices = Prices::fallback();

    // Setup: supply and borrow
    pool.supply(user, Asset::Usdc, 1_000_000_000, T0).unwrap(); // 100 USDC
    pool.deposit_collateral(user, Asset::Xlm, 10_000_000_000).unwrap();
    pool.borrow(user, Asset::Usdc, 200_000_000, prices, T0).unwrap(); // 20 USDC

    let initial_borrow_index = pool.get_borrow_index(Asset::Usdc);

    // Advance time by 30 days (2,592,000 seconds) and trigger accrual by
    // supplying a little more USDC
    let later = T0 + 2_592_000;
    pool.supply(user, Asset::Usdc, 1_000_000, later).unwrap(); // Small supply

    // Check that borrow index increased (interest accrued)
    let new_borrow_index = pool.get_borrow_index(Asset::Usdc);
    assert!(new_borrow_index > initial_borrow_index, "Borrow index should increase with time");

    // Get market info to verify rates are calculated
    let market_info = pool.get_market_info(Asset::Usdc);
    assert!(market_info.borrow_rate > 0, "Borrow rate should be positive");
    assert!(market_info.utilization_rate > 0, "Utilization should be positive");
}

#[test]
fn test_market_info_includes_rates() {
    let (mut pool, user) = setup_pool();
    let prices = Prices::fallback();

    // Create 80% utilization (optimal point)
    pool.supply(user, Asset::Usdc, 1_000_000_000, T0).unwrap(); // 100 USDC
    pool.deposit_collateral(user, Asset::Xlm, 100_000_000_000).unwrap(); // 10000 XLM
    pool.borrow(user, Asset::Usdc, 800_000_000, prices, T0).unwrap(); // 80 USDC (80% util)

    let market_info = pool.get_market_info(Asset::Usdc);

    // At 80% utilization (optimal):
    // Borrow rate = 0% + (80%/80%) * 4% = 4%
    assert_eq!(market_info.utilization_rate, 8_000_000); // 80%
    assert_eq!(market_info.borrow_rate, 400_000); // 4%

    // Supply rate = 4% * 80% * 90% = 2.88%
    assert!(market_info.supply_rate > 0);
    assert!(market_info.supply_rate < market_info.borrow_rate);
}

#[test]
fn test_get_health_factor() {
    let (mut pool, user) = setup_pool();
    let prices = Prices::fallback();

    // User with no debt should have infinite health factor
    let hf = pool.get_health_factor(user, prices);
    assert_eq!(hf, 999 * 10_000_000); // 999 * SCALE

    // Setup: deposit collateral and borrow
    pool.supply(user, Asset::Usdc, 1_000_000_000, T0).unwrap(); // 100 USDC
    pool.deposit_collateral(user, Asset::Xlm, 10_000_000_000).unwrap(); // 1000 XLM = $300
    pool.borrow(user, Asset::Usdc, 200_000_000, prices, T0).unwrap(); // 20 USDC = $20

    // Health factor = (collateral * liq_threshold) / debt
    // = ($300 * 0.8) / $20 = $240 / $20 = 12.0
    let hf = pool.get_health_factor(user, prices);
    assert!(hf > 10_000_000); // HF > 1.0 (safe)
}

#[test]
fn test_liquidate_healthy_position_fails() {
    let (mut pool, user) = setup_pool();
    let prices = Prices::fallback();
    let liquidator: u64 = 9;

    // Setup: deposit collateral and borrow (healthy position)
    pool.supply(user, Asset::Usdc, 1_000_000_000, T0).unwrap(); // 100 USDC
    pool.deposit_collateral(user, Asset::Xlm, 10_000_000_000).unwrap(); // 1000 XLM
    pool.borrow(user, Asset::Usdc, 200_000_000, prices, T0).unwrap(); // 20 USDC

    // Health factor should be > 1.0
    let hf = pool.get_health_factor(user, prices);
    assert!(hf > 10_000_000);

    // Try to liquidate - must fail because the position is healthy
    let result = pool.liquidate(
        liquidator,
        user,
        Asset::Usdc,
        100_000_000, // 10 USDC
        Asset::Xlm,
        prices,
        T0,
    );
    assert_eq!(result, Err(Error::PositionHealthy));
}

#[test]
fn test_liquidate_function_exists() {
    let (mut pool, user) = setup_pool();
    let prices = Prices::fallback();

    // Setup: deposit collateral and supply
    pool.deposit_collateral(user, Asset::Xlm, 10_000_000_000).unwrap(); // 1000 XLM = $300
    pool.supply(user, Asset::Usdc, 1_000_000_000, T0).unwrap(); // 100 USDC

    // Check health factor (no debt = infinite HF)
    let hf = pool.get_health_factor(user, prices);
    assert_eq!(hf, 999 * 10_000_000); // No debt = infinite HF

    // Verify liquidation threshold is set correctly
    let xlm_liq_threshold = pool.get_liquidation_threshold(Asset::Xlm);
    assert_eq!(xlm_liq_threshold, 8_000_000); // 80%
}

#[test]
fn test_liquidation_constants() {
    let (mut pool, user) = setup_pool();

    // Create a position to verify liquidation threshold is set
    pool.deposit_collateral(user, Asset::Xlm, 10_000_000_000).unwrap(); // 1000 XLM

    // Check liquidation threshold exists
    let xlm_liq_threshold = pool.get_liquidation_threshold(Asset::Xlm);
    assert_eq!(xlm_liq_threshold, 8_000_000); // 80%

    let usdc_liq_threshold = pool.get_liquidation_threshold(Asset::Usdc);
    assert_eq!(usdc_liq_threshold, 8_500_000); // 85%
}

#[test]
fn test_liquidation_bound_and_seizure() {
    // An underwater position: the requested repay is capped at half the
    // debt, and the seized collateral follows the bonus formula exactly.
    let (mut pool, user) = setup_pool();
    let supplier: u64 = 3;
    let liquidator: u64 = 9;
    let prices = Prices::fallback(); // XLM $0.30, USDC $1.00

    pool.supply(supplier, Asset::Usdc, 100_000_000_000, T0).unwrap();
    pool.deposit_collateral(user, Asset::Xlm, 10_000_000_000).unwrap(); // $300
    pool.borrow(user, Asset::Usdc, 2_000_000_000, prices, T0).unwrap(); // $200

    // The collateral price halves: HF = 150 * 0.8 / 200 = 0.6 < 1
    let crashed = Prices { xlm: 1_500_000, usdc: SCALE };
    assert!(pool.get_health_factor(user, crashed) < SCALE);

    // Request far more than the close factor allows: debt $200, cap $100
    let seized = pool
        .liquidate(liquidator, user, Asset::Usdc, 1_500_000_000, Asset::Xlm, crashed, T0)
        .unwrap();

    // Seized = repay_value * 1.05 / collateral_price
    //        = (1_000_000_000 * 1.05) / 0.15 = 7_000_000_000
    assert_eq!(seized, 7_000_000_000);

    // Half the debt was repaid: principal and total borrows fall by $100
    assert_eq!(pool.get_user_debt(user, Asset::Usdc), 1_000_000_000);
    assert_eq!(pool.get_total_borrow(Asset::Usdc), 1_000_000_000);

    // The borrower's collateral shrank by the seizure
    assert_eq!(pool.get_user_collateral(user, Asset::Xlm), 3_000_000_000);
}

#[test]
fn test_accrual_noop_and_zero_activity() {
    let (mut pool, user) = setup_pool();
    let prices = Prices::fallback();

    pool.supply(user, Asset::Usdc, 1_000_000_000, T0).unwrap();
    pool.deposit_collateral(user, Asset::Xlm, 10_000_000_000).unwrap();
    pool.borrow(user, Asset::Usdc, 200_000_000, prices, T0).unwrap();

    // Accrual at the same clock changes nothing
    let before = pool.get_market_info(Asset::Usdc);
    pool.accrue_interest(Asset::Usdc, T0);
    let after = pool.get_market_info(Asset::Usdc);
    assert_eq!(before, after);
    assert_eq!(pool.usdc_market.last_accrual_time, T0);

    // A market without borrows only advances its clock
    let xlm_index = pool.get_borrow_index(Asset::Xlm);
    let xlm_supply = pool.get_total_supply(Asset::Xlm);
    pool.accrue_interest(Asset::Xlm, T0 + 2_592_000);
    assert_eq!(pool.get_borrow_index(Asset::Xlm), xlm_index);
    assert_eq!(pool.get_total_supply(Asset::Xlm), xlm_supply);
    assert_eq!(pool.xlm_market.last_accrual_time, T0 + 2_592_000);
}

#[test]
fn test_accrual_exact_one_year() {
    // One year at 20% utilization: the annual rate is 1%, so the borrow
    // index grows by exactly 1% and the interest splits 90/10.
    let (mut pool, user) = setup_pool();
    let prices = Prices::fallback();

    pool.supply(user, Asset::Usdc, 1_000_000_000, T0).unwrap();
    pool.deposit_collateral(user, Asset::Xlm, 10_000_000_000).unwrap();
    pool.borrow(user, Asset::Usdc, 200_000_000, prices, T0).unwrap();

    let one_year = T0 + 31_557_600;
    pool.accrue_interest(Asset::Usdc, one_year);

    // interest_factor = 1% exactly; index: 1e9 + 1e9 * 1% = 1_010_000_000
    assert_eq!(pool.get_borrow_index(Asset::Usdc), 1_010_000_000);
    // interest accrued = 200_000_000 * 1% = 2_000_000;
    // reserves take 10%, suppliers the rest
    assert_eq!(pool.get_total_supply(Asset::Usdc), 1_000_000_000 + 1_800_000);
    assert_eq!(pool.usdc_market.total_reserves, 200_000);
    // the borrower's interest-inclusive debt grew by 1%
    assert_eq!(pool.get_user_debt_total(user, Asset::Usdc), 202_000_000);
}

#[test]
fn test_supply_withdraw_round_trip_scenario() {
    // Supply 100,000,000 units at 1:1 => 100,000,000 shares; withdrawing
    // them immediately returns exactly the amount supplied.
    let (mut pool, user) = setup_pool();

    let shares = pool.supply(user, Asset::Usdc, 100_000_000, T0).unwrap();
    assert_eq!(shares, 100_000_000);
    assert_eq!(pool.get_exchange_rate(Asset::Usdc), 1_000_000_000);

    let back = pool.withdraw(user, Asset::Usdc, shares, T0).unwrap();
    assert_eq!(back, 100_000_000);
}

#[test]
fn test_ltv_scenario_boundary() {
    // Collateral 1,000 units at $0.30 with 75% LTV: weighted headroom is
    // 225; borrowing 226 fails, borrowing 225 succeeds and leaves the
    // position healthy.
    let (mut pool, user) = setup_pool();
    let supplier: u64 = 3;
    let prices = Prices::fallback();

    let shares = pool.supply(supplier, Asset::Usdc, 100_000_000, T0).unwrap();
    assert_eq!(shares, 100_000_000);
    pool.deposit_collateral(user, Asset::Xlm, 1_000).unwrap();

    let position = pool.get_user_position(user, prices);
    assert_eq!(position.collateral_value_usd, 300);
    assert_eq!(position.available_borrow_usd, 225);

    assert_eq!(pool.borrow(user, Asset::Usdc, 226, prices, T0), Err(Error::LtvExceeded));

    pool.borrow(user, Asset::Usdc, 225, prices, T0).unwrap();
    let position = pool.get_user_position(user, prices);
    assert!(position.debt_value_usd > 0);
    let hf = pool.get_health_factor(user, prices);
    assert!(hf >= SCALE);
    assert!(hf < 999 * SCALE);
}

#[test]
fn test_supply_rejects_bad_amounts() {
    let (mut pool, user) = setup_pool();

    assert_eq!(pool.supply(user, Asset::Usdc, 0, T0), Err(Error::InvalidParameter));
    assert_eq!(pool.supply(user, Asset::Usdc, -5, T0), Err(Error::InvalidParameter));
    assert_eq!(pool.get_total_supply(Asset::Usdc), 0);
}

#[test]
fn test_withdraw_insufficient_shares() {
    let (mut pool, user) = setup_pool();

    pool.supply(user, Asset::Usdc, 1_000_000_000, T0).unwrap();
    assert_eq!(
        pool.withdraw(user, Asset::Usdc, 1_000_000_001, T0),
        Err(Error::InsufficientShareBalance)
    );
}

#[test]
fn test_withdraw_insufficient_liquidity() {
    let (mut pool, user) = setup_pool();
    let prices = Prices::fallback();

    pool.supply(user, Asset::Usdc, 1_000_000_000, T0).unwrap();
    pool.deposit_collateral(user, Asset::Xlm, 100_000_000_000).unwrap();
    pool.borrow(user, Asset::Usdc, 800_000_000, prices, T0).unwrap();

    // 800 of 1000 is out on loan; the full withdrawal cannot be served
    assert_eq!(
        pool.withdraw(user, Asset::Usdc, 1_000_000_000, T0),
        Err(Error::InsufficientLiquidity)
    );
}

#[test]
fn test_borrow_insufficient_liquidity() {
    let (mut pool, user) = setup_pool();
    let prices = Prices::fallback();

    pool.supply(user, Asset::Usdc, 1_000, T0).unwrap();
    pool.deposit_collateral(user, Asset::Xlm, 100_000_000_000).unwrap();

    assert_eq!(
        pool.borrow(user, Asset::Usdc, 2_000, prices, T0),
        Err(Error::InsufficientLiquidity)
    );
}

#[test]
fn test_borrow_disabled_asset() {
    let (mut pool, user) = setup_pool();
    let prices = Prices::fallback();

    pool.deposit_collateral(user, Asset::Xlm, 100_000_000_000).unwrap();
    // The collateral asset is not enabled for borrowing
    assert_eq!(
        pool.borrow(user, Asset::Xlm, 1_000, prices, T0),
        Err(Error::AssetNotEnabled)
    );
}

#[test]
fn test_repay_without_debt() {
    let (mut pool, user) = setup_pool();

    assert_eq!(pool.repay(user, Asset::Usdc, 1_000, T0), Err(Error::NoDebt));
    assert_eq!(pool.repay(user, Asset::Usdc, 0, T0), Err(Error::InvalidParameter));
}

#[test]
fn test_unhealthy_collateral_withdrawal_rejected() {
    let (mut pool, user) = setup_pool();
    let prices = Prices::fallback();

    pool.supply(user, Asset::Usdc, 100_000_000_000, T0).unwrap();
    pool.deposit_collateral(user, Asset::Xlm, 10_000_000_000).unwrap(); // $300
    pool.borrow(user, Asset::Usdc, 2_000_000_000, prices, T0).unwrap(); // $200

    // Pulling most of the collateral would drop HF below 1:
    // remaining $30 * 0.8 / $200 << 1
    assert_eq!(
        pool.withdraw_collateral(user, Asset::Xlm, 9_000_000_000, prices),
        Err(Error::UnhealthyWithdrawal)
    );
    // More than the balance is a different failure
    assert_eq!(
        pool.withdraw_collateral(user, Asset::Xlm, 10_000_000_001, prices),
        Err(Error::InsufficientCollateral)
    );
    // The rejected withdrawals left the collateral in place
    assert_eq!(pool.get_user_collateral(user, Asset::Xlm), 10_000_000_000);
}

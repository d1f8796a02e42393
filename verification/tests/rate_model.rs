//! Tests of the interest-rate curves.

use stellend::rate::{InterestRateModel, RateCurve, TwoSlopeModel};
use stellend::Error;

#[test]
fn lib_test_initialize() {
    // R_min=0%, R_opt=4%, R_max=100%, U*=80%
    let model = InterestRateModel::initialize(0, 400_000, 10_000_000, 8_000_000).unwrap();

    assert_eq!(model.get_rate_min(), 0);
    assert_eq!(model.get_rate_opt(), 400_000);
    assert_eq!(model.get_rate_max(), 10_000_000);
    assert_eq!(model.get_optimal_utilization(), 8_000_000);
}

#[test]
fn test_initialize_default() {
    let model = InterestRateModel::initialize_default();

    assert_eq!(model.get_rate_min(), 0);
    assert_eq!(model.get_rate_opt(), 400_000); // 4%
    assert_eq!(model.get_rate_max(), 10_000_000); // 100%
    assert_eq!(model.get_optimal_utilization(), 8_000_000); // 80%
}

#[test]
fn test_rate_at_zero_utilization() {
    let model = InterestRateModel::initialize_default();

    // At 0% utilization, rate should be 0
    let rate = model.get_borrow_rate(0);
    assert_eq!(rate, 0);
}

#[test]
fn test_rate_at_optimal_utilization() {
    let model = InterestRateModel::initialize_default();

    // At 80% utilization (optimal), rate should be R_opt = 4%
    let rate = model.get_borrow_rate(8_000_000);
    assert_eq!(rate, 400_000); // 4%
}

#[test]
fn test_rate_below_optimal() {
    let model = InterestRateModel::initialize_default();

    // At 40% utilization (half of optimal)
    // Rate = R_opt * (40% / 80%) = 4% * 0.5 = 2%
    let rate = model.get_borrow_rate(4_000_000);
    assert_eq!(rate, 200_000); // 2%

    // At 60% utilization
    // Rate = R_opt * (60% / 80%) = 4% * 0.75 = 3%
    let rate = model.get_borrow_rate(6_000_000);
    assert_eq!(rate, 300_000); // 3%
}

#[test]
fn test_rate_above_optimal_zone2() {
    let model = InterestRateModel::initialize_default();

    // At 85% utilization (end of zone 2)
    // ΔR = 100% - 4% = 96%, 5% of that = 4.8%
    // Total = 4% + 4.8% = 8.8% = 880_000
    let rate = model.get_borrow_rate(8_500_000);
    assert_eq!(rate, 880_000); // ~8.8%
}

#[test]
fn test_rate_at_90_percent() {
    let model = InterestRateModel::initialize_default();

    // At 90% utilization (end of zone 3)
    // R_opt + (5% + 10%) of ΔR = 4% + 15% * 96% = 4% + 14.4% = 18.4%
    let rate = model.get_borrow_rate(9_000_000);
    assert_eq!(rate, 1_840_000); // 18.4%
}

#[test]
fn test_rate_at_95_percent() {
    let model = InterestRateModel::initialize_default();

    // At 95% utilization (end of zone 4)
    // R_opt + (5% + 10% + 15%) of ΔR = 4% + 30% * 96% = 4% + 28.8% = 32.8%
    let rate = model.get_borrow_rate(9_500_000);
    assert_eq!(rate, 3_280_000); // 32.8%
}

#[test]
fn test_rate_at_99_percent() {
    let model = InterestRateModel::initialize_default();

    // At 99% utilization (end of zone 5)
    // R_opt + (5% + 10% + 15% + 20%) of ΔR = 4% + 50% * 96% = 4% + 48% = 52%
    let rate = model.get_borrow_rate(9_900_000);
    assert_eq!(rate, 5_200_000); // 52%
}

#[test]
fn test_rate_at_100_percent() {
    let model = InterestRateModel::initialize_default();

    // At 100% utilization (max)
    // R_opt + 100% of ΔR = 4% + 96% = 100%
    let rate = model.get_borrow_rate(10_000_000);
    assert_eq!(rate, 10_000_000); // 100%
}

#[test]
fn test_supply_rate() {
    let model = InterestRateModel::initialize_default();

    // At 80% utilization, borrow rate = 4%
    // Supply rate = 4% * 80% * 90% = 2.88%
    let supply_rate = model.get_supply_rate(8_000_000);
    assert_eq!(supply_rate, 288_000); // 2.88%
}

#[test]
fn test_calculate_utilization() {
    // 80 borrowed out of 100 supplied = 80% utilization
    let util = InterestRateModel::calculate_utilization(100, 80);
    assert_eq!(util, 8_000_000); // 80%

    // 0 supplied = 0% utilization
    let util = InterestRateModel::calculate_utilization(0, 80);
    assert_eq!(util, 0);
}

#[test]
fn test_rate_curve_is_monotonic() {
    let model = InterestRateModel::initialize_default();

    // Verify rate always increases with utilization
    let mut prev_rate: i128 = 0;
    for u in (0..=100).step_by(5) {
        let utilization = u * 100_000; // Convert to scaled value
        let rate = model.get_borrow_rate(utilization);
        assert!(rate >= prev_rate, "Rate should be monotonically increasing");
        prev_rate = rate;
    }
}

#[test]
fn test_initialize_rejects_bad_parameters() {
    // Optimal utilization must lie strictly inside (0, 100%)
    assert_eq!(
        InterestRateModel::initialize(0, 400_000, 10_000_000, 0),
        Err(Error::InvalidParameter)
    );
    assert_eq!(
        InterestRateModel::initialize(0, 400_000, 10_000_000, 10_000_000),
        Err(Error::InvalidParameter)
    );
    // Rates must be ordered: min <= opt <= max
    assert_eq!(
        InterestRateModel::initialize(500_000, 400_000, 10_000_000, 8_000_000),
        Err(Error::InvalidParameter)
    );
    assert_eq!(
        InterestRateModel::initialize(0, 400_000, 300_000, 8_000_000),
        Err(Error::InvalidParameter)
    );
    // A negative floor is rejected
    assert_eq!(
        InterestRateModel::initialize(-1, 400_000, 10_000_000, 8_000_000),
        Err(Error::InvalidParameter)
    );
}

#[test]
fn test_two_slope_rates() {
    // base=0, slope1=4%, slope2=75%, U*=80%
    let model = TwoSlopeModel::initialize(0, 400_000, 7_500_000, 8_000_000).unwrap();

    // Below the kink: base + slope1 * u / U*
    assert_eq!(model.get_borrow_rate(4_000_000), 200_000);
    // Above the kink: base + slope1 + slope2 * (u - U*) / (100% - U*)
    assert_eq!(model.get_borrow_rate(9_000_000), 4_150_000);
    assert_eq!(model.get_borrow_rate(10_000_000), 7_900_000);
}

#[test]
fn test_two_slope_is_monotonic() {
    let model = TwoSlopeModel::initialize(0, 400_000, 7_500_000, 8_000_000).unwrap();

    let mut prev_rate: i128 = 0;
    for u in (0..=100).step_by(5) {
        let utilization = u * 100_000;
        let rate = model.get_borrow_rate(utilization);
        assert!(rate >= prev_rate, "Rate should be monotonically increasing");
        prev_rate = rate;
    }
}

#[test]
fn test_rate_curve_interface() {
    // Both variants answer behind the one interface
    let multi = RateCurve::MultiKink(InterestRateModel::initialize_default());
    let two = RateCurve::TwoSlope(TwoSlopeModel::initialize(0, 400_000, 7_500_000, 8_000_000).unwrap());

    assert_eq!(multi.rate(8_000_000), 400_000);
    assert_eq!(two.rate(8_000_000), 400_000);
    assert_eq!(multi.rate(10_000_000), 10_000_000);
    assert_eq!(two.rate(10_000_000), 7_900_000);
}

#[test]
fn test_borrow_rate_per_second() {
    let model = InterestRateModel::initialize_default();

    // 100% annual rate spread over the seconds of a year
    assert_eq!(model.get_borrow_rate_per_second(10_000_000), 10_000_000 / 31_557_600);
    // Small annual rates truncate to zero per second
    assert_eq!(model.get_borrow_rate_per_second(8_000_000), 0);
    assert_eq!(model.get_supply_rate_per_second(8_000_000), 0);
}

#[test]
fn test_parameter_views() {
    let model = InterestRateModel::initialize(100, 400_000, 10_000_000, 8_000_000).unwrap();

    assert_eq!(model.get_parameters(), (100, 400_000, 10_000_000, 8_000_000));
    assert_eq!(model.get_base_rate(), 100);
    assert_eq!(model.get_slope1(), 400_000);
    assert_eq!(model.get_slope2(), 9_600_000);
}

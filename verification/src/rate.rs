//! Interest-rate curves: utilization in, annualized rate out.
//!
//! Two piecewise-linear variants stand behind one interface ([`RateCurve`]):
//!
//! - the multi-kink curve ([`InterestRateModel`]): a linear ramp from 0 to
//!   `rate_opt` over `[0, U*]`, then five zones of increasing slope that
//!   hand out `rate_max - rate_opt` in cumulative fractions 5%, 15%, 30%,
//!   50% and 100% at the zone ends, floored at `rate_min`;
//! - the two-slope curve ([`TwoSlopeModel`]): one kink at `U*`.
//!
//! Both are proved non-decreasing in utilization and bounded by their
//! parameters.

use vstd::prelude::*;
use vstd::arithmetic::div_mod::{
    lemma_div_denominator, lemma_div_is_ordered, lemma_div_multiples_vanish,
    lemma_div_nonincreasing, lemma_div_pos_is_pos, lemma_fundamental_div_mod,
    lemma_mod_division_less_than_divisor,
};
use vstd::arithmetic::mul::{lemma_mul_inequality, lemma_mul_nonnegative, lemma_mul_upper_bound};
use crate::{Error, MAX_BALANCE, MAX_RATE, SCALE, SECONDS_PER_YEAR};

verus! {

/// Utilization at which the second multi-kink zone ends (85%).
pub const U_85: i128 = 8_500_000;
/// Utilization at which the third multi-kink zone ends (90%).
pub const U_90: i128 = 9_000_000;
/// Utilization at which the fourth multi-kink zone ends (95%).
pub const U_95: i128 = 9_500_000;
/// Utilization at which the fifth multi-kink zone ends (99%).
pub const U_99: i128 = 9_900_000;

/// Parameters a multi-kink curve accepts: nonnegative ordered rates within
/// the machine bound, and an optimal utilization strictly inside (0, 100%).
pub open spec fn curve_params_valid(
    rate_min: int,
    rate_opt: int,
    rate_max: int,
    u_opt: int,
) -> bool {
    &&& 0 <= rate_min <= rate_opt <= rate_max <= MAX_RATE
    &&& 0 < u_opt < SCALE
}

/// The multi-kink rate before the `rate_min` floor, as the zone-by-zone
/// sum of the base penalty carried in from earlier zones and the current
/// zone's share, with `delta_r == rate_max - rate_opt`.
pub open spec fn multi_kink_raw(rate_opt: int, delta_r: int, u_opt: int, u: int) -> int {
    if u <= u_opt {
        rate_opt * u / u_opt
    } else if u <= U_85 {
        rate_opt + delta_r * 50 * (u - u_opt) / ((U_85 - u_opt) * 1000)
    } else if u <= U_90 {
        rate_opt + delta_r * 50 / 1000 + delta_r * 100 * (u - U_85) / ((U_90 - U_85) * 1000)
    } else if u <= U_95 {
        rate_opt + delta_r * 150 / 1000 + delta_r * 150 * (u - U_90) / ((U_95 - U_90) * 1000)
    } else if u <= U_99 {
        rate_opt + delta_r * 300 / 1000 + delta_r * 200 * (u - U_95) / ((U_99 - U_95) * 1000)
    } else {
        let progress = if u >= SCALE {
            SCALE - U_99
        } else {
            u - U_99
        };
        rate_opt + delta_r * 500 / 1000 + delta_r * 500 * progress / ((SCALE - U_99) * 1000)
    }
}

/// The multi-kink borrow rate: the raw piecewise rate floored at `rate_min`.
pub open spec fn multi_kink_rate(
    rate_min: int,
    rate_opt: int,
    rate_max: int,
    u_opt: int,
    u: int,
) -> int {
    let raw = multi_kink_raw(rate_opt, rate_max - rate_opt, u_opt, u);
    if raw < rate_min {
        rate_min
    } else {
        raw
    }
}

/// Zone index (1 to 6) of a utilization under the multi-kink boundaries.
pub open spec fn multi_kink_zone(u_opt: int, u: int) -> int {
    if u <= u_opt {
        1
    } else if u <= U_85 {
        2
    } else if u <= U_90 {
        3
    } else if u <= U_95 {
        4
    } else if u <= U_99 {
        5
    } else {
        6
    }
}

/// Cumulative thousandths of `delta_r` handed out by the end of a zone.
pub open spec fn cum_frac(z: int) -> int {
    if z <= 1 {
        0
    } else if z == 2 {
        50
    } else if z == 3 {
        150
    } else if z == 4 {
        300
    } else if z == 5 {
        500
    } else {
        1000
    }
}

/// A zone share `dd * p / (w * 1000)` is nonnegative for nonnegative
/// progress `p`.
proof fn lemma_seg_nonneg(dd: int, p: int, w: int)
    requires
        0 <= dd,
        0 <= p,
        0 < w,
    ensures
        0 <= dd * p / (w * 1000),
{
    lemma_mul_nonnegative(dd, p);
    lemma_div_pos_is_pos(dd * p, w * 1000);
}

/// A zone share grows with progress.
proof fn lemma_seg_mono(dd: int, p1: int, p2: int, w: int)
    requires
        0 <= dd,
        p1 <= p2,
        0 < w,
    ensures
        dd * p1 / (w * 1000) <= dd * p2 / (w * 1000),
{
    lemma_mul_inequality(p1, p2, dd);
    lemma_div_is_ordered(dd * p1, dd * p2, w * 1000);
}

/// A zone share over a full width `w` is at most `dd / 1000`.
proof fn lemma_seg_ub(dd: int, p: int, w: int)
    requires
        0 <= dd,
        p <= w,
        0 < w,
    ensures
        dd * p / (w * 1000) <= dd / 1000,
{
    lemma_mul_inequality(p, w, dd);
    lemma_div_is_ordered(dd * p, dd * w, w * 1000);
    lemma_mul_nonnegative(dd, w);
    lemma_div_denominator(dd * w, w, 1000);
    lemma_div_multiples_vanish(dd, w);
}

/// Truncating division loses against a shared denominator:
/// `a / d + b / d <= (a + b) / d` for nonnegative `a`, `b`.
proof fn lemma_div_add_le(a: int, b: int, d: int)
    requires
        0 <= a,
        0 <= b,
        0 < d,
    ensures
        a / d + b / d <= (a + b) / d,
{
    lemma_fundamental_div_mod(a, d);
    lemma_fundamental_div_mod(b, d);
    lemma_mod_division_less_than_divisor(a, d);
    lemma_mod_division_less_than_divisor(b, d);
    assert(d * (a / d + b / d) == d * (a / d) + d * (b / d)) by {
        vstd::arithmetic::mul::lemma_mul_is_distributive_add(d, a / d, b / d);
    }
    lemma_div_is_ordered(d * (a / d + b / d), a + b, d);
    lemma_div_multiples_vanish(a / d + b / d, d);
}

/// The chain of cumulative zone shares is non-decreasing in the zone.
proof fn lemma_cum_chain(d: int)
    requires
        0 <= d,
    ensures
        0 <= d * 50 / 1000,
        d * 50 / 1000 <= d * 150 / 1000,
        d * 150 / 1000 <= d * 300 / 1000,
        d * 300 / 1000 <= d * 500 / 1000,
        d * 500 / 1000 <= d * 1000 / 1000,
        d * 1000 / 1000 == d,
{
    lemma_div_pos_is_pos(d * 50, 1000);
    lemma_div_is_ordered(d * 50, d * 150, 1000);
    lemma_div_is_ordered(d * 150, d * 300, 1000);
    lemma_div_is_ordered(d * 300, d * 500, 1000);
    lemma_div_is_ordered(d * 500, d * 1000, 1000);
    lemma_div_multiples_vanish(d, 1000);
}

/// Upper bound of the raw rate by the cumulative share of its zone.
proof fn lemma_raw_ub(rate_opt: int, d: int, u_opt: int, u: int)
    requires
        0 <= rate_opt,
        0 <= d,
        0 < u_opt < SCALE,
        0 <= u,
    ensures
        multi_kink_raw(rate_opt, d, u_opt, u) <= rate_opt + d * cum_frac(
            multi_kink_zone(u_opt, u),
        ) / 1000,
{
    if u <= u_opt {
        lemma_mul_inequality(u, u_opt, rate_opt);
        lemma_div_is_ordered(rate_opt * u, rate_opt * u_opt, u_opt);
        lemma_div_multiples_vanish(rate_opt, u_opt);
    } else if u <= U_85 {
        lemma_seg_ub(d * 50, u - u_opt, U_85 - u_opt);
    } else if u <= U_90 {
        lemma_seg_ub(d * 100, u - U_85, U_90 - U_85);
        lemma_div_add_le(d * 50, d * 100, 1000);
    } else if u <= U_95 {
        lemma_seg_ub(d * 150, u - U_90, U_95 - U_90);
        lemma_div_add_le(d * 150, d * 150, 1000);
    } else if u <= U_99 {
        lemma_seg_ub(d * 200, u - U_95, U_99 - U_95);
        lemma_div_add_le(d * 300, d * 200, 1000);
    } else {
        let progress = if u >= SCALE {
            SCALE - U_99
        } else {
            u - U_99
        };
        lemma_seg_ub(d * 500, progress, SCALE - U_99);
        lemma_div_add_le(d * 500, d * 500, 1000);
    }
}

/// Lower bound of the raw rate by the share carried in from earlier zones.
proof fn lemma_raw_lb(rate_opt: int, d: int, u_opt: int, u: int)
    requires
        0 <= rate_opt,
        0 <= d,
        0 < u_opt < SCALE,
        0 <= u,
    ensures
        multi_kink_raw(rate_opt, d, u_opt, u) >= if multi_kink_zone(u_opt, u) == 1 {
            0
        } else {
            rate_opt + d * cum_frac(multi_kink_zone(u_opt, u) - 1) / 1000
        },
{
    lemma_cum_chain(d);
    if u <= u_opt {
        lemma_mul_nonnegative(rate_opt, u);
        lemma_div_pos_is_pos(rate_opt * u, u_opt);
    } else if u <= U_85 {
        lemma_seg_nonneg(d * 50, u - u_opt, U_85 - u_opt);
    } else if u <= U_90 {
        lemma_seg_nonneg(d * 100, u - U_85, U_90 - U_85);
    } else if u <= U_95 {
        lemma_seg_nonneg(d * 150, u - U_90, U_95 - U_90);
    } else if u <= U_99 {
        lemma_seg_nonneg(d * 200, u - U_95, U_99 - U_95);
    } else {
        let progress = if u >= SCALE {
            SCALE - U_99
        } else {
            u - U_99
        };
        lemma_seg_nonneg(d * 500, progress, SCALE - U_99);
    }
}

/// The multi-kink borrow rate is non-decreasing in utilization over
/// `[0, SCALE]`, for every valid parameter set.
pub proof fn lemma_multi_kink_rate_monotonic(
    rate_min: int,
    rate_opt: int,
    rate_max: int,
    u_opt: int,
    u1: int,
    u2: int,
)
    requires
        curve_params_valid(rate_min, rate_opt, rate_max, u_opt),
        0 <= u1 <= u2 <= SCALE,
    ensures
        multi_kink_rate(rate_min, rate_opt, rate_max, u_opt, u1) <= multi_kink_rate(
            rate_min,
            rate_opt,
            rate_max,
            u_opt,
            u2,
        ),
{
    let d = rate_max - rate_opt;
    let z1 = multi_kink_zone(u_opt, u1);
    let z2 = multi_kink_zone(u_opt, u2);
    if z1 == z2 {
        if u1 <= u_opt {
            lemma_mul_inequality(u1, u2, rate_opt);
            lemma_div_is_ordered(rate_opt * u1, rate_opt * u2, u_opt);
        } else if u1 <= U_85 {
            lemma_seg_mono(d * 50, u1 - u_opt, u2 - u_opt, U_85 - u_opt);
        } else if u1 <= U_90 {
            lemma_seg_mono(d * 100, u1 - U_85, u2 - U_85, U_90 - U_85);
        } else if u1 <= U_95 {
            lemma_seg_mono(d * 150, u1 - U_90, u2 - U_90, U_95 - U_90);
        } else if u1 <= U_99 {
            lemma_seg_mono(d * 200, u1 - U_95, u2 - U_95, U_99 - U_95);
        } else {
            let p1 = if u1 >= SCALE {
                SCALE - U_99
            } else {
                u1 - U_99
            };
            let p2 = if u2 >= SCALE {
                SCALE - U_99
            } else {
                u2 - U_99
            };
            lemma_seg_mono(d * 500, p1, p2, SCALE - U_99);
        }
    } else {
        lemma_raw_ub(rate_opt, d, u_opt, u1);
        lemma_raw_lb(rate_opt, d, u_opt, u2);
        lemma_cum_chain(d);
        assert(multi_kink_raw(rate_opt, d, u_opt, u1) <= multi_kink_raw(rate_opt, d, u_opt, u2));
    }
}

/// The multi-kink borrow rate stays between `rate_min` and `rate_max`.
pub proof fn lemma_multi_kink_rate_bounds(
    rate_min: int,
    rate_opt: int,
    rate_max: int,
    u_opt: int,
    u: int,
)
    requires
        curve_params_valid(rate_min, rate_opt, rate_max, u_opt),
        0 <= u,
    ensures
        rate_min <= multi_kink_rate(rate_min, rate_opt, rate_max, u_opt, u) <= rate_max,
{
    let d = rate_max - rate_opt;
    lemma_raw_ub(rate_opt, d, u_opt, u);
    lemma_cum_chain(d);
}

/// Computes the multi-kink borrow rate.
///
/// Mirrors [`multi_kink_rate`] exactly, including the truncation of every
/// intermediate division.
pub fn multi_kink_borrow_rate(
    rate_min: i128,
    rate_opt: i128,
    rate_max: i128,
    u_opt: i128,
    utilization: i128,
) -> (r: i128)
    requires
        curve_params_valid(rate_min as int, rate_opt as int, rate_max as int, u_opt as int),
        0 <= utilization,
    ensures
        r == multi_kink_rate(
            rate_min as int,
            rate_opt as int,
            rate_max as int,
            u_opt as int,
            utilization as int,
        ),
        rate_min <= r <= rate_max,
{
    proof {
        lemma_multi_kink_rate_bounds(
            rate_min as int,
            rate_opt as int,
            rate_max as int,
            u_opt as int,
            utilization as int,
        );
    }
    let delta_r = rate_max - rate_opt;
    let raw_rate = if utilization <= u_opt {
        proof {
            lemma_mul_nonnegative(rate_opt as int, utilization as int);
            lemma_mul_upper_bound(rate_opt as int, MAX_RATE as int, utilization as int, SCALE as int);
        }
        (rate_opt * utilization) / u_opt
    } else if utilization <= U_85 {
        let range = U_85 - u_opt;
        let progress = utilization - u_opt;
        proof {
            lemma_mul_nonnegative(delta_r as int * 50, progress as int);
            lemma_mul_upper_bound(delta_r as int * 50, MAX_RATE as int * 50, progress as int, SCALE as int);
            lemma_div_nonincreasing(delta_r as int * 50 * progress, range as int * 1000);
        }
        let penalty = (delta_r * 50 * progress) / (range * 1000);
        rate_opt + penalty
    } else if utilization <= U_90 {
        let base_penalty = (delta_r * 50) / 1000;
        let range = U_90 - U_85;
        let progress = utilization - U_85;
        proof {
            lemma_div_pos_is_pos(delta_r as int * 50, 1000);
            lemma_div_nonincreasing(delta_r as int * 50, 1000);
            lemma_mul_nonnegative(delta_r as int * 100, progress as int);
            lemma_mul_upper_bound(delta_r as int * 100, MAX_RATE as int * 100, progress as int, SCALE as int);
            lemma_div_nonincreasing(delta_r as int * 100 * progress, range as int * 1000);
        }
        let extra_penalty = (delta_r * 100 * progress) / (range * 1000);
        rate_opt + base_penalty + extra_penalty
    } else if utilization <= U_95 {
        let base_penalty = (delta_r * 150) / 1000;
        let range = U_95 - U_90;
        let progress = utilization - U_90;
        proof {
            lemma_div_pos_is_pos(delta_r as int * 150, 1000);
            lemma_div_nonincreasing(delta_r as int * 150, 1000);
            lemma_mul_nonnegative(delta_r as int * 150, progress as int);
            lemma_mul_upper_bound(delta_r as int * 150, MAX_RATE as int * 150, progress as int, SCALE as int);
            lemma_div_nonincreasing(delta_r as int * 150 * progress, range as int * 1000);
        }
        let extra_penalty = (delta_r * 150 * progress) / (range * 1000);
        rate_opt + base_penalty + extra_penalty
    } else if utilization <= U_99 {
        let base_penalty = (delta_r * 300) / 1000;
        let range = U_99 - U_95;
        let progress = utilization - U_95;
        proof {
            lemma_div_pos_is_pos(delta_r as int * 300, 1000);
            lemma_div_nonincreasing(delta_r as int * 300, 1000);
            lemma_mul_nonnegative(delta_r as int * 200, progress as int);
            lemma_mul_upper_bound(delta_r as int * 200, MAX_RATE as int * 200, progress as int, SCALE as int);
            lemma_div_nonincreasing(delta_r as int * 200 * progress, range as int * 1000);
        }
        let extra_penalty = (delta_r * 200 * progress) / (range * 1000);
        rate_opt + base_penalty + extra_penalty
    } else {
        let base_penalty = (delta_r * 500) / 1000;
        let range = SCALE - U_99;
        let progress = if utilization >= SCALE {
            range
        } else {
            utilization - U_99
        };
        proof {
            lemma_div_pos_is_pos(delta_r as int * 500, 1000);
            lemma_div_nonincreasing(delta_r as int * 500, 1000);
            lemma_mul_nonnegative(delta_r as int * 500, progress as int);
            lemma_mul_upper_bound(delta_r as int * 500, MAX_RATE as int * 500, progress as int, SCALE as int);
            lemma_div_nonincreasing(delta_r as int * 500 * progress, range as int * 1000);
        }
        let extra_penalty = (delta_r * 500 * progress) / (range * 1000);
        rate_opt + base_penalty + extra_penalty
    };
    if raw_rate < rate_min {
        rate_min
    } else {
        raw_rate
    }
}

/// Parameters a two-slope curve accepts.
pub open spec fn two_slope_params_valid(base: int, slope1: int, slope2: int, u_opt: int) -> bool {
    &&& 0 <= base <= MAX_RATE
    &&& 0 <= slope1 <= MAX_RATE
    &&& 0 <= slope2 <= MAX_RATE
    &&& 0 < u_opt < SCALE
}

/// The two-slope borrow rate: `base + slope1 * u / U*` up to the kink,
/// then `base + slope1 + slope2 * (u - U*) / (SCALE - U*)`.
pub open spec fn two_slope_rate(base: int, slope1: int, slope2: int, u_opt: int, u: int) -> int {
    if u <= u_opt {
        base + slope1 * u / u_opt
    } else {
        base + slope1 + slope2 * (u - u_opt) / (SCALE - u_opt)
    }
}

/// The two-slope borrow rate is non-decreasing in utilization over
/// `[0, SCALE]`, for every valid parameter set.
pub proof fn lemma_two_slope_rate_monotonic(
    base: int,
    slope1: int,
    slope2: int,
    u_opt: int,
    u1: int,
    u2: int,
)
    requires
        two_slope_params_valid(base, slope1, slope2, u_opt),
        0 <= u1 <= u2 <= SCALE,
    ensures
        two_slope_rate(base, slope1, slope2, u_opt, u1) <= two_slope_rate(
            base,
            slope1,
            slope2,
            u_opt,
            u2,
        ),
{
    if u2 <= u_opt {
        lemma_mul_inequality(u1, u2, slope1);
        lemma_div_is_ordered(slope1 * u1, slope1 * u2, u_opt);
    } else if u1 <= u_opt {
        lemma_mul_inequality(u1, u_opt, slope1);
        lemma_div_is_ordered(slope1 * u1, slope1 * u_opt, u_opt);
        lemma_div_multiples_vanish(slope1, u_opt);
        lemma_mul_nonnegative(slope2, u2 - u_opt);
        lemma_div_pos_is_pos(slope2 * (u2 - u_opt), SCALE - u_opt);
    } else {
        lemma_mul_inequality(u1 - u_opt, u2 - u_opt, slope2);
        lemma_div_is_ordered(slope2 * (u1 - u_opt), slope2 * (u2 - u_opt), SCALE - u_opt);
    }
}

/// The two-slope borrow rate stays between `base` and
/// `base + slope1 + slope2` over `[0, SCALE]`.
pub proof fn lemma_two_slope_rate_bounds(base: int, slope1: int, slope2: int, u_opt: int, u: int)
    requires
        two_slope_params_valid(base, slope1, slope2, u_opt),
        0 <= u <= SCALE,
    ensures
        base <= two_slope_rate(base, slope1, slope2, u_opt, u) <= base + slope1 + slope2,
{
    if u <= u_opt {
        lemma_mul_nonnegative(slope1, u);
        lemma_div_pos_is_pos(slope1 * u, u_opt);
        lemma_mul_inequality(u, u_opt, slope1);
        lemma_div_is_ordered(slope1 * u, slope1 * u_opt, u_opt);
        lemma_div_multiples_vanish(slope1, u_opt);
    } else {
        lemma_mul_nonnegative(slope2, u - u_opt);
        lemma_div_pos_is_pos(slope2 * (u - u_opt), SCALE - u_opt);
        lemma_mul_inequality(u - u_opt, SCALE - u_opt, slope2);
        lemma_div_is_ordered(slope2 * (u - u_opt), slope2 * (SCALE - u_opt), SCALE - u_opt);
        lemma_div_multiples_vanish(slope2, SCALE - u_opt);
    }
}

/// Computes the two-slope borrow rate; mirrors [`two_slope_rate`] exactly.
pub fn two_slope_borrow_rate(
    base: i128,
    slope1: i128,
    slope2: i128,
    u_opt: i128,
    utilization: i128,
) -> (r: i128)
    requires
        two_slope_params_valid(base as int, slope1 as int, slope2 as int, u_opt as int),
        0 <= utilization <= SCALE,
    ensures
        r == two_slope_rate(
            base as int,
            slope1 as int,
            slope2 as int,
            u_opt as int,
            utilization as int,
        ),
        base <= r <= base + slope1 + slope2,
{
    proof {
        lemma_two_slope_rate_bounds(
            base as int,
            slope1 as int,
            slope2 as int,
            u_opt as int,
            utilization as int,
        );
    }
    if utilization <= u_opt {
        proof {
            lemma_mul_nonnegative(slope1 as int, utilization as int);
            lemma_mul_upper_bound(slope1 as int, MAX_RATE as int, utilization as int, SCALE as int);
        }
        base + (slope1 * utilization) / u_opt
    } else {
        proof {
            lemma_mul_nonnegative(slope2 as int, utilization as int - u_opt as int);
            lemma_mul_upper_bound(
                slope2 as int,
                MAX_RATE as int,
                utilization as int - u_opt as int,
                SCALE as int,
            );
        }
        base + slope1 + (slope2 * (utilization - u_opt)) / (SCALE - u_opt)
    }
}

/// The multi-kink interest-rate model: `rate_min`/`rate_opt`/`rate_max`
/// with a configurable optimal utilization `U*`.  Immutable once built.
#[derive(Clone, Copy, Debug, PartialEq, Eq, Structural)]
pub struct InterestRateModel {
    /// Floor applied to the final rate.
    pub rate_min: i128,
    /// Rate reached exactly at `U*`.
    pub rate_opt: i128,
    /// Rate reached exactly at 100% utilization.
    pub rate_max: i128,
    /// Optimal utilization `U*`, strictly inside (0, SCALE).
    pub optimal_utilization: i128,
}

impl InterestRateModel {
    /// The parameters are valid multi-kink curve parameters.
    pub open spec fn wf(self) -> bool {
        curve_params_valid(
            self.rate_min as int,
            self.rate_opt as int,
            self.rate_max as int,
            self.optimal_utilization as int,
        )
    }

    /// The rate this model assigns to a utilization.
    pub open spec fn spec_rate(self, u: int) -> int {
        multi_kink_rate(
            self.rate_min as int,
            self.rate_opt as int,
            self.rate_max as int,
            self.optimal_utilization as int,
            u,
        )
    }

    /// Builds a model from custom parameters, rejecting exactly the
    /// parameter sets that are out of range or non-monotonic.
    pub fn initialize(
        rate_min: i128,
        rate_opt: i128,
        rate_max: i128,
        optimal_utilization: i128,
    ) -> (r: Result<InterestRateModel, Error>)
        ensures
            match r {
                Ok(m) => {
                    &&& curve_params_valid(
                        rate_min as int,
                        rate_opt as int,
                        rate_max as int,
                        optimal_utilization as int,
                    )
                    &&& m.rate_min == rate_min
                    &&& m.rate_opt == rate_opt
                    &&& m.rate_max == rate_max
                    &&& m.optimal_utilization == optimal_utilization
                    &&& m.wf()
                },
                Err(e) => {
                    &&& !curve_params_valid(
                        rate_min as int,
                        rate_opt as int,
                        rate_max as int,
                        optimal_utilization as int,
                    )
                    &&& e == Error::InvalidParameter
                },
            },
    {
        if optimal_utilization <= 0 || optimal_utilization >= SCALE {
            return Err(Error::InvalidParameter);
        }
        if rate_min < 0 || rate_opt < rate_min {
            return Err(Error::InvalidParameter);
        }
        if rate_max < rate_opt || rate_max > MAX_RATE {
            return Err(Error::InvalidParameter);
        }
        Ok(InterestRateModel { rate_min, rate_opt, rate_max, optimal_utilization })
    }

    /// Builds the default model: 0% floor, 4% at the 80% optimal
    /// utilization, 100% at full utilization.
    pub fn initialize_default() -> (m: InterestRateModel)
        ensures
            m.wf(),
            m.rate_min == 0,
            m.rate_opt == 400_000,
            m.rate_max == 10_000_000,
            m.optimal_utilization == 8_000_000,
    {
        InterestRateModel {
            rate_min: 0,
            rate_opt: 400_000,
            rate_max: 10_000_000,
            optimal_utilization: 8_000_000,
        }
    }

    /// Annualized borrow rate for a utilization; utilizations above
    /// `SCALE` are treated as `SCALE`.
    pub fn get_borrow_rate(&self, utilization: i128) -> (r: i128)
        requires
            self.wf(),
            0 <= utilization,
        ensures
            r == self.spec_rate(utilization as int),
            self.rate_min <= r <= self.rate_max,
    {
        multi_kink_borrow_rate(
            self.rate_min,
            self.rate_opt,
            self.rate_max,
            self.optimal_utilization,
            utilization,
        )
    }

    /// Borrow rate per second, for interest accrual.
    pub fn get_borrow_rate_per_second(&self, utilization: i128) -> (r: i128)
        requires
            self.wf(),
            0 <= utilization,
        ensures
            r == self.spec_rate(utilization as int) / (SECONDS_PER_YEAR as int),
    {
        let annual_rate = self.get_borrow_rate(utilization);
        annual_rate / SECONDS_PER_YEAR
    }

    /// Annualized supply rate: the borrow rate times utilization, with a
    /// fixed tenth of the interest diverted to reserves.
    pub fn get_supply_rate(&self, utilization: i128) -> (r: i128)
        requires
            self.wf(),
            0 <= utilization <= SCALE,
        ensures
            r == self.spec_rate(utilization as int) * (utilization as int) * 9 / (SCALE * 10),
    {
        let borrow_rate = self.get_borrow_rate(utilization);
        proof {
            lemma_mul_nonnegative(borrow_rate as int, utilization as int);
            lemma_mul_upper_bound(borrow_rate as int, MAX_RATE as int, utilization as int, SCALE as int);
        }
        (borrow_rate * utilization * 9) / (SCALE * 10)
    }

    /// Supply rate per second.
    pub fn get_supply_rate_per_second(&self, utilization: i128) -> (r: i128)
        requires
            self.wf(),
            0 <= utilization <= SCALE,
        ensures
            r == self.spec_rate(utilization as int) * (utilization as int) * 9 / (SCALE * 10)
                / (SECONDS_PER_YEAR as int),
    {
        let annual_rate = self.get_supply_rate(utilization);
        proof {
            lemma_mul_nonnegative(self.spec_rate(utilization as int), utilization as int);
            lemma_mul_nonnegative(self.spec_rate(utilization as int) * (utilization as int), 9);
            lemma_div_pos_is_pos(
                self.spec_rate(utilization as int) * (utilization as int) * 9,
                SCALE * 10,
            );
        }
        annual_rate / SECONDS_PER_YEAR
    }

    /// The configured rate floor.
    pub fn get_rate_min(&self) -> (r: i128)
        ensures
            r == self.rate_min,
    {
        self.rate_min
    }

    /// The configured rate at `U*`.
    pub fn get_rate_opt(&self) -> (r: i128)
        ensures
            r == self.rate_opt,
    {
        self.rate_opt
    }

    /// The configured rate at 100% utilization.
    pub fn get_rate_max(&self) -> (r: i128)
        ensures
            r == self.rate_max,
    {
        self.rate_max
    }

    /// The configured optimal utilization `U*`.
    pub fn get_optimal_utilization(&self) -> (r: i128)
        ensures
            r == self.optimal_utilization,
    {
        self.optimal_utilization
    }

    /// Utilization of a pool: borrowed over supplied, scaled; 0 when
    /// nothing is supplied.
    pub fn calculate_utilization(total_supply: i128, total_borrow: i128) -> (r: i128)
        requires
            0 <= total_supply,
            0 <= total_borrow <= MAX_BALANCE,
        ensures
            r == if total_supply == 0 {
                0int
            } else {
                total_borrow as int * SCALE / (total_supply as int)
            },
    {
        if total_supply == 0 {
            return 0;
        }
        proof {
            lemma_mul_nonnegative(total_borrow as int, SCALE as int);
        }
        (total_borrow * SCALE) / total_supply
    }

    /// All four parameters, in declaration order.
    pub fn get_parameters(&self) -> (r: (i128, i128, i128, i128))
        ensures
            r == (self.rate_min, self.rate_opt, self.rate_max, self.optimal_utilization),
    {
        (self.rate_min, self.rate_opt, self.rate_max, self.optimal_utilization)
    }

    /// Two-slope-style view of the floor rate.
    pub fn get_base_rate(&self) -> (r: i128)
        ensures
            r == self.rate_min,
    {
        self.rate_min
    }

    /// Two-slope-style view of the ramp to `U*`.
    pub fn get_slope1(&self) -> (r: i128)
        ensures
            r == self.rate_opt,
    {
        self.rate_opt
    }

    /// Two-slope-style view of the climb above `U*`.
    pub fn get_slope2(&self) -> (r: i128)
        requires
            self.wf(),
        ensures
            r == self.rate_max - self.rate_opt,
    {
        self.rate_max - self.rate_opt
    }
}

/// The two-slope interest-rate model: one kink at `U*`.
#[derive(Clone, Copy, Debug, PartialEq, Eq, Structural)]
pub struct TwoSlopeModel {
    /// Rate at zero utilization.
    pub base_rate: i128,
    /// Rate added linearly over `[0, U*]`.
    pub slope1: i128,
    /// Rate added linearly over `(U*, SCALE]`.
    pub slope2: i128,
    /// Optimal utilization `U*`, strictly inside (0, SCALE).
    pub optimal_utilization: i128,
}

impl TwoSlopeModel {
    /// The parameters are valid two-slope curve parameters.
    pub open spec fn wf(self) -> bool {
        two_slope_params_valid(
            self.base_rate as int,
            self.slope1 as int,
            self.slope2 as int,
            self.optimal_utilization as int,
        )
    }

    /// The rate this model assigns to a utilization.
    pub open spec fn spec_rate(self, u: int) -> int {
        two_slope_rate(
            self.base_rate as int,
            self.slope1 as int,
            self.slope2 as int,
            self.optimal_utilization as int,
            u,
        )
    }

    /// Builds a model from custom parameters, rejecting exactly the
    /// parameter sets that are out of range.
    pub fn initialize(base_rate: i128, slope1: i128, slope2: i128, optimal_utilization: i128) -> (r:
        Result<TwoSlopeModel, Error>)
        ensures
            match r {
                Ok(m) => {
                    &&& two_slope_params_valid(
                        base_rate as int,
                        slope1 as int,
                        slope2 as int,
                        optimal_utilization as int,
                    )
                    &&& m.base_rate == base_rate
                    &&& m.slope1 == slope1
                    &&& m.slope2 == slope2
                    &&& m.optimal_utilization == optimal_utilization
                    &&& m.wf()
                },
                Err(e) => {
                    &&& !two_slope_params_valid(
                        base_rate as int,
                        slope1 as int,
                        slope2 as int,
                        optimal_utilization as int,
                    )
                    &&& e == Error::InvalidParameter
                },
            },
    {
        if optimal_utilization <= 0 || optimal_utilization >= SCALE {
            return Err(Error::InvalidParameter);
        }
        if base_rate < 0 || base_rate > MAX_RATE {
            return Err(Error::InvalidParameter);
        }
        if slope1 < 0 || slope1 > MAX_RATE || slope2 < 0 || slope2 > MAX_RATE {
            return Err(Error::InvalidParameter);
        }
        Ok(TwoSlopeModel { base_rate, slope1, slope2, optimal_utilization })
    }

    /// Annualized borrow rate for a utilization in `[0, SCALE]`.
    pub fn get_borrow_rate(&self, utilization: i128) -> (r: i128)
        requires
            self.wf(),
            0 <= utilization <= SCALE,
        ensures
            r == self.spec_rate(utilization as int),
    {
        two_slope_borrow_rate(
            self.base_rate,
            self.slope1,
            self.slope2,
            self.optimal_utilization,
            utilization,
        )
    }
}

/// One interface over the two curve variants, so callers select a strategy
/// without branching on which was configured.
#[derive(Clone, Copy, Debug, PartialEq, Eq, Structural)]
pub enum RateCurve {
    /// The multi-kink curve.
    MultiKink(InterestRateModel),
    /// The two-slope curve.
    TwoSlope(TwoSlopeModel),
}

impl RateCurve {
    /// The selected variant carries valid parameters.
    pub open spec fn wf(self) -> bool {
        match self {
            RateCurve::MultiKink(m) => m.wf(),
            RateCurve::TwoSlope(m) => m.wf(),
        }
    }

    /// The rate the selected variant assigns to a utilization.
    pub open spec fn spec_rate(self, u: int) -> int {
        match self {
            RateCurve::MultiKink(m) => m.spec_rate(u),
            RateCurve::TwoSlope(m) => m.spec_rate(u),
        }
    }

    /// Annualized borrow rate for a utilization in `[0, SCALE]`.
    pub fn rate(&self, utilization: i128) -> (r: i128)
        requires
            self.wf(),
            0 <= utilization <= SCALE,
        ensures
            r == self.spec_rate(utilization as int),
    {
        match self {
            RateCurve::MultiKink(m) => m.get_borrow_rate(utilization),
            RateCurve::TwoSlope(m) => m.get_borrow_rate(utilization),
        }
    }

    /// Whichever variant is selected, the rate is non-decreasing in
    /// utilization over `[0, SCALE]`.
    pub proof fn lemma_rate_monotonic(self, u1: int, u2: int)
        requires
            self.wf(),
            0 <= u1 <= u2 <= SCALE,
        ensures
            self.spec_rate(u1) <= self.spec_rate(u2),
    {
        match self {
            RateCurve::MultiKink(m) => lemma_multi_kink_rate_monotonic(
                m.rate_min as int,
                m.rate_opt as int,
                m.rate_max as int,
                m.optimal_utilization as int,
                u1,
                u2,
            ),
            RateCurve::TwoSlope(m) => lemma_two_slope_rate_monotonic(
                m.base_rate as int,
                m.slope1 as int,
                m.slope2 as int,
                m.optimal_utilization as int,
                u1,
                u2,
            ),
        }
    }
}

} // verus!

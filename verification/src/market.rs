//! Per-asset market records and the interest accrual engine.
//!
//! A [`Market`] carries the pool-side ledger of one asset: supplied
//! underlying, issued shares, outstanding borrows, the compounding borrow
//! index, reserves, and the asset's risk configuration.  [`Market::accrue`]
//! advances the record to a later time: it prices the elapsed period from
//! the pool's built-in multi-kink curve at the current utilization, grows
//! the borrow index once for the whole period, and splits the new interest
//! between suppliers and reserves.

use vstd::prelude::*;
use vstd::arithmetic::div_mod::{
    lemma_div_is_ordered, lemma_div_is_ordered_by_denominator, lemma_div_multiples_vanish,
    lemma_div_pos_is_pos, lemma_fundamental_div_mod, lemma_mod_division_less_than_divisor,
};
use vstd::arithmetic::mul::{lemma_mul_inequality, lemma_mul_nonnegative, lemma_mul_upper_bound};
use crate::rate::{multi_kink_borrow_rate, multi_kink_rate};
use crate::{INDEX_SCALE, MAX_BALANCE, MAX_DEBT, MAX_INDEX, SCALE, SECONDS_PER_YEAR};

verus! {

/// Rate floor of the pool's built-in curve (0%).
pub const POOL_RATE_MIN: i128 = 0;

/// Rate of the pool's built-in curve at its optimal utilization (4%).
pub const POOL_RATE_OPT: i128 = 400_000;

/// Rate of the pool's built-in curve at full utilization (100%).
pub const POOL_RATE_MAX: i128 = 10_000_000;

/// Optimal utilization of the pool's built-in curve (80%).
pub const POOL_U_OPTIMAL: i128 = 8_000_000;

/// Share of accrued interest diverted to reserves (10%).
pub const DEFAULT_RESERVE_FACTOR: i128 = 1_000_000;

/// The pool-side ledger and risk configuration of one asset.
#[derive(Clone, Copy, Debug, PartialEq, Eq, Structural)]
pub struct Market {
    /// Underlying units supplied, plus the suppliers' share of interest.
    pub total_supply: i128,
    /// Supply shares issued against `total_supply`.
    pub total_shares: i128,
    /// Underlying units out on loan (principal; interest lives in the index).
    pub total_borrow: i128,
    /// Compounding borrow index, starts at `INDEX_SCALE`, never decreases.
    pub borrow_index: i128,
    /// Time of the last accrual.
    pub last_accrual_time: u64,
    /// Share of interest diverted to reserves, scaled by `SCALE`.
    pub reserve_factor: i128,
    /// Interest accumulated for the protocol.
    pub total_reserves: i128,
    /// Largest fraction of collateral value that may be borrowed against.
    pub ltv_ratio: i128,
    /// Collateral weighting used by the health factor.
    pub liquidation_threshold: i128,
    /// Whether the asset may back borrowing.
    pub collateral_enabled: bool,
    /// Whether the asset may be borrowed.
    pub borrow_enabled: bool,
}

impl Market {
    /// Ledger invariant: balances within machine bounds, borrows never
    /// over-commit the supply, the index is a real index value, and the
    /// reserve factor leaves suppliers at least half of the interest.
    pub open spec fn wf(self) -> bool {
        &&& 0 <= self.total_borrow <= self.total_supply <= MAX_BALANCE
        &&& 0 <= self.total_shares <= MAX_BALANCE
        &&& INDEX_SCALE <= self.borrow_index <= MAX_INDEX
        &&& 0 <= self.total_reserves <= MAX_BALANCE
        &&& 0 <= self.reserve_factor && 2 * self.reserve_factor <= SCALE
        &&& 0 <= self.ltv_ratio <= SCALE
        &&& 0 <= self.liquidation_threshold <= SCALE
    }

    /// Backing behind the issued shares: supplied plus lent out, less
    /// reserves.
    pub open spec fn spec_equity(self) -> int {
        self.total_supply + self.total_borrow - self.total_reserves
    }

    /// Borrowed over supplied, scaled; 0 when nothing is supplied.
    pub open spec fn spec_utilization(self) -> int {
        if self.total_supply == 0 {
            0
        } else {
            self.total_borrow * SCALE / (self.total_supply as int)
        }
    }

    /// Underlying value of one share times `INDEX_SCALE`: the equity
    /// spread over the issued shares, 1:1 while no share exists.
    pub open spec fn spec_exchange_rate(self) -> int {
        if self.total_shares == 0 {
            INDEX_SCALE as int
        } else {
            self.spec_equity() * INDEX_SCALE / (self.total_shares as int)
        }
    }

    /// Annualized borrow rate of the pool's built-in multi-kink curve at
    /// this market's utilization.
    ///
    /// The constants equal the rate-model component's defaults; whether
    /// the pool should instead read a configured curve is an open
    /// configuration decision, so the two are kept equal but separate.
    pub open spec fn spec_borrow_rate(self) -> int {
        multi_kink_rate(
            POOL_RATE_MIN as int,
            POOL_RATE_OPT as int,
            POOL_RATE_MAX as int,
            POOL_U_OPTIMAL as int,
            self.spec_utilization(),
        )
    }

    /// Annual supply rate: the borrow rate earned on the utilized share
    /// of the supply, less the reserve cut.
    pub open spec fn spec_supply_rate(self) -> int {
        if self.spec_utilization() > 0 {
            self.spec_borrow_rate() * self.spec_utilization() * (SCALE - self.reserve_factor) / (
            SCALE as int * SCALE as int)
        } else {
            0
        }
    }

    /// The elapsed period's scaled interest fraction: annual rate times
    /// elapsed seconds over a year.
    pub open spec fn spec_interest_factor(self, now: u64) -> int {
        self.spec_borrow_rate() * (now - self.last_accrual_time) / (SECONDS_PER_YEAR as int)
    }

    /// The market as [`Market::accrue`] leaves it: unchanged when no time
    /// passed; only the clock advances when nothing is borrowed or
    /// supplied; otherwise the index compounds once for the period and the
    /// interest is split between suppliers and reserves.
    pub open spec fn spec_accrued(self, now: u64) -> Market {
        if now <= self.last_accrual_time {
            self
        } else if self.total_borrow == 0 || self.total_supply == 0 {
            Market { last_accrual_time: now, ..self }
        } else {
            let f = self.spec_interest_factor(now);
            let interest = self.total_borrow * f / (SCALE as int);
            let reserve_share = interest * self.reserve_factor / (SCALE as int);
            Market {
                total_supply: (self.total_supply + (interest - reserve_share)) as i128,
                borrow_index: (self.borrow_index + self.borrow_index * f / (SCALE as int)) as i128,
                total_reserves: (self.total_reserves + reserve_share) as i128,
                last_accrual_time: now,
                ..self
            }
        }
    }

    /// The machine bounds accrual needs: the compounded index and the
    /// grown balances must stay inside their caps.  Callers check this
    /// before asking for accrual; it holds trivially whenever the accrual
    /// would be a no-op.
    pub open spec fn accrue_fits(self, now: u64) -> bool {
        ||| now <= self.last_accrual_time
        ||| self.total_borrow == 0
        ||| self.total_supply == 0
        ||| {
            let f = self.spec_interest_factor(now);
            let interest = self.total_borrow * f / (SCALE as int);
            &&& self.borrow_index + self.borrow_index * f / (SCALE as int) <= MAX_INDEX
            &&& self.total_supply + interest <= MAX_BALANCE
            &&& self.total_reserves + interest <= MAX_BALANCE
        }
    }

    /// A well-formed market's utilization sits in `[0, SCALE]`.
    pub proof fn lemma_utilization_bounds(self)
        requires
            self.wf(),
        ensures
            0 <= self.spec_utilization() <= SCALE,
    {
        if self.total_supply != 0 {
            lemma_mul_nonnegative(self.total_borrow as int, SCALE as int);
            lemma_div_pos_is_pos(self.total_borrow * SCALE, self.total_supply as int);
            lemma_mul_inequality(self.total_borrow as int, self.total_supply as int, SCALE as int);
            lemma_div_is_ordered(
                self.total_borrow * SCALE,
                self.total_supply * SCALE,
                self.total_supply as int,
            );
            lemma_div_multiples_vanish(SCALE as int, self.total_supply as int);
        }
    }

    /// The ledger of a freshly listed asset: empty balances, index at
    /// 1.0, the default reserve factor, and the given risk switches.
    pub open spec fn init_spec(
        ltv_ratio: i128,
        liquidation_threshold: i128,
        collateral_enabled: bool,
        borrow_enabled: bool,
        now: u64,
    ) -> Market {
        Market {
            total_supply: 0,
            total_shares: 0,
            total_borrow: 0,
            borrow_index: INDEX_SCALE,
            last_accrual_time: now,
            reserve_factor: DEFAULT_RESERVE_FACTOR,
            total_reserves: 0,
            ltv_ratio,
            liquidation_threshold,
            collateral_enabled,
            borrow_enabled,
        }
    }

    /// Builds the ledger of a freshly listed asset; see
    /// [`Market::init_spec`].
    pub fn init(
        ltv_ratio: i128,
        liquidation_threshold: i128,
        collateral_enabled: bool,
        borrow_enabled: bool,
        now: u64,
    ) -> (m: Market)
        requires
            0 <= ltv_ratio <= SCALE,
            0 <= liquidation_threshold <= SCALE,
        ensures
            m.wf(),
            m == Market::init_spec(
                ltv_ratio,
                liquidation_threshold,
                collateral_enabled,
                borrow_enabled,
                now,
            ),
    {
        Market {
            total_supply: 0,
            total_shares: 0,
            total_borrow: 0,
            borrow_index: INDEX_SCALE,
            last_accrual_time: now,
            reserve_factor: DEFAULT_RESERVE_FACTOR,
            total_reserves: 0,
            ltv_ratio,
            liquidation_threshold,
            collateral_enabled,
            borrow_enabled,
        }
    }

    /// The market's current utilization.
    pub fn utilization(&self) -> (r: i128)
        requires
            self.wf(),
        ensures
            r == self.spec_utilization(),
            0 <= r <= SCALE,
    {
        proof {
            self.lemma_utilization_bounds();
        }
        if self.total_supply == 0 {
            return 0;
        }
        proof {
            lemma_mul_nonnegative(self.total_borrow as int, SCALE as int);
            lemma_mul_upper_bound(
                self.total_borrow as int,
                MAX_BALANCE as int,
                SCALE as int,
                SCALE as int,
            );
        }
        (self.total_borrow * SCALE) / self.total_supply
    }

    /// The current exchange rate; callable only while the equity backing
    /// the shares is nonnegative (a solvent ledger).
    pub fn exchange_rate(&self) -> (r: i128)
        requires
            self.wf(),
            0 <= self.spec_equity(),
        ensures
            r == self.spec_exchange_rate(),
            0 <= r,
    {
        if self.total_shares == 0 {
            return INDEX_SCALE;
        }
        proof {
            lemma_mul_nonnegative(self.spec_equity(), INDEX_SCALE as int);
            lemma_mul_upper_bound(
                self.spec_equity(),
                2 * MAX_BALANCE as int,
                INDEX_SCALE as int,
                INDEX_SCALE as int,
            );
            lemma_div_pos_is_pos(self.spec_equity() * INDEX_SCALE, self.total_shares as int);
        }
        ((self.total_supply + self.total_borrow - self.total_reserves) * INDEX_SCALE)
            / self.total_shares
    }

    /// Advances the ledger to `now`, applying the period's interest
    /// exactly once.
    ///
    /// Same clock or an earlier one: a no-op.  Nothing borrowed or
    /// supplied: only the clock advances.  Otherwise the borrow index
    /// compounds by the period's interest factor, and the interest owed on
    /// the outstanding borrows is split between suppliers (raising
    /// `total_supply`, and with it the share value) and reserves.  Shares,
    /// borrows and configuration never move, and the index never
    /// decreases.
    pub fn accrue(&mut self, now: u64)
        requires
            old(self).wf(),
            old(self).accrue_fits(now),
        ensures
            final(self).wf(),
            *final(self) == old(self).spec_accrued(now),
            now <= old(self).last_accrual_time ==> *final(self) == *old(self),
            now > old(self).last_accrual_time && (old(self).total_borrow == 0 || old(
                self,
            ).total_supply == 0) ==> *final(self) == (Market {
                last_accrual_time: now,
                ..*old(self)
            }),
            final(self).borrow_index >= old(self).borrow_index,
            final(self).total_supply >= old(self).total_supply,
            final(self).total_borrow == old(self).total_borrow,
            final(self).total_shares == old(self).total_shares,
            final(self).reserve_factor == old(self).reserve_factor,
            final(self).ltv_ratio == old(self).ltv_ratio,
            final(self).liquidation_threshold == old(self).liquidation_threshold,
            final(self).collateral_enabled == old(self).collateral_enabled,
            final(self).borrow_enabled == old(self).borrow_enabled,
    {
        let last_accrual = self.last_accrual_time;
        if now <= last_accrual {
            return ;
        }
        let time_elapsed = now - last_accrual;
        let total_supply = self.total_supply;
        let total_borrow = self.total_borrow;
        if total_borrow == 0 || total_supply == 0 {
            self.last_accrual_time = now;
            return ;
        }
        let utilization = self.utilization();
        let annual_borrow_rate = multi_kink_borrow_rate(
            POOL_RATE_MIN,
            POOL_RATE_OPT,
            POOL_RATE_MAX,
            POOL_U_OPTIMAL,
            utilization,
        );
        proof {
            lemma_mul_nonnegative(annual_borrow_rate as int, time_elapsed as int);
            lemma_mul_upper_bound(
                annual_borrow_rate as int,
                SCALE as int,
                time_elapsed as int,
                u64::MAX as int,
            );
        }
        let interest_factor = (annual_borrow_rate * (time_elapsed as i128)) / SECONDS_PER_YEAR;
        proof {
            lemma_div_pos_is_pos(
                annual_borrow_rate as int * time_elapsed as int,
                SECONDS_PER_YEAR as int,
            );
            assert(interest_factor == self.spec_interest_factor(now));
            lemma_mul_nonnegative(self.borrow_index as int, interest_factor as int);
            lemma_div_bound_to_mul(
                self.borrow_index * interest_factor,
                SCALE as int,
                MAX_INDEX as int,
            );
            lemma_mul_nonnegative(total_borrow as int, interest_factor as int);
            lemma_div_bound_to_mul(
                total_borrow * interest_factor,
                SCALE as int,
                MAX_BALANCE as int,
            );
        }
        let current_borrow_index = self.borrow_index;
        let new_borrow_index = current_borrow_index + (current_borrow_index * interest_factor)
            / SCALE;
        self.borrow_index = new_borrow_index;
        let interest_accrued = (total_borrow * interest_factor) / SCALE;
        let reserve_factor = self.reserve_factor;
        proof {
            lemma_mul_nonnegative(interest_accrued as int, reserve_factor as int);
            lemma_mul_upper_bound(
                interest_accrued as int,
                MAX_BALANCE as int,
                reserve_factor as int,
                SCALE as int,
            );
            lemma_frac_le(interest_accrued as int, reserve_factor as int, SCALE as int);
        }
        let reserve_interest = (interest_accrued * reserve_factor) / SCALE;
        let supplier_interest = interest_accrued - reserve_interest;
        self.total_supply = total_supply + supplier_interest;
        self.total_reserves = self.total_reserves + reserve_interest;
        self.last_accrual_time = now;
    }
}

/// From a bound on a truncated quotient to a bound on the dividend:
/// if `x / d <= b` then `x <= d * b + d - 1`.
pub proof fn lemma_div_bound_to_mul(x: int, d: int, b: int)
    requires
        0 <= x,
        0 < d,
        x / d <= b,
    ensures
        x <= d * b + d - 1,
{
    lemma_fundamental_div_mod(x, d);
    lemma_mod_division_less_than_divisor(x, d);
    lemma_mul_inequality(x / d, b, d);
}

/// A scaled fraction of a nonnegative value stays within it:
/// `0 <= x * num / den <= x` when `0 <= num <= den`.
pub proof fn lemma_frac_le(x: int, num: int, den: int)
    requires
        0 <= x,
        0 <= num <= den,
        0 < den,
    ensures
        0 <= x * num / den <= x,
{
    lemma_mul_nonnegative(x, num);
    lemma_div_pos_is_pos(x * num, den);
    lemma_mul_inequality(num, den, x);
    lemma_div_is_ordered(x * num, x * den, den);
    lemma_div_multiples_vanish(x, den);
}

/// The interest-inclusive debt of a well-formed position stays within
/// machine bounds under a well-formed index, and never undercuts the
/// principal once the index has caught up with the origin.
pub proof fn lemma_debt_bounds(p: crate::position::AssetPosition, borrow_index: int)
    requires
        p.wf(),
        INDEX_SCALE <= borrow_index <= MAX_INDEX,
    ensures
        0 <= p.spec_debt(borrow_index) <= MAX_DEBT,
        p.debt_index <= borrow_index ==> p.spec_debt(borrow_index) >= p.debt_principal,
{
    if p.debt_principal != 0 {
        lemma_mul_nonnegative(p.debt_principal as int, borrow_index);
        lemma_div_pos_is_pos(p.debt_principal * borrow_index, p.debt_index as int);
        lemma_mul_upper_bound(
            p.debt_principal as int,
            MAX_BALANCE as int,
            borrow_index,
            MAX_INDEX as int,
        );
        lemma_div_is_ordered_by_denominator(
            p.debt_principal * borrow_index,
            INDEX_SCALE as int,
            p.debt_index as int,
        );
        lemma_div_is_ordered(
            p.debt_principal * borrow_index,
            MAX_BALANCE as int * MAX_INDEX as int,
            INDEX_SCALE as int,
        );
        if p.debt_index <= borrow_index {
            lemma_mul_inequality(p.debt_index as int, borrow_index, p.debt_principal as int);
            lemma_div_is_ordered(
                p.debt_principal * p.debt_index,
                p.debt_principal * borrow_index,
                p.debt_index as int,
            );
            lemma_div_multiples_vanish(p.debt_principal as int, p.debt_index as int);
        }
    }
}

} // verus!

//! The lending pool: the per-asset markets, the user accounts, and the
//! supply side of the balance-mutating operations.
//!
//! The pool is an explicit repository: two [`Market`] records and one map
//! from user identity to [`Account`].  Every operation takes the pool by
//! reference, the caller's identity and the clock as plain values, and
//! either commits all of its writes or returns an [`Error`] leaving the
//! pool exactly as it was.  Interest is accrued on a market before any
//! balance read that depends on it.

use std::collections::HashMap;
use vstd::prelude::*;
use vstd::arithmetic::div_mod::{
    lemma_div_multiples_vanish,
    lemma_div_pos_is_pos, lemma_fundamental_div_mod, lemma_mod_division_less_than_divisor,
};
use vstd::arithmetic::mul::{lemma_mul_inequality, lemma_mul_nonnegative, lemma_mul_upper_bound};
use crate::market::{
    Market, POOL_RATE_MAX, POOL_RATE_MIN, POOL_RATE_OPT, POOL_U_OPTIMAL,
};
use crate::position::{
    lemma_sum_shares_bounds, lemma_sum_shares_insert, sum_shares,
    Account, AssetPosition,
};
use crate::rate::{multi_kink_borrow_rate, multi_kink_rate};
use crate::{Asset, Error, INDEX_SCALE, MAX_BALANCE, MAX_DEBT, SCALE};

verus! {

broadcast use vstd::std_specs::hash::group_hash_axioms;

/// The other asset.
pub open spec fn spec_other(asset: Asset) -> Asset {
    match asset {
        Asset::Xlm => Asset::Usdc,
        Asset::Usdc => Asset::Xlm,
    }
}

/// The pool: one market per asset and the users' accounts.
pub struct LendingPool {
    /// Ledger of the collateral asset.
    pub xlm_market: Market,
    /// Ledger of the borrowable asset.
    pub usdc_market: Market,
    /// One account per user that ever touched the pool.
    pub accounts: HashMap<u64, Account>,
}

impl LendingPool {
    /// The market of an asset.
    pub open spec fn spec_market(self, asset: Asset) -> Market {
        match asset {
            Asset::Xlm => self.xlm_market,
            Asset::Usdc => self.usdc_market,
        }
    }

    /// The pool with one market replaced.
    pub open spec fn spec_with_market(self, asset: Asset, m: Market) -> LendingPool {
        match asset {
            Asset::Xlm => LendingPool { xlm_market: m, ..self },
            Asset::Usdc => LendingPool { usdc_market: m, ..self },
        }
    }

    /// A user's account; empty if the user never touched the pool.
    pub open spec fn spec_account(self, user: u64) -> Account {
        if self.accounts@.contains_key(user) {
            self.accounts@[user]
        } else {
            Account::spec_empty()
        }
    }

    /// A user's record for one asset.
    pub open spec fn spec_position(self, user: u64, asset: Asset) -> AssetPosition {
        self.spec_account(user).spec_position(asset)
    }

    /// Pool invariant: both markets and every account are well-formed, no
    /// debt origin index runs ahead of its market's index, and the shares
    /// each market has issued are exactly the shares its users hold.
    pub open spec fn wf(self) -> bool {
        &&& self.xlm_market.wf()
        &&& self.usdc_market.wf()
        &&& self.accounts@.dom().finite()
        &&& forall|u: u64| #[trigger] self.accounts@.contains_key(u) ==> self.accounts@[u].wf()
        &&& forall|u: u64| #[trigger]
            self.accounts@.contains_key(u) ==> self.accounts@[u].xlm.debt_index
                <= self.xlm_market.borrow_index && self.accounts@[u].usdc.debt_index
                <= self.usdc_market.borrow_index
        &&& sum_shares(self.accounts@, Asset::Xlm) == self.xlm_market.total_shares
        &&& sum_shares(self.accounts@, Asset::Usdc) == self.usdc_market.total_shares
    }

    /// Builds the pool with its two markets: the collateral asset at 75%
    /// LTV and 80% liquidation threshold, collateral only; the borrowable
    /// asset at 80% LTV and 85% liquidation threshold, collateral and
    /// borrowable.  No account exists yet.
    pub fn initialize(now: u64) -> (pool: LendingPool)
        ensures
            pool.wf(),
            pool.xlm_market == Market::init_spec(7_500_000, 8_000_000, true, false, now),
            pool.usdc_market == Market::init_spec(8_000_000, 8_500_000, true, true, now),
            pool.accounts@ == Map::<u64, Account>::empty(),
    {
        let pool = LendingPool {
            xlm_market: Market::init(7_500_000, 8_000_000, true, false, now),
            usdc_market: Market::init(8_000_000, 8_500_000, true, true, now),
            accounts: HashMap::new(),
        };
        proof {
            broadcast use vstd::set::group_set_axioms;

            assert(pool.accounts@.dom() =~= Set::<u64>::empty());
            assert(sum_shares(pool.accounts@, Asset::Xlm) == 0);
            assert(sum_shares(pool.accounts@, Asset::Usdc) == 0);
        }
        pool
    }

    /// Reads the market of an asset.
    pub(crate) fn get_market(&self, asset: Asset) -> (m: Market)
        ensures
            m == self.spec_market(asset),
    {
        match asset {
            Asset::Xlm => self.xlm_market,
            Asset::Usdc => self.usdc_market,
        }
    }

    /// Replaces the market of an asset.
    pub(crate) fn set_market(&mut self, asset: Asset, m: Market)
        ensures
            *final(self) == old(self).spec_with_market(asset, m),
    {
        match asset {
            Asset::Xlm => {
                self.xlm_market = m;
            },
            Asset::Usdc => {
                self.usdc_market = m;
            },
        }
    }

    /// Reads a user's account.
    pub(crate) fn get_account(&self, user: u64) -> (a: Account)
        ensures
            a == self.spec_account(user),
    {
        match self.accounts.get(&user) {
            Some(a) => *a,
            None => Account::empty(),
        }
    }

    /// Writes a user's account.
    pub(crate) fn set_account(&mut self, user: u64, a: Account)
        ensures
            final(self).accounts@ == old(self).accounts@.insert(user, a),
            final(self).xlm_market == old(self).xlm_market,
            final(self).usdc_market == old(self).usdc_market,
    {
        self.accounts.insert(user, a);
    }

    /// Accrues interest on one asset's market up to `now`; see
    /// [`Market::accrue`].
    pub fn accrue_interest(&mut self, asset: Asset, now: u64)
        requires
            old(self).wf(),
            old(self).spec_market(asset).accrue_fits(now),
        ensures
            final(self).wf(),
            *final(self) == old(self).spec_with_market(
                asset,
                old(self).spec_market(asset).spec_accrued(now),
            ),
    {
        match asset {
            Asset::Xlm => self.xlm_market.accrue(now),
            Asset::Usdc => self.usdc_market.accrue(now),
        }
    }

    /// The borrow rate of the pool's built-in multi-kink curve at a
    /// utilization; utilizations above `SCALE` are treated as `SCALE`.
    ///
    /// The built-in constants equal the rate-model component's defaults;
    /// whether the pool should instead read a configured curve is an open
    /// configuration decision.
    pub fn calculate_borrow_rate(utilization: i128) -> (r: i128)
        requires
            0 <= utilization,
        ensures
            r == multi_kink_rate(
                POOL_RATE_MIN as int,
                POOL_RATE_OPT as int,
                POOL_RATE_MAX as int,
                POOL_U_OPTIMAL as int,
                utilization as int,
            ),
            0 <= r <= SCALE,
    {
        multi_kink_borrow_rate(
            POOL_RATE_MIN,
            POOL_RATE_OPT,
            POOL_RATE_MAX,
            POOL_U_OPTIMAL,
            utilization,
        )
    }

    /// Total underlying supplied to an asset's market.
    pub fn get_total_supply(&self, asset: Asset) -> (r: i128)
        ensures
            r == self.spec_market(asset).total_supply,
    {
        self.get_market(asset).total_supply
    }

    /// Total underlying borrowed from an asset's market.
    pub fn get_total_borrow(&self, asset: Asset) -> (r: i128)
        ensures
            r == self.spec_market(asset).total_borrow,
    {
        self.get_market(asset).total_borrow
    }

    /// A user's share balance for an asset.
    pub fn get_user_shares(&self, user: u64, asset: Asset) -> (r: i128)
        ensures
            r == self.spec_position(user, asset).shares,
    {
        self.get_account(user).position(asset).shares
    }

    /// A user's collateral balance for an asset.
    pub fn get_user_collateral(&self, user: u64, asset: Asset) -> (r: i128)
        ensures
            r == self.spec_position(user, asset).collateral,
    {
        self.get_account(user).position(asset).collateral
    }

    /// A user's debt principal for an asset, without accrued interest.
    pub fn get_user_debt(&self, user: u64, asset: Asset) -> (r: i128)
        ensures
            r == self.spec_position(user, asset).debt_principal,
    {
        self.get_account(user).position(asset).debt_principal
    }

    /// A user's interest-inclusive debt for an asset under the market's
    /// current borrow index.
    pub fn get_user_debt_total(&self, user: u64, asset: Asset) -> (r: i128)
        requires
            self.wf(),
        ensures
            r == self.spec_position(user, asset).spec_debt(
                self.spec_market(asset).borrow_index as int,
            ),
            0 <= r <= MAX_DEBT,
    {
        let market = self.get_market(asset);
        let pos = self.get_account(user).position(asset);
        proof {
            crate::market::lemma_debt_bounds(pos, market.borrow_index as int);
        }
        if pos.debt_principal == 0 {
            return 0;
        }
        proof {
            lemma_mul_nonnegative(pos.debt_principal as int, market.borrow_index as int);
            lemma_mul_upper_bound(
                pos.debt_principal as int,
                MAX_BALANCE as int,
                market.borrow_index as int,
                crate::MAX_INDEX as int,
            );
        }
        (pos.debt_principal * market.borrow_index) / pos.debt_index
    }

    /// An asset's current exchange rate (derived, not stored); callable
    /// while the market's equity is nonnegative.
    pub fn get_exchange_rate(&self, asset: Asset) -> (r: i128)
        requires
            self.wf(),
            0 <= self.spec_market(asset).spec_equity(),
        ensures
            r == self.spec_market(asset).spec_exchange_rate(),
    {
        self.get_market(asset).exchange_rate()
    }

    /// An asset's current utilization.
    pub fn get_utilization_rate(&self, asset: Asset) -> (r: i128)
        requires
            self.wf(),
        ensures
            r == self.spec_market(asset).spec_utilization(),
            0 <= r <= SCALE,
    {
        self.get_market(asset).utilization()
    }

    /// An asset's loan-to-value ratio.
    pub fn get_ltv_ratio(&self, asset: Asset) -> (r: i128)
        ensures
            r == self.spec_market(asset).ltv_ratio,
    {
        self.get_market(asset).ltv_ratio
    }

    /// An asset's liquidation threshold.
    pub fn get_liquidation_threshold(&self, asset: Asset) -> (r: i128)
        ensures
            r == self.spec_market(asset).liquidation_threshold,
    {
        self.get_market(asset).liquidation_threshold
    }

    /// An asset's current annual borrow rate under the built-in curve.
    pub fn get_borrow_rate(&self, asset: Asset) -> (r: i128)
        requires
            self.wf(),
        ensures
            r == self.spec_market(asset).spec_borrow_rate(),
    {
        let utilization = self.get_utilization_rate(asset);
        LendingPool::calculate_borrow_rate(utilization)
    }

    /// An asset's current annual supply rate: the borrow rate times
    /// utilization, less the reserve share.
    pub fn get_supply_rate(&self, asset: Asset) -> (r: i128)
        requires
            self.wf(),
        ensures
            r == self.spec_market(asset).spec_supply_rate(),
    {
        let market = self.get_market(asset);
        let utilization = self.get_utilization_rate(asset);
        let borrow_rate = LendingPool::calculate_borrow_rate(utilization);
        let reserve_factor = market.reserve_factor;
        if utilization > 0 {
            proof {
                lemma_mul_nonnegative(borrow_rate as int, utilization as int);
                lemma_mul_upper_bound(borrow_rate as int, SCALE as int, utilization as int, SCALE as int);
                lemma_mul_nonnegative(borrow_rate as int * utilization as int, SCALE - reserve_factor);
                lemma_mul_upper_bound(
                    borrow_rate as int * utilization as int,
                    SCALE as int * SCALE as int,
                    SCALE - reserve_factor,
                    SCALE as int,
                );
            }
            (borrow_rate * utilization * (SCALE - reserve_factor)) / (SCALE * SCALE)
        } else {
            0
        }
    }

    /// An asset's current borrow index.
    pub fn get_borrow_index(&self, asset: Asset) -> (r: i128)
        ensures
            r == self.spec_market(asset).borrow_index,
    {
        self.get_market(asset).borrow_index
    }

    /// A snapshot of one market: balances, the derived exchange rate, and
    /// the current rates; callable while the market's equity is
    /// nonnegative.
    pub fn get_market_info(&self, asset: Asset) -> (info: MarketInfo)
        requires
            self.wf(),
            0 <= self.spec_market(asset).spec_equity(),
        ensures
            info.total_supply == self.spec_market(asset).total_supply,
            info.total_borrow == self.spec_market(asset).total_borrow,
            info.total_shares == self.spec_market(asset).total_shares,
            info.exchange_rate == self.spec_market(asset).spec_exchange_rate(),
            info.utilization_rate == self.spec_market(asset).spec_utilization(),
            info.borrow_rate == self.spec_market(asset).spec_borrow_rate(),
            info.supply_rate == self.spec_market(asset).spec_supply_rate(),
            info.ltv_ratio == self.spec_market(asset).ltv_ratio,
    {
        let market = self.get_market(asset);
        let exchange_rate = market.exchange_rate();
        let utilization_rate = market.utilization();
        let borrow_rate = LendingPool::calculate_borrow_rate(utilization_rate);
        let supply_rate = self.get_supply_rate(asset);
        MarketInfo {
            total_supply: market.total_supply,
            total_borrow: market.total_borrow,
            total_shares: market.total_shares,
            exchange_rate,
            utilization_rate,
            borrow_rate,
            supply_rate,
            ltv_ratio: market.ltv_ratio,
        }
    }
}

/// A read-only snapshot of one market.
#[derive(Clone, Copy, Debug, PartialEq, Eq, Structural)]
pub struct MarketInfo {
    /// Underlying units supplied.
    pub total_supply: i128,
    /// Underlying units out on loan.
    pub total_borrow: i128,
    /// Supply shares issued.
    pub total_shares: i128,
    /// Derived exchange rate, scaled by `INDEX_SCALE`.
    pub exchange_rate: i128,
    /// Borrowed over supplied, scaled by `SCALE`.
    pub utilization_rate: i128,
    /// Annual borrow rate, scaled by `SCALE`.
    pub borrow_rate: i128,
    /// Annual supply rate, scaled by `SCALE`.
    pub supply_rate: i128,
    /// Loan-to-value ratio, scaled by `SCALE`.
    pub ltv_ratio: i128,
}

/// Shares minted for supplying `amount` at a market's exchange rate.
pub open spec fn spec_shares_minted(m: Market, amount: int) -> int {
    amount * INDEX_SCALE / m.spec_exchange_rate()
}

/// Underlying returned for burning `share_amount` at a market's rate.
pub open spec fn spec_shares_value(m: Market, share_amount: int) -> int {
    share_amount * m.spec_exchange_rate() / (INDEX_SCALE as int)
}

/// What a supply needs of the machine: accrual fits, the accrued market
/// is solvent with a positive exchange rate, and the grown balances stay
/// inside their caps.
pub open spec fn spec_supply_fits(m: Market, amount: i128, now: u64) -> bool {
    let m1 = m.spec_accrued(now);
    &&& m.accrue_fits(now)
    &&& 0 <= m1.spec_equity()
    &&& 0 < m1.spec_exchange_rate()
    &&& m1.total_supply + amount <= MAX_BALANCE
    &&& m1.total_shares + spec_shares_minted(m1, amount as int) <= MAX_BALANCE
}

/// What a withdrawal needs of the machine: accrual fits and the accrued
/// market is solvent.
pub open spec fn spec_withdraw_fits(m: Market, now: u64) -> bool {
    &&& m.accrue_fits(now)
    &&& 0 <= m.spec_accrued(now).spec_equity()
}

impl LendingPool {
    /// Supplies `amount` underlying to an asset's market and mints shares
    /// at the post-accrual exchange rate.
    ///
    /// Returns the shares minted.  Rejects a non-positive amount, and an
    /// amount so small that it mints no whole share; a rejected call
    /// leaves the pool untouched, accrual included.
    pub fn supply(&mut self, user: u64, asset: Asset, amount: i128, now: u64) -> (r: Result<
        i128,
        Error,
    >)
        requires
            old(self).wf(),
            spec_supply_fits(old(self).spec_market(asset), amount, now),
        ensures
            final(self).wf(),
            ({
                let m1 = old(self).spec_market(asset).spec_accrued(now);
                let minted = spec_shares_minted(m1, amount as int);
                let pos = old(self).spec_position(user, asset);
                match r {
                    Ok(shares) => {
                        &&& 0 < amount
                        &&& 0 < minted
                        &&& shares == minted
                        &&& final(self).spec_market(asset) == (Market {
                            total_supply: (m1.total_supply + amount) as i128,
                            total_shares: (m1.total_shares + minted) as i128,
                            ..m1
                        })
                        &&& final(self).spec_market(spec_other(asset)) == old(self).spec_market(
                            spec_other(asset),
                        )
                        &&& final(self).accounts@ == old(self).accounts@.insert(
                            user,
                            old(self).spec_account(user).spec_with_position(
                                asset,
                                (AssetPosition { shares: (pos.shares + minted) as i128, ..pos }),
                            ),
                        )
                    },
                    Err(e) => {
                        &&& (amount <= 0 || minted <= 0)
                        &&& e == Error::InvalidParameter
                        &&& *final(self) == *old(self)
                    },
                }
            }),
    {
        if amount <= 0 {
            return Err(Error::InvalidParameter);
        }
        let mut market = self.get_market(asset);
        market.accrue(now);
        let exchange_rate = market.exchange_rate();
        proof {
            lemma_mul_nonnegative(amount as int, INDEX_SCALE as int);
            lemma_mul_upper_bound(
                amount as int,
                MAX_BALANCE as int,
                INDEX_SCALE as int,
                INDEX_SCALE as int,
            );
        }
        let shares_to_mint = (amount * INDEX_SCALE) / exchange_rate;
        if shares_to_mint <= 0 {
            return Err(Error::InvalidParameter);
        }
        let account = self.get_account(user);
        let pos = account.position(asset);
        proof {
            if old(self).accounts@.contains_key(user) {
                lemma_sum_shares_bounds(old(self).accounts@, user, asset);
            }
        }
        let new_pos = AssetPosition { shares: pos.shares + shares_to_mint, ..pos };
        market.total_supply = market.total_supply + amount;
        market.total_shares = market.total_shares + shares_to_mint;
        let new_account = account.with_position(asset, new_pos);
        self.set_market(asset, market);
        self.set_account(user, new_account);
        proof {
            lemma_sum_shares_insert(old(self).accounts@, user, new_account, Asset::Xlm);
            lemma_sum_shares_insert(old(self).accounts@, user, new_account, Asset::Usdc);
            assert forall|u: u64| #[trigger]
                self.accounts@.contains_key(u) implies self.accounts@[u].wf() by {
                if u != user {
                    assert(old(self).accounts@.contains_key(u));
                }
            }
            assert forall|u: u64| #[trigger]
                self.accounts@.contains_key(u) implies self.accounts@[u].xlm.debt_index
                <= self.xlm_market.borrow_index && self.accounts@[u].usdc.debt_index
                <= self.usdc_market.borrow_index by {
                if u != user {
                    assert(old(self).accounts@.contains_key(u));
                }
            }
        }
        Ok(shares_to_mint)
    }

    /// Burns `share_amount` of a user's shares in an asset's market and
    /// returns their underlying value at the post-accrual exchange rate.
    ///
    /// Rejects a non-positive share amount, a share amount beyond the
    /// user's balance, and a withdrawal beyond the pool's free liquidity;
    /// a rejected call leaves the pool untouched, accrual included.
    pub fn withdraw(&mut self, user: u64, asset: Asset, share_amount: i128, now: u64) -> (r:
        Result<i128, Error>)
        requires
            old(self).wf(),
            spec_withdraw_fits(old(self).spec_market(asset), now),
        ensures
            final(self).wf(),
            ({
                let m1 = old(self).spec_market(asset).spec_accrued(now);
                let pos = old(self).spec_position(user, asset);
                let underlying = spec_shares_value(m1, share_amount as int);
                match r {
                    Ok(u_amt) => {
                        &&& 0 < share_amount <= pos.shares
                        &&& underlying <= m1.total_supply - m1.total_borrow
                        &&& u_amt == underlying
                        &&& final(self).spec_market(asset) == (Market {
                            total_supply: (m1.total_supply - underlying) as i128,
                            total_shares: (m1.total_shares - share_amount) as i128,
                            ..m1
                        })
                        &&& final(self).spec_market(spec_other(asset)) == old(self).spec_market(
                            spec_other(asset),
                        )
                        &&& final(self).accounts@ == old(self).accounts@.insert(
                            user,
                            old(self).spec_account(user).spec_with_position(
                                asset,
                                (AssetPosition {
                                    shares: (pos.shares - share_amount) as i128,
                                    ..pos
                                }),
                            ),
                        )
                    },
                    Err(e) => {
                        &&& *final(self) == *old(self)
                        &&& if share_amount <= 0 {
                            e == Error::InvalidParameter
                        } else if pos.shares < share_amount {
                            e == Error::InsufficientShareBalance
                        } else {
                            &&& m1.total_supply - m1.total_borrow < underlying
                            &&& e == Error::InsufficientLiquidity
                        }
                    },
                }
            }),
    {
        if share_amount <= 0 {
            return Err(Error::InvalidParameter);
        }
        let mut market = self.get_market(asset);
        market.accrue(now);
        let account = self.get_account(user);
        let pos = account.position(asset);
        if pos.shares < share_amount {
            return Err(Error::InsufficientShareBalance);
        }
        proof {
            if old(self).accounts@.contains_key(user) {
                lemma_sum_shares_bounds(old(self).accounts@, user, asset);
            }
            // share_amount <= pos.shares <= total shares of the accrued market
            let eq = market.spec_equity();
            lemma_mul_nonnegative(eq, INDEX_SCALE as int);
            if market.total_shares > 0 {
                // total_shares * rate <= equity * INDEX_SCALE
                lemma_fundamental_div_mod(eq * INDEX_SCALE, market.total_shares as int);
                lemma_mod_division_less_than_divisor(eq * INDEX_SCALE, market.total_shares as int);
                lemma_mul_inequality(
                    share_amount as int,
                    market.total_shares as int,
                    market.spec_exchange_rate(),
                );
                lemma_mul_upper_bound(eq, 2 * MAX_BALANCE as int, INDEX_SCALE as int, INDEX_SCALE as int);
            }
            lemma_mul_nonnegative(share_amount as int, market.spec_exchange_rate());
        }
        let exchange_rate = market.exchange_rate();
        let underlying_amount = (share_amount * exchange_rate) / INDEX_SCALE;
        let available_liquidity = market.total_supply - market.total_borrow;
        if available_liquidity < underlying_amount {
            return Err(Error::InsufficientLiquidity);
        }
        proof {
            lemma_div_pos_is_pos(share_amount * exchange_rate, INDEX_SCALE as int);
        }
        let new_pos = AssetPosition { shares: pos.shares - share_amount, ..pos };
        market.total_supply = market.total_supply - underlying_amount;
        market.total_shares = market.total_shares - share_amount;
        let new_account = account.with_position(asset, new_pos);
        self.set_market(asset, market);
        self.set_account(user, new_account);
        proof {
            lemma_sum_shares_insert(old(self).accounts@, user, new_account, Asset::Xlm);
            lemma_sum_shares_insert(old(self).accounts@, user, new_account, Asset::Usdc);
            assert forall|u: u64| #[trigger]
                self.accounts@.contains_key(u) implies self.accounts@[u].wf() by {
                if u != user {
                    assert(old(self).accounts@.contains_key(u));
                }
            }
            assert forall|u: u64| #[trigger]
                self.accounts@.contains_key(u) implies self.accounts@[u].xlm.debt_index
                <= self.xlm_market.borrow_index && self.accounts@[u].usdc.debt_index
                <= self.usdc_market.borrow_index by {
                if u != user {
                    assert(old(self).accounts@.contains_key(u));
                }
            }
        }
        Ok(underlying_amount)
    }

    /// Adds `amount` to a user's collateral balance for an asset.
    ///
    /// Collateral is kept apart from supplied shares and alone backs
    /// borrowing.  Rejects a non-positive amount and an asset that is not
    /// enabled as collateral.
    pub fn deposit_collateral(&mut self, user: u64, asset: Asset, amount: i128) -> (r: Result<
        i128,
        Error,
    >)
        requires
            old(self).wf(),
            old(self).spec_position(user, asset).collateral + amount <= MAX_BALANCE,
        ensures
            final(self).wf(),
            ({
                let pos = old(self).spec_position(user, asset);
                match r {
                    Ok(v) => {
                        &&& 0 < amount
                        &&& old(self).spec_market(asset).collateral_enabled
                        &&& v == amount
                        &&& final(self).xlm_market == old(self).xlm_market
                        &&& final(self).usdc_market == old(self).usdc_market
                        &&& final(self).accounts@ == old(self).accounts@.insert(
                            user,
                            old(self).spec_account(user).spec_with_position(
                                asset,
                                (AssetPosition {
                                    collateral: (pos.collateral + amount) as i128,
                                    ..pos
                                }),
                            ),
                        )
                    },
                    Err(e) => {
                        &&& *final(self) == *old(self)
                        &&& if amount <= 0 {
                            e == Error::InvalidParameter
                        } else {
                            &&& !old(self).spec_market(asset).collateral_enabled
                            &&& e == Error::AssetNotEnabled
                        }
                    },
                }
            }),
    {
        if amount <= 0 {
            return Err(Error::InvalidParameter);
        }
        let market = self.get_market(asset);
        if !market.collateral_enabled {
            return Err(Error::AssetNotEnabled);
        }
        let account = self.get_account(user);
        let pos = account.position(asset);
        let new_pos = AssetPosition { collateral: pos.collateral + amount, ..pos };
        let new_account = account.with_position(asset, new_pos);
        self.set_account(user, new_account);
        proof {
            lemma_sum_shares_insert(old(self).accounts@, user, new_account, Asset::Xlm);
            lemma_sum_shares_insert(old(self).accounts@, user, new_account, Asset::Usdc);
            assert forall|u: u64| #[trigger]
                self.accounts@.contains_key(u) implies self.accounts@[u].wf() by {
                if u != user {
                    assert(old(self).accounts@.contains_key(u));
                }
            }
            assert forall|u: u64| #[trigger]
                self.accounts@.contains_key(u) implies self.accounts@[u].xlm.debt_index
                <= self.xlm_market.borrow_index && self.accounts@[u].usdc.debt_index
                <= self.usdc_market.borrow_index by {
                if u != user {
                    assert(old(self).accounts@.contains_key(u));
                }
            }
        }
        Ok(amount)
    }
}

/// Round trip at par: when every issued share is backed 1:1 (equity equals
/// shares, so the exchange rate is exactly `INDEX_SCALE`), supplying an
/// amount mints exactly that many shares, the rate stays at par, and
/// burning those shares immediately passes the liquidity check and returns
/// exactly the amount supplied.
pub proof fn lemma_supply_withdraw_round_trip(m: Market, amount: i128, now: u64)
    requires
        m.wf(),
        0 < amount,
        now <= m.last_accrual_time,
        m.spec_equity() == m.total_shares,
        m.total_supply + amount <= MAX_BALANCE,
        m.total_shares + amount <= MAX_BALANCE,
    ensures
        m.spec_exchange_rate() == INDEX_SCALE,
        spec_shares_minted(m.spec_accrued(now), amount as int) == amount,
        ({
            let m1 = Market {
                total_supply: (m.total_supply + amount) as i128,
                total_shares: (m.total_shares + amount) as i128,
                ..m
            };
            &&& m1.spec_exchange_rate() == INDEX_SCALE
            &&& spec_shares_value(m1.spec_accrued(now), amount as int) == amount
            &&& spec_shares_value(m1.spec_accrued(now), amount as int) <= m1.total_supply
                - m1.total_borrow
        }),
{
    lemma_rate_at_par(m);
    assert(m.spec_accrued(now) == m);
    lemma_div_multiples_vanish(amount as int, INDEX_SCALE as int);
    let m1 = Market {
        total_supply: (m.total_supply + amount) as i128,
        total_shares: (m.total_shares + amount) as i128,
        ..m
    };
    lemma_rate_at_par(m1);
    assert(m1.spec_accrued(now) == m1);
}

/// A market whose equity equals its issued shares trades at par.
proof fn lemma_rate_at_par(m: Market)
    requires
        m.wf(),
        m.spec_equity() == m.total_shares,
    ensures
        m.spec_exchange_rate() == INDEX_SCALE,
{
    if m.total_shares != 0 {
        lemma_mul_inequality(1, m.total_shares as int, INDEX_SCALE as int);
        assert(m.spec_equity() * INDEX_SCALE == INDEX_SCALE * m.total_shares);
        lemma_div_multiples_vanish(INDEX_SCALE as int, m.total_shares as int);
        assert((m.total_shares as int * INDEX_SCALE) / (m.total_shares as int) == INDEX_SCALE
            as int) by {
            lemma_div_multiples_vanish(INDEX_SCALE as int, m.total_shares as int);
        }
    }
}

} // verus!

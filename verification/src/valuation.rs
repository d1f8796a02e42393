//! Position valuation: collateral and debt in a common USD unit, and the
//! health factor that gates liquidation.
//!
//! Prices come in as plain values, already checked by the caller (the
//! oracle component fails closed on unset or stale prices).  Collateral
//! counts only for assets enabled as collateral; debt counts only for
//! assets enabled for borrowing, at its interest-inclusive value.  The
//! health factor weights the whole collateral value by one representative
//! liquidation threshold — the collateral asset's — rather than a
//! per-asset weighted threshold; that simplification is deliberate and
//! confined to [`spec_health_factor`].

use vstd::prelude::*;
use vstd::arithmetic::div_mod::{lemma_div_is_ordered, lemma_div_pos_is_pos};
use vstd::arithmetic::mul::{lemma_mul_nonnegative, lemma_mul_upper_bound};
use crate::market::{lemma_debt_bounds, Market};
use crate::pool::LendingPool;
use crate::position::{Account, AssetPosition};
use crate::{Asset, Error, MAX_BALANCE, MAX_DEBT, MAX_PRICE, SCALE};

verus! {

/// Health factor reported for a position with no debt: comfortably above
/// any real ratio, signalling unconditional safety (999 times `SCALE`).
pub const NO_DEBT_HEALTH_FACTOR: i128 = 9_990_000_000;

/// USD prices for both assets, scaled by `SCALE`.
#[derive(Clone, Copy, Debug, PartialEq, Eq, Structural)]
pub struct Prices {
    /// Price of the collateral asset.
    pub xlm: i128,
    /// Price of the borrowable asset.
    pub usdc: i128,
}

impl Prices {
    /// Both prices are positive and within the machine bound; a zero
    /// (unset) price must be rejected before valuation, not fed into it.
    pub open spec fn wf(self) -> bool {
        &&& 0 < self.xlm <= MAX_PRICE
        &&& 0 < self.usdc <= MAX_PRICE
    }

    /// The price of one asset.
    pub open spec fn spec_price(self, asset: Asset) -> i128 {
        match asset {
            Asset::Xlm => self.xlm,
            Asset::Usdc => self.usdc,
        }
    }

    /// Reads the price of one asset.
    pub fn price(&self, asset: Asset) -> (r: i128)
        ensures
            r == self.spec_price(asset),
    {
        match asset {
            Asset::Xlm => self.xlm,
            Asset::Usdc => self.usdc,
        }
    }

    /// The built-in fallback quotes used when no oracle is wired up:
    /// $0.30 for the collateral asset, $1.00 for the stablecoin.
    pub fn fallback() -> (p: Prices)
        ensures
            p.xlm == 3_000_000,
            p.usdc == SCALE,
            p.wf(),
    {
        Prices { xlm: 3_000_000, usdc: SCALE }
    }
}

/// A user's aggregate exposure, as the valuation reports it.
#[derive(Clone, Copy, Debug, PartialEq, Eq, Structural)]
pub struct UserPosition {
    /// USD value of all collateral on assets enabled as collateral.
    pub collateral_value_usd: i128,
    /// USD value of all interest-inclusive debt on borrowable assets.
    pub debt_value_usd: i128,
    /// LTV-weighted collateral value not yet consumed by debt.
    pub available_borrow_usd: i128,
    /// Risk-weighted collateral over debt; below `SCALE` means
    /// liquidatable, [`NO_DEBT_HEALTH_FACTOR`] means no debt at all.
    pub health_factor: i128,
}

/// USD value of one asset's collateral: 0 unless the asset is enabled as
/// collateral.
pub open spec fn spec_collateral_value(m: Market, p: AssetPosition, price: i128) -> int {
    if m.collateral_enabled {
        p.collateral * price / (SCALE as int)
    } else {
        0
    }
}

/// USD value of one asset's interest-inclusive debt: 0 unless the asset
/// is enabled for borrowing.
pub open spec fn spec_debt_value(m: Market, p: AssetPosition, price: i128) -> int {
    if m.borrow_enabled {
        p.spec_debt(m.borrow_index as int) * price / (SCALE as int)
    } else {
        0
    }
}

/// USD value of an account's collateral across both assets.
pub open spec fn spec_collateral_usd(
    xlm_m: Market,
    usdc_m: Market,
    a: Account,
    prices: Prices,
) -> int {
    spec_collateral_value(xlm_m, a.xlm, prices.xlm) + spec_collateral_value(
        usdc_m,
        a.usdc,
        prices.usdc,
    )
}

/// LTV-weighted USD value of an account's collateral across both assets.
pub open spec fn spec_weighted_collateral_usd(
    xlm_m: Market,
    usdc_m: Market,
    a: Account,
    prices: Prices,
) -> int {
    spec_collateral_value(xlm_m, a.xlm, prices.xlm) * xlm_m.ltv_ratio / (SCALE as int)
        + spec_collateral_value(usdc_m, a.usdc, prices.usdc) * usdc_m.ltv_ratio / (SCALE as int)
}

/// USD value of an account's debt across both assets.
pub open spec fn spec_debt_usd(xlm_m: Market, usdc_m: Market, a: Account, prices: Prices) -> int {
    spec_debt_value(xlm_m, a.xlm, prices.xlm) + spec_debt_value(usdc_m, a.usdc, prices.usdc)
}

/// Borrowing headroom: weighted collateral beyond current debt, floored
/// at 0.
pub open spec fn spec_available_borrow_usd(
    xlm_m: Market,
    usdc_m: Market,
    a: Account,
    prices: Prices,
) -> int {
    let w = spec_weighted_collateral_usd(xlm_m, usdc_m, a, prices);
    let d = spec_debt_usd(xlm_m, usdc_m, a, prices);
    if w > d {
        w - d
    } else {
        0
    }
}

/// The health factor: collateral value weighted by the collateral
/// asset's liquidation threshold, over debt value; the no-debt sentinel
/// when there is no debt.
pub open spec fn spec_health_factor(
    xlm_m: Market,
    usdc_m: Market,
    a: Account,
    prices: Prices,
) -> int {
    let c = spec_collateral_usd(xlm_m, usdc_m, a, prices);
    let d = spec_debt_usd(xlm_m, usdc_m, a, prices);
    if d == 0 {
        NO_DEBT_HEALTH_FACTOR as int
    } else {
        c * xlm_m.liquidation_threshold / d
    }
}

/// Computes the USD value of one asset's collateral.
fn collateral_value(m: &Market, p: &AssetPosition, price: i128) -> (v: i128)
    requires
        m.wf(),
        p.wf(),
        0 < price <= MAX_PRICE,
    ensures
        v == spec_collateral_value(*m, *p, price),
        0 <= v <= MAX_BALANCE as int * MAX_PRICE / (SCALE as int),
{
    if !m.collateral_enabled {
        return 0;
    }
    proof {
        lemma_mul_nonnegative(p.collateral as int, price as int);
        lemma_mul_upper_bound(p.collateral as int, MAX_BALANCE as int, price as int, MAX_PRICE as int);
        lemma_div_pos_is_pos(p.collateral * price, SCALE as int);
        lemma_div_is_ordered(
            p.collateral * price,
            MAX_BALANCE as int * MAX_PRICE as int,
            SCALE as int,
        );
    }
    (p.collateral * price) / SCALE
}

/// Computes the USD value of one asset's interest-inclusive debt.
fn debt_value(m: &Market, p: &AssetPosition, price: i128) -> (v: i128)
    requires
        m.wf(),
        p.wf(),
        0 < price <= MAX_PRICE,
    ensures
        v == spec_debt_value(*m, *p, price),
        0 <= v <= MAX_DEBT as int * MAX_PRICE / (SCALE as int),
{
    if !m.borrow_enabled {
        return 0;
    }
    proof {
        lemma_debt_bounds(*p, m.borrow_index as int);
    }
    let debt = if p.debt_principal == 0 {
        0
    } else {
        proof {
            lemma_mul_nonnegative(p.debt_principal as int, m.borrow_index as int);
            lemma_mul_upper_bound(
                p.debt_principal as int,
                MAX_BALANCE as int,
                m.borrow_index as int,
                crate::MAX_INDEX as int,
            );
        }
        (p.debt_principal * m.borrow_index) / p.debt_index
    };
    proof {
        lemma_mul_nonnegative(p.spec_debt(m.borrow_index as int), price as int);
        lemma_mul_upper_bound(
            p.spec_debt(m.borrow_index as int),
            MAX_DEBT as int,
            price as int,
            MAX_PRICE as int,
        );
        lemma_div_pos_is_pos(p.spec_debt(m.borrow_index as int) * price, SCALE as int);
        lemma_div_is_ordered(
            p.spec_debt(m.borrow_index as int) * price,
            MAX_DEBT as int * MAX_PRICE as int,
            SCALE as int,
        );
    }
    (debt * price) / SCALE
}

/// Values one account against the two markets at the given prices.
pub(crate) fn value_account(
    xlm_m: &Market,
    usdc_m: &Market,
    a: &Account,
    prices: &Prices,
) -> (p: UserPosition)
    requires
        xlm_m.wf(),
        usdc_m.wf(),
        a.wf(),
        prices.wf(),
    ensures
        p.collateral_value_usd == spec_collateral_usd(*xlm_m, *usdc_m, *a, *prices),
        p.debt_value_usd == spec_debt_usd(*xlm_m, *usdc_m, *a, *prices),
        p.available_borrow_usd == spec_available_borrow_usd(*xlm_m, *usdc_m, *a, *prices),
        p.health_factor == spec_health_factor(*xlm_m, *usdc_m, *a, *prices),
        0 <= p.collateral_value_usd <= 2 * (MAX_BALANCE as int * MAX_PRICE / (SCALE as int)),
        0 <= p.debt_value_usd <= 2 * (MAX_DEBT as int * MAX_PRICE / (SCALE as int)),
        0 <= p.available_borrow_usd <= 2 * (MAX_BALANCE as int * MAX_PRICE / (SCALE as int)),
{
    let xlm_value = collateral_value(xlm_m, &a.xlm, prices.xlm);
    let usdc_value = collateral_value(usdc_m, &a.usdc, prices.usdc);
    let collateral_value_usd = xlm_value + usdc_value;
    proof {
        crate::market::lemma_frac_le(xlm_value as int, xlm_m.ltv_ratio as int, SCALE as int);
        crate::market::lemma_frac_le(usdc_value as int, usdc_m.ltv_ratio as int, SCALE as int);
    }
    let weighted_collateral_usd = (xlm_value * xlm_m.ltv_ratio) / SCALE + (usdc_value
        * usdc_m.ltv_ratio) / SCALE;
    let debt_value_usd = debt_value(xlm_m, &a.xlm, prices.xlm) + debt_value(
        usdc_m,
        &a.usdc,
        prices.usdc,
    );
    let available_borrow_usd = if weighted_collateral_usd > debt_value_usd {
        weighted_collateral_usd - debt_value_usd
    } else {
        0
    };
    let health_factor = if debt_value_usd == 0 {
        NO_DEBT_HEALTH_FACTOR
    } else {
        proof {
            lemma_mul_nonnegative(collateral_value_usd as int, xlm_m.liquidation_threshold as int);
            lemma_mul_upper_bound(
                collateral_value_usd as int,
                2 * (MAX_BALANCE as int * MAX_PRICE / (SCALE as int)),
                xlm_m.liquidation_threshold as int,
                SCALE as int,
            );
        }
        (collateral_value_usd * xlm_m.liquidation_threshold) / debt_value_usd
    };
    UserPosition { collateral_value_usd, debt_value_usd, available_borrow_usd, health_factor }
}

impl LendingPool {
    /// A user's whole position: collateral and debt in USD, borrowing
    /// headroom, and the health factor, at the given prices and the
    /// markets' current indexes.
    pub fn get_user_position(&self, user: u64, prices: Prices) -> (p: UserPosition)
        requires
            self.wf(),
            prices.wf(),
        ensures
            p.collateral_value_usd == spec_collateral_usd(
                self.xlm_market,
                self.usdc_market,
                self.spec_account(user),
                prices,
            ),
            p.debt_value_usd == spec_debt_usd(
                self.xlm_market,
                self.usdc_market,
                self.spec_account(user),
                prices,
            ),
            p.available_borrow_usd == spec_available_borrow_usd(
                self.xlm_market,
                self.usdc_market,
                self.spec_account(user),
                prices,
            ),
            p.health_factor == spec_health_factor(
                self.xlm_market,
                self.usdc_market,
                self.spec_account(user),
                prices,
            ),
    {
        let account = self.get_account(user);
        value_account(&self.xlm_market, &self.usdc_market, &account, &prices)
    }

    /// A user's health factor; see [`spec_health_factor`].
    pub fn get_health_factor(&self, user: u64, prices: Prices) -> (r: i128)
        requires
            self.wf(),
            prices.wf(),
        ensures
            r == spec_health_factor(
                self.xlm_market,
                self.usdc_market,
                self.spec_account(user),
                prices,
            ),
    {
        let position = self.get_user_position(user, prices);
        position.health_factor
    }

    /// Withdraws collateral, re-valuing the position as if the collateral
    /// were already gone and rejecting the withdrawal if that would leave
    /// debt standing against an unhealthy position.
    pub fn withdraw_collateral(&mut self, user: u64, asset: Asset, amount: i128, prices: Prices)
        -> (r: Result<i128, Error>)
        requires
            old(self).wf(),
            prices.wf(),
        ensures
            final(self).wf(),
            ({
                let pos = old(self).spec_position(user, asset);
                let a1 = old(self).spec_account(user).spec_with_position(
                    asset,
                    (AssetPosition { collateral: (pos.collateral - amount) as i128, ..pos }),
                );
                let hypo_debt = spec_debt_usd(
                    old(self).xlm_market,
                    old(self).usdc_market,
                    a1,
                    prices,
                );
                let hypo_health = spec_health_factor(
                    old(self).xlm_market,
                    old(self).usdc_market,
                    a1,
                    prices,
                );
                match r {
                    Ok(v) => {
                        &&& 0 < amount <= pos.collateral
                        &&& !(hypo_debt > 0 && hypo_health < SCALE)
                        &&& v == amount
                        &&& final(self).xlm_market == old(self).xlm_market
                        &&& final(self).usdc_market == old(self).usdc_market
                        &&& final(self).accounts@ == old(self).accounts@.insert(user, a1)
                    },
                    Err(e) => {
                        &&& *final(self) == *old(self)
                        &&& if amount <= 0 {
                            e == Error::InvalidParameter
                        } else if pos.collateral < amount {
                            e == Error::InsufficientCollateral
                        } else {
                            &&& hypo_debt > 0 && hypo_health < SCALE
                            &&& e == Error::UnhealthyWithdrawal
                        }
                    },
                }
            }),
    {
        if amount <= 0 {
            return Err(Error::InvalidParameter);
        }
        let account = self.get_account(user);
        let pos = account.position(asset);
        if pos.collateral < amount {
            return Err(Error::InsufficientCollateral);
        }
        let new_pos = AssetPosition { collateral: pos.collateral - amount, ..pos };
        let new_account = account.with_position(asset, new_pos);
        let position = value_account(&self.xlm_market, &self.usdc_market, &new_account, &prices);
        if position.debt_value_usd > 0 && position.health_factor < SCALE {
            return Err(Error::UnhealthyWithdrawal);
        }
        self.set_account(user, new_account);
        proof {
            crate::position::lemma_sum_shares_insert(
                old(self).accounts@,
                user,
                new_account,
                Asset::Xlm,
            );
            crate::position::lemma_sum_shares_insert(
                old(self).accounts@,
                user,
                new_account,
                Asset::Usdc,
            );
            assert forall|u: u64| #[trigger]
                self.accounts@.contains_key(u) implies self.accounts@[u].wf() by {
                if u != user {
                    assert(old(self).accounts@.contains_key(u));
                }
            }
            assert forall|u: u64| #[trigger]
                self.accounts@.contains_key(u) implies self.accounts@[u].xlm.debt_index
                <= self.xlm_market.borrow_index && self.accounts@[u].usdc.debt_index
                <= self.usdc_market.borrow_index by {
                if u != user {
                    assert(old(self).accounts@.contains_key(u));
                }
            }
        }
        Ok(amount)
    }
}

} // verus!

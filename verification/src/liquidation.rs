//! Partial liquidation of under-collateralized positions.
//!
//! A liquidator repays part of an unhealthy borrower's debt and seizes
//! collateral worth the repaid value plus a bonus, in one atomic step.
//! The repayment is capped at half the debt (the close factor), the debt
//! principal falls by the repaid fraction of the interest-inclusive debt,
//! and the borrower's collateral record shrinks by the seized amount;
//! moving the underlying tokens themselves is the custody layer's job.

use vstd::prelude::*;
use vstd::arithmetic::div_mod::{lemma_div_is_ordered, lemma_div_pos_is_pos};
use vstd::arithmetic::mul::{lemma_mul_nonnegative, lemma_mul_upper_bound};
use crate::market::{lemma_debt_bounds, lemma_frac_le, Market};
use crate::pool::LendingPool;
use crate::position::{lemma_sum_shares_insert, AssetPosition};
use crate::valuation::{spec_health_factor, value_account, Prices};
use crate::{Asset, Error, INDEX_SCALE, MAX_BALANCE, MAX_DEBT, MAX_PRICE, SCALE};

verus! {

/// Largest fraction of a position's debt one liquidation may repay (50%).
pub const CLOSE_FACTOR: i128 = 5_000_000;

/// Extra collateral value awarded to the liquidator (5%).
pub const LIQUIDATION_BONUS: i128 = 500_000;

/// Debt principal left after repaying `actual` of an interest-inclusive
/// `debt`: zero on full repayment, else reduced by the repaid fraction
/// (computed through an `INDEX_SCALE`-based ratio, truncation included).
pub open spec fn spec_liquidated_principal(principal: int, actual: int, debt: int) -> int {
    if actual >= debt {
        0
    } else {
        let ratio = actual * INDEX_SCALE / debt;
        principal - principal * ratio / (INDEX_SCALE as int)
    }
}

/// Collateral units seized for repaying `actual` at the given prices:
/// the repaid value plus the liquidation bonus, at the collateral price.
pub open spec fn spec_collateral_seized(
    actual: int,
    repay_price: i128,
    collateral_price: i128,
) -> int {
    let repay_value = actual * repay_price / (SCALE as int);
    let bonus_value = repay_value * LIQUIDATION_BONUS / (SCALE as int);
    (repay_value + bonus_value) * SCALE / (collateral_price as int)
}

impl LendingPool {
    /// Liquidates part of an unhealthy borrower's debt position.
    ///
    /// Interest is accrued on the repay asset first; eligibility is then
    /// judged on the fresh valuation.  Rejects a non-positive repay
    /// amount, a healthy position (health factor at or above `SCALE`), a
    /// borrower without debt in the repay asset, and a seizure beyond the
    /// borrower's collateral.  On success the requested repay is capped
    /// at half the debt, the borrower's principal falls by the repaid
    /// fraction, the market's borrows fall by the repaid amount, and the
    /// seized collateral is returned; a rejected call leaves the pool
    /// untouched, accrual included.
    pub fn liquidate(
        &mut self,
        liquidator: u64,
        borrower: u64,
        repay_asset: Asset,
        repay_amount: i128,
        collateral_asset: Asset,
        prices: Prices,
        now: u64,
    ) -> (r: Result<i128, Error>)
        requires
            old(self).wf(),
            prices.wf(),
            old(self).spec_market(repay_asset).accrue_fits(now),
        ensures
            final(self).wf(),
            ({
                let m1 = old(self).spec_market(repay_asset).spec_accrued(now);
                let pool1 = old(self).spec_with_market(repay_asset, m1);
                let account = old(self).spec_account(borrower);
                let health = spec_health_factor(
                    pool1.xlm_market,
                    pool1.usdc_market,
                    account,
                    prices,
                );
                let pos = account.spec_position(repay_asset);
                let debt = pos.spec_debt(m1.borrow_index as int);
                let max_repay = debt * CLOSE_FACTOR / (SCALE as int);
                let actual = if repay_amount > max_repay {
                    max_repay
                } else {
                    repay_amount as int
                };
                let seize = spec_collateral_seized(
                    actual,
                    prices.spec_price(repay_asset),
                    prices.spec_price(collateral_asset),
                );
                let acct1 = account.spec_with_position(
                    repay_asset,
                    (AssetPosition {
                        debt_principal: spec_liquidated_principal(
                            pos.debt_principal as int,
                            actual,
                            debt,
                        ) as i128,
                        ..pos
                    }),
                );
                let pos_c = acct1.spec_position(collateral_asset);
                let acct2 = acct1.spec_with_position(
                    collateral_asset,
                    (AssetPosition { collateral: (pos_c.collateral - seize) as i128, ..pos_c }),
                );
                match r {
                    Ok(s) => {
                        &&& 0 < repay_amount
                        &&& health < SCALE
                        &&& 0 < debt
                        &&& seize <= account.spec_position(collateral_asset).collateral
                        &&& s == seize
                        &&& final(self).spec_market(repay_asset) == (Market {
                            total_borrow: (if m1.total_borrow > actual {
                                m1.total_borrow - actual
                            } else {
                                0
                            }) as i128,
                            ..m1
                        })
                        &&& collateral_asset != repay_asset ==> final(self).spec_market(
                            collateral_asset,
                        ) == old(self).spec_market(collateral_asset)
                        &&& final(self).accounts@ == old(self).accounts@.insert(borrower, acct2)
                    },
                    Err(e) => {
                        &&& *final(self) == *old(self)
                        &&& if repay_amount <= 0 {
                            e == Error::InvalidParameter
                        } else if health >= SCALE {
                            e == Error::PositionHealthy
                        } else if debt == 0 {
                            e == Error::NoDebt
                        } else {
                            &&& account.spec_position(collateral_asset).collateral < seize
                            &&& e == Error::InsufficientCollateral
                        }
                    },
                }
            }),
    {
        if repay_amount <= 0 {
            return Err(Error::InvalidParameter);
        }
        let mut market = self.get_market(repay_asset);
        market.accrue(now);
        let account = self.get_account(borrower);
        let borrower_position = match repay_asset {
            Asset::Xlm => value_account(&market, &self.usdc_market, &account, &prices),
            Asset::Usdc => value_account(&self.xlm_market, &market, &account, &prices),
        };
        if borrower_position.health_factor >= SCALE {
            return Err(Error::PositionHealthy);
        }
        let pos = account.position(repay_asset);
        proof {
            lemma_debt_bounds(pos, market.borrow_index as int);
            if pos.debt_principal != 0 {
                lemma_mul_nonnegative(pos.debt_principal as int, market.borrow_index as int);
                lemma_mul_upper_bound(
                    pos.debt_principal as int,
                    MAX_BALANCE as int,
                    market.borrow_index as int,
                    crate::MAX_INDEX as int,
                );
            }
        }
        let borrower_debt = if pos.debt_principal == 0 {
            0
        } else {
            (pos.debt_principal * market.borrow_index) / pos.debt_index
        };
        if borrower_debt == 0 {
            return Err(Error::NoDebt);
        }
        proof {
            lemma_mul_nonnegative(borrower_debt as int, CLOSE_FACTOR as int);
            lemma_mul_upper_bound(
                borrower_debt as int,
                MAX_DEBT as int,
                CLOSE_FACTOR as int,
                SCALE as int,
            );
            lemma_frac_le(borrower_debt as int, CLOSE_FACTOR as int, SCALE as int);
        }
        let max_repay = (borrower_debt * CLOSE_FACTOR) / SCALE;
        let actual_repay = if repay_amount > max_repay {
            max_repay
        } else {
            repay_amount
        };
        let repay_price = prices.price(repay_asset);
        let collateral_price = prices.price(collateral_asset);
        proof {
            lemma_mul_nonnegative(actual_repay as int, repay_price as int);
            lemma_mul_upper_bound(
                actual_repay as int,
                MAX_DEBT as int,
                repay_price as int,
                MAX_PRICE as int,
            );
            lemma_div_pos_is_pos(actual_repay * repay_price, SCALE as int);
            lemma_div_is_ordered(
                actual_repay * repay_price,
                MAX_DEBT as int * MAX_PRICE as int,
                SCALE as int,
            );
        }
        let repay_value_usd = (actual_repay * repay_price) / SCALE;
        proof {
            lemma_frac_le(repay_value_usd as int, LIQUIDATION_BONUS as int, SCALE as int);
        }
        let bonus_value_usd = (repay_value_usd * LIQUIDATION_BONUS) / SCALE;
        let total_value_usd = repay_value_usd + bonus_value_usd;
        proof {
            lemma_mul_nonnegative(total_value_usd as int, SCALE as int);
            lemma_mul_upper_bound(
                total_value_usd as int,
                2 * (MAX_DEBT as int * MAX_PRICE / (SCALE as int)),
                SCALE as int,
                SCALE as int,
            );
            lemma_div_pos_is_pos(total_value_usd * SCALE, collateral_price as int);
        }
        let collateral_to_seize = (total_value_usd * SCALE) / collateral_price;
        let borrower_collateral = account.position(collateral_asset).collateral;
        if borrower_collateral < collateral_to_seize {
            return Err(Error::InsufficientCollateral);
        }
        proof {
            lemma_mul_nonnegative(actual_repay as int, INDEX_SCALE as int);
            lemma_mul_upper_bound(
                actual_repay as int,
                MAX_DEBT as int,
                INDEX_SCALE as int,
                INDEX_SCALE as int,
            );
            lemma_mul_inequality_ratio(actual_repay as int, borrower_debt as int);
        }
        let new_principal = if actual_repay >= borrower_debt {
            0
        } else {
            let debt_reduction_ratio = (actual_repay * INDEX_SCALE) / borrower_debt;
            proof {
                lemma_frac_le(pos.debt_principal as int, debt_reduction_ratio as int, INDEX_SCALE as int);
            }
            pos.debt_principal - (pos.debt_principal * debt_reduction_ratio) / INDEX_SCALE
        };
        let new_debt_pos = AssetPosition { debt_principal: new_principal, ..pos };
        let acct1 = account.with_position(repay_asset, new_debt_pos);
        let pos_c = acct1.position(collateral_asset);
        let new_coll_pos = AssetPosition { collateral: pos_c.collateral - collateral_to_seize, ..pos_c };
        let acct2 = acct1.with_position(collateral_asset, new_coll_pos);
        let new_total_borrow = if market.total_borrow > actual_repay {
            market.total_borrow - actual_repay
        } else {
            0
        };
        market.total_borrow = new_total_borrow;
        self.set_market(repay_asset, market);
        self.set_account(borrower, acct2);
        proof {
            lemma_sum_shares_insert(old(self).accounts@, borrower, acct2, Asset::Xlm);
            lemma_sum_shares_insert(old(self).accounts@, borrower, acct2, Asset::Usdc);
            assert forall|u: u64| #[trigger]
                self.accounts@.contains_key(u) implies self.accounts@[u].wf() by {
                if u != borrower {
                    assert(old(self).accounts@.contains_key(u));
                }
            }
            assert forall|u: u64| #[trigger]
                self.accounts@.contains_key(u) implies self.accounts@[u].xlm.debt_index
                <= self.xlm_market.borrow_index && self.accounts@[u].usdc.debt_index
                <= self.usdc_market.borrow_index by {
                if u != borrower {
                    assert(old(self).accounts@.contains_key(u));
                }
            }
        }
        Ok(collateral_to_seize)
    }
}

/// The `INDEX_SCALE`-based repay ratio stays within `INDEX_SCALE` while
/// the repaid amount stays within the debt.
proof fn lemma_mul_inequality_ratio(actual: int, debt: int)
    requires
        0 <= actual,
        0 < debt,
        actual < debt,
    ensures
        0 <= actual * INDEX_SCALE / debt <= INDEX_SCALE,
{
    lemma_mul_nonnegative(actual, INDEX_SCALE as int);
    lemma_div_pos_is_pos(actual * INDEX_SCALE, debt);
    vstd::arithmetic::mul::lemma_mul_inequality(actual, debt, INDEX_SCALE as int);
    lemma_div_is_ordered(actual * INDEX_SCALE, debt * INDEX_SCALE, debt);
    vstd::arithmetic::div_mod::lemma_div_multiples_vanish(INDEX_SCALE as int, debt);
}

} // verus!

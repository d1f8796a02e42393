//! Borrowing against collateral, and repayment.
//!
//! A borrow first accrues interest, then checks liquidity and the LTV
//! constraint against the freshly valued position.  On success any
//! accrued-but-uncapitalized interest is folded into the principal and
//! the origin index is reset to the market's current borrow index
//! (capitalize-then-reset), so no compounding history is lost.  Repayment
//! works against the interest-inclusive debt and is capped at it.

use vstd::prelude::*;
use vstd::arithmetic::mul::{lemma_mul_nonnegative, lemma_mul_upper_bound};
use vstd::arithmetic::div_mod::lemma_div_pos_is_pos;
use crate::market::{lemma_debt_bounds, Market};
use crate::pool::{spec_other, LendingPool};
use crate::position::{lemma_sum_shares_insert, AssetPosition};
use crate::valuation::{spec_available_borrow_usd, value_account, Prices};
use crate::{Asset, Error, MAX_BALANCE, MAX_PRICE, SCALE};

verus! {

/// What a borrow needs of the machine: accrual fits, and the capitalized
/// principal stays inside its cap.
pub open spec fn spec_borrow_fits(m: Market, pos: AssetPosition, amount: i128, now: u64) -> bool {
    let m1 = m.spec_accrued(now);
    &&& m.accrue_fits(now)
    &&& pos.spec_debt(m1.borrow_index as int) + amount <= MAX_BALANCE
}

/// What a repayment needs of the machine: accrual fits, and the
/// capitalized debt stays inside the principal cap.
pub open spec fn spec_repay_fits(m: Market, pos: AssetPosition, now: u64) -> bool {
    let m1 = m.spec_accrued(now);
    &&& m.accrue_fits(now)
    &&& pos.spec_debt(m1.borrow_index as int) <= MAX_BALANCE
}

impl LendingPool {
    /// Borrows `amount` underlying against the user's collateral.
    ///
    /// Rejects a non-positive amount, an asset not enabled for borrowing,
    /// an amount beyond the pool's free liquidity, and a borrow whose USD
    /// value exceeds the position's remaining LTV headroom.  On success
    /// the user's prior interest is capitalized into the principal, the
    /// origin index is reset, and the market's borrows grow by `amount`.
    /// A rejected call leaves the pool untouched, accrual included.
    pub fn borrow(&mut self, user: u64, asset: Asset, amount: i128, prices: Prices, now: u64)
        -> (r: Result<i128, Error>)
        requires
            old(self).wf(),
            prices.wf(),
            spec_borrow_fits(
                old(self).spec_market(asset),
                old(self).spec_position(user, asset),
                amount,
                now,
            ),
        ensures
            final(self).wf(),
            ({
                let m1 = old(self).spec_market(asset).spec_accrued(now);
                let pool1 = old(self).spec_with_market(asset, m1);
                let pos = old(self).spec_position(user, asset);
                let bv = amount * prices.spec_price(asset) / (SCALE as int);
                let avail = spec_available_borrow_usd(
                    pool1.xlm_market,
                    pool1.usdc_market,
                    old(self).spec_account(user),
                    prices,
                );
                match r {
                    Ok(v) => {
                        &&& 0 < amount
                        &&& old(self).spec_market(asset).borrow_enabled
                        &&& amount <= m1.total_supply - m1.total_borrow
                        &&& bv <= avail
                        &&& v == amount
                        &&& final(self).spec_market(asset) == (Market {
                            total_borrow: (m1.total_borrow + amount) as i128,
                            ..m1
                        })
                        &&& final(self).spec_market(spec_other(asset)) == old(self).spec_market(
                            spec_other(asset),
                        )
                        &&& final(self).accounts@ == old(self).accounts@.insert(
                            user,
                            old(self).spec_account(user).spec_with_position(
                                asset,
                                (AssetPosition {
                                    debt_principal: (pos.spec_debt(m1.borrow_index as int)
                                        + amount) as i128,
                                    debt_index: m1.borrow_index,
                                    ..pos
                                }),
                            ),
                        )
                    },
                    Err(e) => {
                        &&& *final(self) == *old(self)
                        &&& if amount <= 0 {
                            e == Error::InvalidParameter
                        } else if !old(self).spec_market(asset).borrow_enabled {
                            e == Error::AssetNotEnabled
                        } else if m1.total_supply - m1.total_borrow < amount {
                            e == Error::InsufficientLiquidity
                        } else {
                            &&& bv > avail
                            &&& e == Error::LtvExceeded
                        }
                    },
                }
            }),
    {
        if amount <= 0 {
            return Err(Error::InvalidParameter);
        }
        let market0 = self.get_market(asset);
        if !market0.borrow_enabled {
            return Err(Error::AssetNotEnabled);
        }
        let mut market = market0;
        market.accrue(now);
        let available_liquidity = market.total_supply - market.total_borrow;
        if available_liquidity < amount {
            return Err(Error::InsufficientLiquidity);
        }
        let account = self.get_account(user);
        let position = match asset {
            Asset::Xlm => value_account(&market, &self.usdc_market, &account, &prices),
            Asset::Usdc => value_account(&self.xlm_market, &market, &account, &prices),
        };
        let asset_price = prices.price(asset);
        proof {
            lemma_mul_nonnegative(amount as int, asset_price as int);
            lemma_mul_upper_bound(amount as int, MAX_BALANCE as int, asset_price as int, MAX_PRICE as int);
            lemma_div_pos_is_pos(amount * asset_price, SCALE as int);
        }
        let borrow_value_usd = (amount * asset_price) / SCALE;
        let new_total_debt_usd = position.debt_value_usd + borrow_value_usd;
        if new_total_debt_usd > position.available_borrow_usd + position.debt_value_usd {
            return Err(Error::LtvExceeded);
        }
        let pos = account.position(asset);
        proof {
            lemma_debt_bounds(pos, market.borrow_index as int);
            if pos.debt_principal != 0 {
                lemma_mul_nonnegative(pos.debt_principal as int, market.borrow_index as int);
                lemma_mul_upper_bound(
                    pos.debt_principal as int,
                    MAX_BALANCE as int,
                    market.borrow_index as int,
                    crate::MAX_INDEX as int,
                );
            }
        }
        let current_debt = if pos.debt_principal == 0 {
            0
        } else {
            (pos.debt_principal * market.borrow_index) / pos.debt_index
        };
        let new_pos = AssetPosition {
            debt_principal: current_debt + amount,
            debt_index: market.borrow_index,
            ..pos
        };
        market.total_borrow = market.total_borrow + amount;
        let new_account = account.with_position(asset, new_pos);
        self.set_market(asset, market);
        self.set_account(user, new_account);
        proof {
            lemma_sum_shares_insert(old(self).accounts@, user, new_account, Asset::Xlm);
            lemma_sum_shares_insert(old(self).accounts@, user, new_account, Asset::Usdc);
            assert forall|u: u64| #[trigger]
                self.accounts@.contains_key(u) implies self.accounts@[u].wf() by {
                if u != user {
                    assert(old(self).accounts@.contains_key(u));
                }
            }
            assert forall|u: u64| #[trigger]
                self.accounts@.contains_key(u) implies self.accounts@[u].xlm.debt_index
                <= self.xlm_market.borrow_index && self.accounts@[u].usdc.debt_index
                <= self.usdc_market.borrow_index by {
                if u != user {
                    assert(old(self).accounts@.contains_key(u));
                }
            }
        }
        Ok(amount)
    }

    /// Repays up to the user's interest-inclusive debt.
    ///
    /// Returns the amount actually repaid: the requested amount, capped
    /// at the outstanding debt.  The remaining debt is capitalized into
    /// the principal and the origin index reset, so repaying at least the
    /// debt zeroes the principal exactly.  Rejects a non-positive amount
    /// and a user with no outstanding debt; a rejected call leaves the
    /// pool untouched, accrual included.
    pub fn repay(&mut self, user: u64, asset: Asset, amount: i128, now: u64) -> (r: Result<
        i128,
        Error,
    >)
        requires
            old(self).wf(),
            spec_repay_fits(
                old(self).spec_market(asset),
                old(self).spec_position(user, asset),
                now,
            ),
        ensures
            final(self).wf(),
            ({
                let m1 = old(self).spec_market(asset).spec_accrued(now);
                let pos = old(self).spec_position(user, asset);
                let debt = pos.spec_debt(m1.borrow_index as int);
                let repaid = if amount > debt {
                    debt
                } else {
                    amount as int
                };
                match r {
                    Ok(v) => {
                        &&& 0 < amount
                        &&& 0 < debt
                        &&& v == repaid
                        &&& amount > debt ==> v == debt
                        &&& final(self).spec_market(asset) == (Market {
                            total_borrow: (if m1.total_borrow > repaid {
                                m1.total_borrow - repaid
                            } else {
                                0
                            }) as i128,
                            ..m1
                        })
                        &&& final(self).spec_market(spec_other(asset)) == old(self).spec_market(
                            spec_other(asset),
                        )
                        &&& final(self).accounts@ == old(self).accounts@.insert(
                            user,
                            old(self).spec_account(user).spec_with_position(
                                asset,
                                (AssetPosition {
                                    debt_principal: (debt - repaid) as i128,
                                    debt_index: m1.borrow_index,
                                    ..pos
                                }),
                            ),
                        )
                        &&& amount >= debt ==> final(self).spec_position(user, asset).debt_principal
                            == 0
                    },
                    Err(e) => {
                        &&& *final(self) == *old(self)
                        &&& if amount <= 0 {
                            e == Error::InvalidParameter
                        } else {
                            &&& debt == 0
                            &&& e == Error::NoDebt
                        }
                    },
                }
            }),
    {
        if amount <= 0 {
            return Err(Error::InvalidParameter);
        }
        let mut market = self.get_market(asset);
        market.accrue(now);
        let account = self.get_account(user);
        let pos = account.position(asset);
        proof {
            lemma_debt_bounds(pos, market.borrow_index as int);
            if pos.debt_principal != 0 {
                lemma_mul_nonnegative(pos.debt_principal as int, market.borrow_index as int);
                lemma_mul_upper_bound(
                    pos.debt_principal as int,
                    MAX_BALANCE as int,
                    market.borrow_index as int,
                    crate::MAX_INDEX as int,
                );
            }
        }
        let user_debt = if pos.debt_principal == 0 {
            0
        } else {
            (pos.debt_principal * market.borrow_index) / pos.debt_index
        };
        if user_debt == 0 {
            return Err(Error::NoDebt);
        }
        let repay_amount = if amount > user_debt {
            user_debt
        } else {
            amount
        };
        let new_pos = AssetPosition {
            debt_principal: user_debt - repay_amount,
            debt_index: market.borrow_index,
            ..pos
        };
        let new_total_borrow = if market.total_borrow > repay_amount {
            market.total_borrow - repay_amount
        } else {
            0
        };
        market.total_borrow = new_total_borrow;
        let new_account = account.with_position(asset, new_pos);
        self.set_market(asset, market);
        self.set_account(user, new_account);
        proof {
            lemma_sum_shares_insert(old(self).accounts@, user, new_account, Asset::Xlm);
            lemma_sum_shares_insert(old(self).accounts@, user, new_account, Asset::Usdc);
            assert forall|u: u64| #[trigger]
                self.accounts@.contains_key(u) implies self.accounts@[u].wf() by {
                if u != user {
                    assert(old(self).accounts@.contains_key(u));
                }
            }
            assert forall|u: u64| #[trigger]
                self.accounts@.contains_key(u) implies self.accounts@[u].xlm.debt_index
                <= self.xlm_market.borrow_index && self.accounts@[u].usdc.debt_index
                <= self.usdc_market.borrow_index by {
                if u != user {
                    assert(old(self).accounts@.contains_key(u));
                }
            }
        }
        Ok(repay_amount)
    }
}

} // verus!

//! Price records for the assets, with staleness tracking.
//!
//! The oracle stores one USD price per asset (scaled by [`SCALE`], 0 means
//! "unset") and the time it was last written.  Consumers that must fail
//! closed call [`PriceOracle::get_price_safe`], which rejects unset and
//! stale prices.  Who may write prices is the host's concern; the record
//! only keeps the admin's identity.

use vstd::prelude::*;
use vstd::arithmetic::mul::{lemma_mul_nonnegative, lemma_mul_upper_bound};
use crate::{Asset, Error, MAX_BALANCE, MAX_PRICE, SCALE};

verus! {

/// Prices older than this many seconds count as stale by default.
pub const DEFAULT_STALENESS_THRESHOLD: u64 = 3600;

/// The oracle's whole state: one price and update time per asset, the
/// staleness threshold, and the admin identity.
#[derive(Clone, Copy, Debug, PartialEq, Eq, Structural)]
pub struct PriceOracle {
    /// Identity of the account allowed to write prices.
    pub admin: u64,
    /// USD price of the collateral asset, scaled by `SCALE`; 0 means unset.
    pub xlm_price: i128,
    /// USD price of the borrowable asset, scaled by `SCALE`; 0 means unset.
    pub usdc_price: i128,
    /// Time the collateral asset's price was last written.
    pub xlm_last_update: u64,
    /// Time the borrowable asset's price was last written.
    pub usdc_last_update: u64,
    /// Age in seconds beyond which a price counts as stale.
    pub staleness_threshold: u64,
}

impl PriceOracle {
    /// Every stored price is nonnegative and within the machine bound.
    pub open spec fn wf(self) -> bool {
        &&& 0 <= self.xlm_price <= MAX_PRICE
        &&& 0 <= self.usdc_price <= MAX_PRICE
    }

    /// The stored price of an asset.
    pub open spec fn spec_price(self, asset: Asset) -> i128 {
        match asset {
            Asset::Xlm => self.xlm_price,
            Asset::Usdc => self.usdc_price,
        }
    }

    /// The time an asset's price was last written.
    pub open spec fn spec_last_update(self, asset: Asset) -> u64 {
        match asset {
            Asset::Xlm => self.xlm_last_update,
            Asset::Usdc => self.usdc_last_update,
        }
    }

    /// An asset's price is stale at `now`: older than the threshold.
    pub open spec fn spec_is_stale(self, asset: Asset, now: u64) -> bool {
        &&& now > self.spec_last_update(asset)
        &&& now - self.spec_last_update(asset) > self.staleness_threshold
    }

    /// Builds a fresh oracle: the stablecoin starts at $1.00, the
    /// collateral asset's price is unset, the threshold is the default.
    pub fn initialize(admin: u64, now: u64) -> (o: PriceOracle)
        ensures
            o.wf(),
            o.admin == admin,
            o.xlm_price == 0,
            o.usdc_price == SCALE,
            o.usdc_last_update == now,
            o.xlm_last_update == 0,
            o.staleness_threshold == DEFAULT_STALENESS_THRESHOLD,
    {
        PriceOracle {
            admin,
            xlm_price: 0,
            usdc_price: SCALE,
            xlm_last_update: 0,
            usdc_last_update: now,
            staleness_threshold: DEFAULT_STALENESS_THRESHOLD,
        }
    }

    /// Writes one asset's price, rejecting non-positive or out-of-range
    /// values and leaving everything unchanged on rejection.
    pub fn set_price(&mut self, asset: Asset, price: i128, now: u64) -> (r: Result<(), Error>)
        requires
            old(self).wf(),
        ensures
            final(self).wf(),
            match r {
                Ok(()) => {
                    &&& 0 < price <= MAX_PRICE
                    &&& final(self).spec_price(asset) == price
                    &&& final(self).spec_last_update(asset) == now
                    &&& final(self).admin == old(self).admin
                    &&& final(self).staleness_threshold == old(self).staleness_threshold
                    &&& asset != Asset::Xlm ==> final(self).xlm_price == old(self).xlm_price
                        && final(self).xlm_last_update == old(self).xlm_last_update
                    &&& asset != Asset::Usdc ==> final(self).usdc_price == old(self).usdc_price
                        && final(self).usdc_last_update == old(self).usdc_last_update
                },
                Err(e) => {
                    &&& !(0 < price <= MAX_PRICE)
                    &&& e == Error::InvalidParameter
                    &&& *final(self) == *old(self)
                },
            },
    {
        if price <= 0 || price > MAX_PRICE {
            return Err(Error::InvalidParameter);
        }
        match asset {
            Asset::Xlm => {
                self.xlm_price = price;
                self.xlm_last_update = now;
            },
            Asset::Usdc => {
                self.usdc_price = price;
                self.usdc_last_update = now;
            },
        }
        Ok(())
    }

    /// Writes both prices at once, rejecting the pair if either is out of
    /// range and leaving everything unchanged on rejection.
    pub fn set_prices(&mut self, xlm_price: i128, usdc_price: i128, now: u64) -> (r: Result<
        (),
        Error,
    >)
        requires
            old(self).wf(),
        ensures
            final(self).wf(),
            match r {
                Ok(()) => {
                    &&& 0 < xlm_price <= MAX_PRICE
                    &&& 0 < usdc_price <= MAX_PRICE
                    &&& final(self).xlm_price == xlm_price
                    &&& final(self).usdc_price == usdc_price
                    &&& final(self).xlm_last_update == now
                    &&& final(self).usdc_last_update == now
                    &&& final(self).admin == old(self).admin
                    &&& final(self).staleness_threshold == old(self).staleness_threshold
                },
                Err(e) => {
                    &&& !(0 < xlm_price <= MAX_PRICE && 0 < usdc_price <= MAX_PRICE)
                    &&& e == Error::InvalidParameter
                    &&& *final(self) == *old(self)
                },
            },
    {
        if xlm_price <= 0 || xlm_price > MAX_PRICE || usdc_price <= 0 || usdc_price > MAX_PRICE {
            return Err(Error::InvalidParameter);
        }
        self.xlm_price = xlm_price;
        self.usdc_price = usdc_price;
        self.xlm_last_update = now;
        self.usdc_last_update = now;
        Ok(())
    }

    /// Halves an asset's current price (a crash drill), rejecting the call
    /// when the price is unset.
    pub fn crash_price(&mut self, asset: Asset, now: u64) -> (r: Result<(), Error>)
        requires
            old(self).wf(),
        ensures
            final(self).wf(),
            match r {
                Ok(()) => {
                    &&& old(self).spec_price(asset) != 0
                    &&& final(self).spec_price(asset) == old(self).spec_price(asset) / 2
                    &&& final(self).spec_last_update(asset) == now
                    &&& final(self).admin == old(self).admin
                    &&& final(self).staleness_threshold == old(self).staleness_threshold
                    &&& asset != Asset::Xlm ==> final(self).xlm_price == old(self).xlm_price
                        && final(self).xlm_last_update == old(self).xlm_last_update
                    &&& asset != Asset::Usdc ==> final(self).usdc_price == old(self).usdc_price
                        && final(self).usdc_last_update == old(self).usdc_last_update
                },
                Err(e) => {
                    &&& old(self).spec_price(asset) == 0
                    &&& e == Error::PriceUnavailable
                    &&& *final(self) == *old(self)
                },
            },
    {
        let current_price = self.get_price(asset);
        if current_price == 0 {
            return Err(Error::PriceUnavailable);
        }
        let crashed_price = current_price / 2;
        match asset {
            Asset::Xlm => {
                self.xlm_price = crashed_price;
                self.xlm_last_update = now;
            },
            Asset::Usdc => {
                self.usdc_price = crashed_price;
                self.usdc_last_update = now;
            },
        }
        Ok(())
    }

    /// The stored price of an asset; 0 when unset.
    pub fn get_price(&self, asset: Asset) -> (r: i128)
        ensures
            r == self.spec_price(asset),
    {
        match asset {
            Asset::Xlm => self.xlm_price,
            Asset::Usdc => self.usdc_price,
        }
    }

    /// The stored price, failing closed: unset prices are rejected as
    /// unavailable, prices older than the threshold as stale.
    pub fn get_price_safe(&self, asset: Asset, now: u64) -> (r: Result<i128, Error>)
        ensures
            match r {
                Ok(p) => {
                    &&& p == self.spec_price(asset)
                    &&& p != 0
                    &&& !self.spec_is_stale(asset, now)
                },
                Err(e) => if self.spec_price(asset) == 0 {
                    e == Error::PriceUnavailable
                } else {
                    &&& self.spec_is_stale(asset, now)
                    &&& e == Error::PriceStale
                },
            },
    {
        let price = self.get_price(asset);
        if price == 0 {
            return Err(Error::PriceUnavailable);
        }
        let last_update = self.get_last_update(asset);
        if now > last_update && now - last_update > self.staleness_threshold {
            return Err(Error::PriceStale);
        }
        Ok(price)
    }

    /// The time an asset's price was last written; 0 when never.
    pub fn get_last_update(&self, asset: Asset) -> (r: u64)
        ensures
            r == self.spec_last_update(asset),
    {
        match asset {
            Asset::Xlm => self.xlm_last_update,
            Asset::Usdc => self.usdc_last_update,
        }
    }

    /// Whether an asset's price is older than the staleness threshold.
    pub fn is_stale(&self, asset: Asset, now: u64) -> (r: bool)
        ensures
            r == self.spec_is_stale(asset, now),
    {
        let last_update = self.get_last_update(asset);
        now > last_update && now - last_update > self.staleness_threshold
    }

    /// The collateral asset's price.
    pub fn get_xlm_price(&self) -> (r: i128)
        ensures
            r == self.xlm_price,
    {
        self.xlm_price
    }

    /// The stablecoin's price.
    pub fn get_usdc_price(&self) -> (r: i128)
        ensures
            r == self.usdc_price,
    {
        self.usdc_price
    }

    /// USD value of a collateral-asset amount at the stored price; 0 when
    /// the price is unset.
    pub fn xlm_to_usd(&self, xlm_amount: i128) -> (r: i128)
        requires
            self.wf(),
            0 <= xlm_amount <= MAX_BALANCE,
        ensures
            r == if self.xlm_price == 0 {
                0int
            } else {
                xlm_amount as int * self.xlm_price / (SCALE as int)
            },
    {
        let price = self.get_price(Asset::Xlm);
        if price == 0 {
            return 0;
        }
        proof {
            lemma_mul_nonnegative(xlm_amount as int, price as int);
            lemma_mul_upper_bound(xlm_amount as int, MAX_BALANCE as int, price as int, MAX_PRICE as int);
        }
        (xlm_amount * price) / SCALE
    }

    /// Collateral-asset amount worth a USD value at the stored price,
    /// rejected when the price is unset.
    pub fn usd_to_xlm(&self, usd_amount: i128) -> (r: Result<i128, Error>)
        requires
            self.wf(),
            0 <= usd_amount <= MAX_BALANCE,
        ensures
            match r {
                Ok(v) => {
                    &&& self.xlm_price != 0
                    &&& v == usd_amount as int * SCALE / (self.xlm_price as int)
                },
                Err(e) => {
                    &&& self.xlm_price == 0
                    &&& e == Error::PriceUnavailable
                },
            },
    {
        let price = self.get_price(Asset::Xlm);
        if price == 0 {
            return Err(Error::PriceUnavailable);
        }
        proof {
            lemma_mul_nonnegative(usd_amount as int, SCALE as int);
        }
        Ok((usd_amount * SCALE) / price)
    }

    /// Both prices, collateral asset first.
    pub fn get_all_prices(&self) -> (r: (i128, i128))
        ensures
            r == (self.xlm_price, self.usdc_price),
    {
        (self.xlm_price, self.usdc_price)
    }

    /// Identity of the account allowed to write prices.
    pub fn get_admin(&self) -> (r: u64)
        ensures
            r == self.admin,
    {
        self.admin
    }

    /// Hands the admin role to another account.
    pub fn set_admin(&mut self, new_admin: u64)
        requires
            old(self).wf(),
        ensures
            final(self).wf(),
            *final(self) == (PriceOracle { admin: new_admin, ..*old(self) }),
    {
        self.admin = new_admin;
    }

    /// Sets the staleness threshold in seconds.
    pub fn set_staleness_threshold(&mut self, threshold: u64)
        requires
            old(self).wf(),
        ensures
            final(self).wf(),
            *final(self) == (PriceOracle { staleness_threshold: threshold, ..*old(self) }),
    {
        self.staleness_threshold = threshold;
    }

    /// The staleness threshold in seconds.
    pub fn get_staleness_threshold(&self) -> (r: u64)
        ensures
            r == self.staleness_threshold,
    {
        self.staleness_threshold
    }
}

} // verus!

//! Per-user accounting records, and the sums that tie them to the markets.
//!
//! A user holds one [`AssetPosition`] per asset: supply shares, collateral
//! (kept apart from shares; it alone backs borrowing), debt principal, and
//! the borrow index at the debt's origin.  The effective debt is
//! `debt_principal * current_index / debt_index`, never below the
//! principal.  [`sum_shares`] adds one field up across a whole account map,
//! so the pool can state that the shares it issued are exactly the shares
//! its users hold.

use vstd::prelude::*;
use vstd::set::group_set_axioms;
use crate::{Asset, INDEX_SCALE, MAX_BALANCE, MAX_INDEX};

verus! {

/// One user's record for one asset.
#[derive(Clone, Copy, Debug, PartialEq, Eq, Structural)]
pub struct AssetPosition {
    /// Supply shares (claim on the pool, appreciating with interest).
    pub shares: i128,
    /// Collateral balance in underlying units; backs borrowing only.
    pub collateral: i128,
    /// Debt principal as of the last borrow or repay.
    pub debt_principal: i128,
    /// The market's borrow index when the principal was last written.
    pub debt_index: i128,
}

impl AssetPosition {
    /// All balances nonnegative and within the machine bounds; the origin
    /// index is a real index value.
    pub open spec fn wf(self) -> bool {
        &&& 0 <= self.shares <= MAX_BALANCE
        &&& 0 <= self.collateral <= MAX_BALANCE
        &&& 0 <= self.debt_principal <= MAX_BALANCE
        &&& INDEX_SCALE <= self.debt_index <= MAX_INDEX
    }

    /// The record of a user who has never touched the asset.
    pub open spec fn spec_empty() -> AssetPosition {
        AssetPosition { shares: 0, collateral: 0, debt_principal: 0, debt_index: INDEX_SCALE }
    }

    /// Builds the empty record.
    pub fn empty() -> (p: AssetPosition)
        ensures
            p == AssetPosition::spec_empty(),
            p.wf(),
    {
        AssetPosition { shares: 0, collateral: 0, debt_principal: 0, debt_index: INDEX_SCALE }
    }

    /// Interest-inclusive debt under a market borrow index: the principal
    /// grown by the index ratio since origin; 0 principal owes 0.
    pub open spec fn spec_debt(self, borrow_index: int) -> int {
        if self.debt_principal == 0 {
            0
        } else {
            self.debt_principal * borrow_index / (self.debt_index as int)
        }
    }
}

/// One user's records for both assets.
#[derive(Clone, Copy, Debug, PartialEq, Eq, Structural)]
pub struct Account {
    /// The record for the collateral asset.
    pub xlm: AssetPosition,
    /// The record for the borrowable asset.
    pub usdc: AssetPosition,
}

impl Account {
    /// Both positions are well-formed.
    pub open spec fn wf(self) -> bool {
        &&& self.xlm.wf()
        &&& self.usdc.wf()
    }

    /// The account of a user who has never touched the pool.
    pub open spec fn spec_empty() -> Account {
        Account { xlm: AssetPosition::spec_empty(), usdc: AssetPosition::spec_empty() }
    }

    /// Builds the empty account.
    pub fn empty() -> (a: Account)
        ensures
            a == Account::spec_empty(),
            a.wf(),
    {
        Account { xlm: AssetPosition::empty(), usdc: AssetPosition::empty() }
    }

    /// The record for one asset.
    pub open spec fn spec_position(self, asset: Asset) -> AssetPosition {
        match asset {
            Asset::Xlm => self.xlm,
            Asset::Usdc => self.usdc,
        }
    }

    /// The account with one asset's record replaced.
    pub open spec fn spec_with_position(self, asset: Asset, p: AssetPosition) -> Account {
        match asset {
            Asset::Xlm => Account { xlm: p, ..self },
            Asset::Usdc => Account { usdc: p, ..self },
        }
    }

    /// Reads the record for one asset.
    pub fn position(&self, asset: Asset) -> (p: AssetPosition)
        ensures
            p == self.spec_position(asset),
    {
        match asset {
            Asset::Xlm => self.xlm,
            Asset::Usdc => self.usdc,
        }
    }

    /// Replaces the record for one asset.
    pub fn with_position(self, asset: Asset, p: AssetPosition) -> (a: Account)
        ensures
            a == self.spec_with_position(asset, p),
    {
        match asset {
            Asset::Xlm => Account { xlm: p, ..self },
            Asset::Usdc => Account { usdc: p, ..self },
        }
    }
}

/// Total supply shares for one asset across an account map.
pub open spec fn sum_shares(m: Map<u64, Account>, asset: Asset) -> int
    decreases m.dom().len(),
    when m.dom().finite()
{
    if m.dom().len() == 0 {
        0
    } else {
        let k = m.dom().choose();
        m[k].spec_position(asset).shares + sum_shares(m.remove(k), asset)
    }
}

/// Removing any present key takes exactly its shares out of the sum.
pub proof fn lemma_sum_shares_remove(m: Map<u64, Account>, k: u64, asset: Asset)
    requires
        m.dom().finite(),
        m.contains_key(k),
    ensures
        sum_shares(m, asset) == m[k].spec_position(asset).shares + sum_shares(
            m.remove(k),
            asset,
        ),
    decreases m.dom().len(),
{
    broadcast use group_set_axioms;

    let k0 = m.dom().choose();
    if k0 == k {
    } else {
        lemma_sum_shares_remove(m.remove(k0), k, asset);
        lemma_sum_shares_remove(m.remove(k), k0, asset);
        assert(m.remove(k0).remove(k) =~= m.remove(k).remove(k0));
    }
}

/// Writing a key changes the sum by the difference at that key alone.
pub proof fn lemma_sum_shares_insert(m: Map<u64, Account>, k: u64, a: Account, asset: Asset)
    requires
        m.dom().finite(),
    ensures
        sum_shares(m.insert(k, a), asset) == sum_shares(m, asset) + a.spec_position(asset).shares
            - if m.contains_key(k) {
            m[k].spec_position(asset).shares as int
        } else {
            0
        },
{
    broadcast use group_set_axioms;

    lemma_sum_shares_remove(m.insert(k, a), k, asset);
    if m.contains_key(k) {
        lemma_sum_shares_remove(m, k, asset);
        assert(m.insert(k, a).remove(k) =~= m.remove(k));
    } else {
        assert(m.insert(k, a).remove(k) =~= m);
    }
}

/// Over well-formed accounts the sum is nonnegative.
pub proof fn lemma_sum_shares_nonneg(m: Map<u64, Account>, asset: Asset)
    requires
        m.dom().finite(),
        forall|u: u64| #[trigger] m.contains_key(u) ==> m[u].wf(),
    ensures
        0 <= sum_shares(m, asset),
    decreases m.dom().len(),
{
    broadcast use group_set_axioms;

    if m.dom().len() != 0 {
        let k = m.dom().choose();
        lemma_sum_shares_nonneg(m.remove(k), asset);
    }
}

/// Over well-formed accounts, no single holding exceeds the sum.
pub proof fn lemma_sum_shares_bounds(m: Map<u64, Account>, k: u64, asset: Asset)
    requires
        m.dom().finite(),
        m.contains_key(k),
        forall|u: u64| #[trigger] m.contains_key(u) ==> m[u].wf(),
    ensures
        m[k].spec_position(asset).shares <= sum_shares(m, asset),
{
    broadcast use group_set_axioms;

    lemma_sum_shares_remove(m, k, asset);
    lemma_sum_shares_nonneg(m.remove(k), asset);
}

} // verus!

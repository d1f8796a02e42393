//! Risk and pricing core of a collateralized lending protocol.
//!
//! The crate turns pool utilization into an interest rate, compounds that
//! rate into per-asset debt and supply balances over time, values a user's
//! collateral and debt in a common unit, and resolves under-collateralized
//! positions through partial liquidation.  All monetary and rate quantities
//! are fixed-point integers scaled by [`SCALE`]; share and index quantities
//! use the finer [`INDEX_SCALE`].
//!
//! Storage, authentication, token custody and event emission are left to the
//! surrounding host: every function here works on plain values and explicit
//! state records, and states exactly what it computes.

use vstd::prelude::*;

pub mod borrow;
pub mod liquidation;
pub mod market;
pub mod oracle;
pub mod pool;
pub mod position;
pub mod rate;
pub mod valuation;

verus! {

/// The assets the pool and the oracle know.
#[derive(Clone, Copy, Debug, PartialEq, Eq, Structural)]
pub enum Asset {
    /// The collateral asset (enabled as collateral, not borrowable).
    Xlm,
    /// The borrowable asset (enabled as collateral and for borrowing).
    Usdc,
}

/// Fixed-point scale for rates, prices, utilizations and thresholds:
/// 100% == `SCALE`, one basis point == 1_000.
pub const SCALE: i128 = 10_000_000;

/// Fixed-point scale for share/index quantities (exchange rate, borrow
/// index): 1.0 == `INDEX_SCALE`.
pub const INDEX_SCALE: i128 = 1_000_000_000;

/// Seconds in 365.25 days; annual rates are prorated over this span.
pub const SECONDS_PER_YEAR: i128 = 31_557_600;

/// Largest balance (underlying units, shares, principal) the pool accepts.
/// Keeps every intermediate product of two scaled quantities inside `i128`.
pub const MAX_BALANCE: i128 = 100_000_000_000_000_000_000;

/// Largest borrow index the accrual engine may reach (10_000x the initial
/// `INDEX_SCALE`); bounds `principal * index` products.
pub const MAX_INDEX: i128 = 10_000_000_000_000;

/// Largest interest-inclusive debt a position can reach:
/// `MAX_BALANCE` principal grown by the largest index ratio
/// `MAX_INDEX / INDEX_SCALE`.
pub const MAX_DEBT: i128 = 1_000_000_000_000_000_000_000_000;

/// Largest asset price accepted at the valuation boundary.
pub const MAX_PRICE: i128 = 10_000_000_000_000;

/// Largest rate parameter a curve accepts (100_000x the 100% rate).
pub const MAX_RATE: i128 = 1_000_000_000_000;

/// One failure kind per way an operation can be rejected.  Every rejected
/// operation leaves the state exactly as it was: there is no partial effect.
#[derive(Clone, Copy, Debug, PartialEq, Eq, Structural)]
pub enum Error {
    /// A one-time setup step was attempted twice.
    AlreadyInitialized,
    /// Non-monotonic curve parameters, a zero or negative amount, or an
    /// out-of-range utilization target.
    InvalidParameter,
    /// The caller is not allowed to perform the operation.
    Unauthorized,
    /// The asset is not enabled for the requested role.
    AssetNotEnabled,
    /// A withdrawal or borrow exceeds the pool's free liquidity.
    InsufficientLiquidity,
    /// A borrow would push weighted debt above weighted collateral.
    LtvExceeded,
    /// A collateral withdrawal would leave the position unhealthy.
    UnhealthyWithdrawal,
    /// The user holds fewer shares than the operation needs.
    InsufficientShareBalance,
    /// The user holds less collateral than the operation needs.
    InsufficientCollateral,
    /// The operation needs an outstanding debt and there is none.
    NoDebt,
    /// Liquidation was attempted on a healthy position.
    PositionHealthy,
    /// A price is unset; the operation fails closed.
    PriceUnavailable,
    /// A price is older than the staleness threshold.
    PriceStale,
}

} // verus!

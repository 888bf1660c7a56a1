//! Accounting and risk core of a leveraged trading venue.
//!
//! Every amount of money is an unsigned integer scaled by `PRECISION` (six
//! decimals), every token quantity is scaled by its market's decimals, and
//! leverage, fees and margins are basis points. All arithmetic is carried out
//! in 128 bits with explicit overflow checks and truncating division, and
//! every operation either succeeds as a whole or leaves its records untouched.
use vstd::prelude::*;

pub mod ledger;
pub mod math;
pub mod price_update;
pub mod regret_market;
pub mod settlement;
pub mod state;

verus! {

/// Scale of USD amounts and prices, and the intermediate precision factor.
pub const PRECISION: u128 = 1_000_000;

/// One whole, in basis points.
pub const BASIS_POINTS: u128 = 10_000;

/// Smallest collateral accepted: $10.
pub const MIN_COLLATERAL: u64 = 10_000_000;

/// Largest collateral accepted: $1,000,000.
pub const MAX_COLLATERAL: u64 = 1_000_000_000_000;

/// Smallest position value accepted: $10.
pub const MIN_POSITION_VALUE: u64 = 10_000_000;

/// Largest position value accepted: $10,000,000.
pub const MAX_POSITION_VALUE: u64 = 10_000_000_000_000;

/// Largest price accepted, `u64::MAX / 200`, so that a price scaled by a
/// percentage still fits in 64 bits.
pub const MAX_SAFE_PRICE: u64 = 92_233_720_368_547_758;

/// Ticks in one hour, at 400 ms per tick.
pub const SLOTS_PER_HOUR: u64 = 9000;

/// Ticks in one funding period of eight hours.
pub const SLOTS_PER_8_HOURS: u64 = 72000;

/// Every way an operation can be rejected.
#[derive(Debug, Clone, Copy, PartialEq, Eq)]
pub enum ErrorCode {
    ProgramAlreadyStarted,
    ProgramPaused,
    Unauthorized,
    MathOverflow,
    NotEnoughBalance,
    InvalidInput,
    InvalidTargetPrice,
    FeeTooLow,
    InvalidPriceForShort,
    InvalidPriceForLong,
    InvalidPositionId,
    InvalidPositionSize,
    PositionValueTooHigh,
    PositionValueTooLow,
    CollateralTooLow,
    CollateralTooHigh,
    ExcessiveLeverage,
    PriceOverflow,
    PriceTooHigh,
    StalePrice,
    InvalidPrice,
    PriceConfidenceTooHigh,
    EffectiveCollateralTooLow,
    InsufficientCollateralForFees,
    InsufficientLiquidity,
    PositionAlreadyClosed,
    /// A rejection by the oracle's own code, passed on as it came.
    Oracle(crate::price_update::OracleError),
}

} // verus!

//! Accounting core of a concentrated-liquidity automated market maker.
//!
//! The crate keeps the per-pool ledger: active liquidity, the global
//! fee-growth accumulators for both tokens, the accrued protocol fees, and
//! the time-weighted seconds-per-liquidity accumulator that seeds an
//! external price oracle. All arithmetic is fixed-point over scaled
//! integers, with rounding always resolved in the protocol's favour.

pub mod decimal;
pub mod math;
pub mod pool;

//! Error taxonomy of the engine.
//!
//! Every error aborts the call before any state mutation is committed: a
//! failed call never leaves a partial reserve or ledger update behind.

use vstd::prelude::*;

verus! {

/// Arithmetic failures. Always fatal to the call; they indicate a
/// configuration or input bound violation, never a retryable condition.
#[derive(Clone, Copy, Debug, PartialEq, Eq, Structural)]
pub enum MathError {
    /// A checked addition, subtraction or multiplication left the u64 range.
    Overflow,
    /// A division was attempted with divisor zero.
    DivisionByZero,
}

/// Expected, user-facing trade outcomes. The caller adjusts its input
/// (raises the slippage bound, waits for unpause, reduces the amount)
/// and resubmits.
#[derive(Clone, Copy, Debug, PartialEq, Eq, Structural)]
pub enum TradeError {
    /// The realized output fell below the caller-supplied minimum.
    SlippageExceeded,
    /// The curve is no longer in its active trading phase.
    CurveCompleted,
    /// The input amount must be greater than zero.
    ZeroAmount,
    /// The global configuration forbids trading right now.
    ProgramPaused,
    /// The curve cannot hand out that many tokens.
    NotEnoughTokens,
}

/// Failures of the claim and admin operations, surfaced verbatim.
#[derive(Clone, Copy, Debug, PartialEq, Eq, Structural)]
pub enum AdminError {
    /// The record's balance is below its rent-exempt floor.
    NotEnoughLamports,
    /// The global configuration forbids the operation right now.
    ProgramPaused,
}

/// Everything a trade or migration call can fail with: either an expected
/// trade outcome or a fatal arithmetic failure.
#[derive(Clone, Copy, Debug, PartialEq, Eq, Structural)]
pub enum TradeFailure {
    Math(MathError),
    Trade(TradeError),
}

} // verus!

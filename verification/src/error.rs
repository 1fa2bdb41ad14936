//! The errors the board's operations report. Validation errors carry the
//! expected values, so a caller can reconstruct what was required;
//! not-found errors name the state item that was missing.

use vstd::prelude::*;

verus! {

/// The piece of persistent state a failed lookup was after.
#[derive(Debug, Clone, Copy, PartialEq, Eq, Structural)]
pub enum StateItem {
    /// The id allocator's counter, absent before initialization.
    CurrentId,
    /// The stipend registry, absent before initialization.
    Stipend,
    /// A message record.
    Message,
    /// A like counter.
    Like,
}

/// A store-level failure: the queried or loaded state item does not exist.
#[derive(Debug, Clone, Copy, PartialEq, Eq, Structural)]
pub enum StdError {
    /// No value is persisted for the named state item.
    NotFound { kind: StateItem },
}

/// Everything a transition can report to its caller.
#[derive(Debug, PartialEq)]
pub enum ContractError {
    /// A store-level failure, such as running an operation before
    /// initialization has persisted any state.
    Std(StdError),
    /// The caller may not perform this operation.
    Unauthorized,
    /// Initialization was handed a stipend with an empty denomination or an
    /// amount below 1.
    ValidCoinRequired,
    /// A like referenced a message id for which no message is stored.
    InvalidMessageID,
    /// The attached funds do not match the required stipend: `val1` is the
    /// expected denomination, `val2` the expected amount.
    InvalidFundsMessage { val1: String, val2: u128 },
    /// As `InvalidFundsMessage`, reserved for the like path.
    InvalidFundsLike { val1: String, val2: u128 },
    /// An otherwise unclassified failure.
    CustomError { val: String },
}

} // verus!

//! The error taxonomy shared by the contract modules.
//!
//! Every operation aborts as a whole: an `Err` from any entry point means
//! that no state was mutated. The variants group into configuration errors
//! (`NotInitialized`, `AlreadyInitialized`, `InvalidFee`, `InvalidAmount`,
//! `Overflow`), authorization errors (`Unauthorized`), state errors
//! (`InsufficientBalance`, `BelowMinimumBalance`, `NotFound`,
//! `AlreadyRegistered`, `RateLimited`, `NotLiked`, `NotActive`), and the
//! pause guard (`Paused`).

use vstd::prelude::*;

verus! {

/// Reason an operation was rejected. The whole operation aborts with no
/// state mutation when any of these is returned.
#[derive(Clone, Copy, Debug, PartialEq, Eq, Structural)]
pub enum Error {
    /// A required configuration record was never written.
    NotInitialized,
    /// Initialization was attempted twice.
    AlreadyInitialized,
    /// A fee rate of 10000 basis points or more was supplied.
    InvalidFee,
    /// A negative (or otherwise senseless) amount was supplied.
    InvalidAmount,
    /// The operation would push a stored number past its representable range.
    Overflow,
    /// The principal that approved the call is not the one the operation requires.
    Unauthorized,
    /// A balance is too small to cover the requested amount.
    InsufficientBalance,
    /// A withdrawal would leave the balance below the configured minimum.
    BelowMinimumBalance,
    /// The addressed record does not exist.
    NotFound,
    /// The record to create already exists.
    AlreadyRegistered,
    /// The caller acted again before the configured number of ledgers passed.
    RateLimited,
    /// An unlike was attempted by a principal that never liked the content.
    NotLiked,
    /// The subscription is missing or already lapsed.
    NotActive,
    /// The contract is paused; mutating operations are refused.
    Paused,
}

} // verus!

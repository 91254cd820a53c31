//! The error taxonomy of the core.
//!
//! Refresh-time failures (`MissingAccount`, `Deserialize`) carry the address
//! at fault and leave the adapter's previous state untouched. Flash-loan
//! sizing failures (`MathError`, `InsufficientLiquidity`) are hard errors.
//! Quote infeasibility that arises from business constraints inside the
//! deposit engine is reported as a sentinel quote, not through this type.

use vstd::prelude::*;
use crate::address::Address;

verus! {

/// Every failure the core can report.
#[derive(Clone, Copy, PartialEq, Eq, Structural, Debug)]
pub enum StakedexError {
    /// A tracked address was absent from the supplied snapshot.
    MissingAccount(Address),
    /// The bytes of the account at this address did not parse.
    Deserialize(Address),
    /// Arithmetic overflow, or a fee inversion that failed to converge.
    MathError,
    /// The instant-unstake reserves cannot cover the flash loan.
    InsufficientLiquidity,
    /// The targeted validator entry cannot serve the request.
    InvalidValidatorState,
    /// A withdrawal so small it converts to zero lamports.
    WithdrawalTooSmall,
}

} // verus!

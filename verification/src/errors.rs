//! Typed errors returned by the sale operations.

use vstd::prelude::*;

verus! {

/// Every way a sale operation can fail.
///
/// `Overflow` and `InvalidAdmin` come from the arithmetic and authorization
/// guards. The remaining variants are the failures of the surrounding
/// machinery that every operation propagates unchanged: the account layer
/// refusing to create a record twice, the custody-address check rejecting a
/// spoofed derivation, and the transfer services refusing a move for which
/// the source balance is too small.
#[derive(Debug, Clone, Copy, PartialEq, Eq, Structural)]
pub enum ErrorCode {
    /// An arithmetic scaling or accumulation step would exceed `u64::MAX`.
    Overflow,
    /// The caller of an admin-gated operation is not the recorded admin.
    InvalidAdmin,
    /// The sale ledger record for this instance already exists.
    AlreadyInitialized,
    /// The supplied derivation proof does not reconstruct the canonical
    /// custody address.
    DerivationMismatch,
    /// A token transfer asks for more tokens than its source account holds.
    InsufficientTokens,
    /// A native-currency transfer asks for more than the payer holds.
    InsufficientFunds,
}

impl ErrorCode {
    /// Human-readable message paired with the structured code.
    pub fn message(&self) -> (r: &'static str)
        ensures
            *self is Overflow ==> r@ == "Arithmetic overflow"@,
            *self is InvalidAdmin ==> r@ == "Invalid admin"@,
    {
        match self {
            ErrorCode::Overflow => "Arithmetic overflow",
            ErrorCode::InvalidAdmin => "Invalid admin",
            ErrorCode::AlreadyInitialized => "Sale already initialized",
            ErrorCode::DerivationMismatch => "Custody address derivation mismatch",
            ErrorCode::InsufficientTokens => "Insufficient token balance",
            ErrorCode::InsufficientFunds => "Insufficient native-currency balance",
        }
    }
}

} // verus!

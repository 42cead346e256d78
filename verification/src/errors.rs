use vstd::prelude::*;

verus! {

/// Why a call was refused.
#[derive(Clone, Copy, PartialEq, Eq, Structural, Debug)]
pub enum KoraError {
    /// The contract has an admin already.
    AlreadyInitialized,
    /// The contract has not been initialized yet.
    NotInitialized,
    /// The caller is not the contract's admin.
    NotAdmin,
    /// No invoice is stored under the id.
    InvoiceNotFound,
    /// The invoice is not in the status that the transition starts from, or is not yet due.
    InvalidInvoiceStatus,
    /// The amount is zero or negative.
    InvalidAmount,
    /// The due date does not lie in the future.
    InvalidDueDate,
    /// The risk score is above 100.
    InvalidRiskScore,
    /// A byte string is empty.
    EmptyBytes,
    /// A text is empty.
    EmptyString,
    /// There is no next id left.
    ArithmeticOverflow,
    /// The reentrancy lock is held.
    Reentrancy,
}

} // verus!

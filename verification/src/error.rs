//! Why an operation was refused.
use vstd::prelude::*;

verus! {

/// The reason a check, or the mutation that follows the checks, refused an
/// operation. Every reason is terminal for the operation it was raised in:
/// nothing is retried and nothing has been written.
#[derive(Clone, Copy, Debug, PartialEq, Eq, Structural)]
pub enum ValidationError {
    /// Fewer account handles were supplied than the operation has roles.
    MissingAccount,
    /// A program-owned role is bound to an account that another program controls.
    IncorrectOwner,
    /// A role that must authorize is bound to an account that did not sign.
    MissingSignature,
    /// An address stored in a record differs from the address of the account supplied for it.
    AccountMismatch,
    /// The address recomputed from seeds and bump is not the expected one.
    InvalidDerivedAddress,
    /// The supplied bump is not the canonical bump of its seeds.
    NonCanonicalBump,
    /// The account data does not carry the expected discriminant, or not the
    /// shape that goes with it.
    SchemaMismatch,
    /// The account to initialize is already marked initialized.
    AlreadyInitialized,
    /// The account to use has not been initialized.
    NotInitialized,
    /// The balance is below what the account's data length needs to persist.
    NotStorageViable,
    /// A sum or product left the unsigned 64-bit domain.
    ArithmeticOverflow,
    /// A difference fell below zero.
    ArithmeticUnderflow,
    /// A share was asked of a zero denominator.
    DivisionByZero,
    /// The current time lies before the time it is measured from.
    InvalidTimestamp,
    /// More was asked for than the record or the account holds.
    InsufficientFunds,
    /// The instruction selects no operation, or no target, that the program allows.
    InvalidInstruction,
    /// The record does not carry the rights that the operation asks for.
    InsufficientPrivilege,
}

/// The outcome of one check: it passed, or it failed for a reason.
#[derive(Clone, Copy, Debug, PartialEq, Eq, Structural)]
pub enum ValidationVerdict {
    Pass,
    Fail(ValidationError),
}

impl ValidationVerdict {
    /// Whether the check passed.
    pub fn is_pass(&self) -> (r: bool)
        ensures
            r == (*self == ValidationVerdict::Pass),
    {
        match self {
            ValidationVerdict::Pass => true,
            ValidationVerdict::Fail(_) => false,
        }
    }

    /// The verdict as a `Result`, so that a chain of checks can stop at the first failure.
    pub fn into_result(self) -> (r: Result<(), ValidationError>)
        ensures
            r == verdict_result(self),
    {
        match self {
            ValidationVerdict::Pass => Ok(()),
            ValidationVerdict::Fail(reason) => Err(reason),
        }
    }
}

/// `Pass` is `Ok`, and `Fail(reason)` is `Err(reason)`.
pub open spec fn verdict_result(v: ValidationVerdict) -> Result<(), ValidationError> {
    match v {
        ValidationVerdict::Pass => Ok(()),
        ValidationVerdict::Fail(reason) => Err(reason),
    }
}

/// A verdict that passes exactly when `ok` holds and otherwise fails with `reason`.
pub open spec fn verdict_of(ok: bool, reason: ValidationError) -> ValidationVerdict {
    if ok {
        ValidationVerdict::Pass
    } else {
        ValidationVerdict::Fail(reason)
    }
}

} // verus!

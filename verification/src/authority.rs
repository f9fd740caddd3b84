//! The authority validator: who controls an account, and who signed.
use crate::account::AccountHandle;
use crate::address::Address;
use crate::error::{verdict_of, ValidationError, ValidationVerdict};
use vstd::prelude::*;

verus! {

/// Fails with `IncorrectOwner` unless `expected_program` controls the
/// handle. An account that another program controls can hold any bytes, so
/// this check comes before its data is decoded.
pub fn verify_ownership(handle: &AccountHandle, expected_program: &Address) -> (r:
    ValidationVerdict)
    ensures
        r == verdict_of(
            handle@.controlling_program == *expected_program,
            ValidationError::IncorrectOwner,
        ),
{
    proof {
        if handle.controlling_program@ == expected_program@ {
            crate::address::lemma_address_ext(handle.controlling_program, *expected_program);
        }
    }
    if handle.controlling_program == *expected_program {
        ValidationVerdict::Pass
    } else {
        ValidationVerdict::Fail(ValidationError::IncorrectOwner)
    }
}

/// Fails with `MissingSignature` unless the handle signed.
pub fn verify_signer(handle: &AccountHandle) -> (r: ValidationVerdict)
    ensures
        r == verdict_of(handle@.is_signer, ValidationError::MissingSignature),
{
    if handle.is_signer {
        ValidationVerdict::Pass
    } else {
        ValidationVerdict::Fail(ValidationError::MissingSignature)
    }
}

} // verus!

//! The lifecycle guard: an account is initialized once and stays so. The
//! mark is the record discriminant in the first eight bytes of the data:
//! zero, or too little data to hold one, means uninitialized.
use crate::account::AccountHandle;
use crate::codec::{read_u64, u64_field};
use crate::error::{verdict_of, ValidationError, ValidationVerdict};
use vstd::prelude::*;
use vstd::slice::slice_subrange;

verus! {

/// The width in bytes of the discriminant that leads every record.
pub const DISCRIMINANT_BYTES: usize = 8;

/// The discriminant stored in account data, where the data is long enough
/// to hold one.
pub open spec fn stored_discriminant_spec(data: Seq<u8>) -> Option<u64> {
    if data.len() >= 8 {
        u64_field(data.subrange(0, 8))
    } else {
        None
    }
}

/// Whether account data is marked initialized.
pub open spec fn is_initialized_spec(data: Seq<u8>) -> bool {
    match stored_discriminant_spec(data) {
        Some(discriminant) => discriminant != 0,
        None => false,
    }
}

/// Reads the discriminant that leads the account data.
pub fn stored_discriminant(data: &[u8]) -> (r: Option<u64>)
    ensures
        r == stored_discriminant_spec(data@),
{
    if data.len() >= DISCRIMINANT_BYTES {
        read_u64(slice_subrange(data, 0, DISCRIMINANT_BYTES))
    } else {
        None
    }
}

/// Whether the handle's account is marked initialized.
pub fn is_initialized(handle: &AccountHandle) -> (r: bool)
    ensures
        r == is_initialized_spec(handle@.data),
{
    match stored_discriminant(handle.data.as_slice()) {
        Some(discriminant) => discriminant != 0,
        None => false,
    }
}

/// The guard of the initialize operation: fails with `AlreadyInitialized`
/// where the account is marked initialized.
pub fn guard_initialize(handle: &AccountHandle) -> (r: ValidationVerdict)
    ensures
        r == verdict_of(!is_initialized_spec(handle@.data), ValidationError::AlreadyInitialized),
{
    if is_initialized(handle) {
        ValidationVerdict::Fail(ValidationError::AlreadyInitialized)
    } else {
        ValidationVerdict::Pass
    }
}

/// The guard of every other operation: fails with `NotInitialized` where
/// the account is not marked initialized.
pub fn require_initialized(handle: &AccountHandle) -> (r: ValidationVerdict)
    ensures
        r == verdict_of(is_initialized_spec(handle@.data), ValidationError::NotInitialized),
{
    if is_initialized(handle) {
        ValidationVerdict::Pass
    } else {
        ValidationVerdict::Fail(ValidationError::NotInitialized)
    }
}

} // verus!

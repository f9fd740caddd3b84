//! The arguments that operations read from their instruction data.
use vstd::bytes::{spec_u64_from_le_bytes, u64_from_le_bytes};
use vstd::prelude::*;
use vstd::slice::slice_subrange;

verus! {

/// The amount that leads instruction data: its first eight bytes as a
/// little-endian integer.
pub open spec fn amount_spec(data: Seq<u8>) -> u64 {
    spec_u64_from_le_bytes(data.subrange(0, 8))
}

/// What follows the selector byte of instruction data.
pub open spec fn arguments_spec(data: Seq<u8>) -> Seq<u8> {
    data.subrange(1, data.len() as int)
}

/// Reads the amount that leads instruction data.
pub fn read_amount(data: &[u8]) -> (r: u64)
    requires
        data@.len() >= 8,
    ensures
        r == amount_spec(data@),
{
    u64_from_le_bytes(slice_subrange(data, 0, 8))
}

/// The instruction data after its selector byte.
pub fn arguments(data: &[u8]) -> (r: &[u8])
    requires
        data@.len() >= 1,
    ensures
        r@ == arguments_spec(data@),
{
    slice_subrange(data, 1, data.len())
}

} // verus!

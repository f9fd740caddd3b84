//! The byte encoding of record fields. The encoding itself is borsh's; this
//! module states what borsh does to each field type the records use and
//! builds the verified readers and writers on it.
use crate::address::Address;
use vstd::bytes::{spec_u64_from_le_bytes, spec_u64_to_le_bytes};
use vstd::pervasive::unreached;
use vstd::prelude::*;

verus! {

/// The error of borsh's readers and writers, carried through unread.
#[verifier::external_type_specification]
#[verifier::external_body]
pub struct ExIoError(std::io::Error);

/// The signed integer that eight little-endian bytes encode, in two's complement.
pub open spec fn spec_i64_from_le_bytes(bytes: Seq<u8>) -> i64 {
    spec_u64_from_le_bytes(bytes) as i64
}

/// The eight little-endian bytes of a signed integer, in two's complement.
pub open spec fn spec_i64_to_le_bytes(value: i64) -> Seq<u8> {
    spec_u64_to_le_bytes(value as u64)
}

/// The array of 32 bytes that holds `bytes`.
pub open spec fn spec_bytes32_from_bytes(bytes: Seq<u8>) -> [u8; 32] {
    choose|a: [u8; 32]| a@ == bytes
}

/// The address whose bytes are `bytes`.
pub open spec fn spec_address_from_bytes(bytes: Seq<u8>) -> Address {
    Address { bytes: spec_bytes32_from_bytes(bytes) }
}

/// What a field of eight bytes decodes to as an unsigned integer: nothing
/// unless there are exactly eight bytes.
pub open spec fn u64_field(bytes: Seq<u8>) -> Option<u64> {
    if bytes.len() == 8 {
        Some(spec_u64_from_le_bytes(bytes))
    } else {
        None
    }
}

/// What a field of eight bytes decodes to as a signed integer.
pub open spec fn i64_field(bytes: Seq<u8>) -> Option<i64> {
    if bytes.len() == 8 {
        Some(spec_i64_from_le_bytes(bytes))
    } else {
        None
    }
}

/// What a field of one byte decodes to.
pub open spec fn u8_field(bytes: Seq<u8>) -> Option<u8> {
    if bytes.len() == 1 {
        Some(bytes[0])
    } else {
        None
    }
}

/// What a field of 32 bytes decodes to as raw bytes.
pub open spec fn bytes32_field(bytes: Seq<u8>) -> Option<[u8; 32]> {
    if bytes.len() == 32 {
        Some(spec_bytes32_from_bytes(bytes))
    } else {
        None
    }
}

/// What a field of 32 bytes decodes to as an address.
pub open spec fn address_field(bytes: Seq<u8>) -> Option<Address> {
    if bytes.len() == 32 {
        Some(spec_address_from_bytes(bytes))
    } else {
        None
    }
}

/// `borsh::from_slice` at `u64`: reads exactly eight bytes as a
/// little-endian integer, and fails on any other length.
#[verifier::external_body]
fn borsh_decode_u64(bytes: &[u8]) -> (r: Result<u64, std::io::Error>)
    ensures
        r.is_ok() == (bytes@.len() == 8),
        r matches Ok(value) ==> value == spec_u64_from_le_bytes(bytes@),
{
    borsh::from_slice::<u64>(bytes)
}

/// `borsh::from_slice` at `i64`: reads exactly eight bytes as a
/// little-endian two's-complement integer, and fails on any other length.
#[verifier::external_body]
fn borsh_decode_i64(bytes: &[u8]) -> (r: Result<i64, std::io::Error>)
    ensures
        r.is_ok() == (bytes@.len() == 8),
        r matches Ok(value) ==> value == spec_i64_from_le_bytes(bytes@),
{
    borsh::from_slice::<i64>(bytes)
}

/// `borsh::from_slice` at `u8`: reads exactly one byte, and fails on any
/// other length.
#[verifier::external_body]
fn borsh_decode_u8(bytes: &[u8]) -> (r: Result<u8, std::io::Error>)
    ensures
        r.is_ok() == (bytes@.len() == 1),
        r matches Ok(value) ==> value == bytes@[0],
{
    borsh::from_slice::<u8>(bytes)
}

/// `borsh::from_slice` at `[u8; 32]`: reads exactly 32 bytes as they stand,
/// and fails on any other length.
#[verifier::external_body]
fn borsh_decode_bytes32(bytes: &[u8]) -> (r: Result<[u8; 32], std::io::Error>)
    ensures
        r.is_ok() == (bytes@.len() == 32),
        r matches Ok(value) ==> value@ == bytes@,
{
    borsh::from_slice::<[u8; 32]>(bytes)
}

/// `borsh::to_vec` at `u64`: the eight little-endian bytes of the value.
/// Writing an integer into a fresh vector cannot fail.
#[verifier::external_body]
fn borsh_encode_u64(value: u64) -> (r: Result<Vec<u8>, std::io::Error>)
    ensures
        r.is_ok(),
        r matches Ok(bytes) ==> bytes@ == spec_u64_to_le_bytes(value),
{
    borsh::to_vec(&value)
}

/// `borsh::to_vec` at `i64`: the eight little-endian bytes of the value in
/// two's complement. Writing an integer into a fresh vector cannot fail.
#[verifier::external_body]
fn borsh_encode_i64(value: i64) -> (r: Result<Vec<u8>, std::io::Error>)
    ensures
        r.is_ok(),
        r matches Ok(bytes) ==> bytes@ == spec_i64_to_le_bytes(value),
{
    borsh::to_vec(&value)
}

/// `borsh::to_vec` at `u8`: the byte itself. Writing a byte into a fresh
/// vector cannot fail.
#[verifier::external_body]
fn borsh_encode_u8(value: u8) -> (r: Result<Vec<u8>, std::io::Error>)
    ensures
        r.is_ok(),
        r matches Ok(bytes) ==> bytes@ == seq![value],
{
    borsh::to_vec(&value)
}

/// `borsh::to_vec` at `[u8; 32]`: the 32 bytes as they stand. Writing bytes
/// into a fresh vector cannot fail.
#[verifier::external_body]
fn borsh_encode_bytes32(value: &[u8; 32]) -> (r: Result<Vec<u8>, std::io::Error>)
    ensures
        r.is_ok(),
        r matches Ok(bytes) ==> bytes@ == value@,
{
    borsh::to_vec(value)
}

/// Decodes an unsigned 64-bit field.
pub fn read_u64(bytes: &[u8]) -> (r: Option<u64>)
    ensures
        r == u64_field(bytes@),
{
    match borsh_decode_u64(bytes) {
        Ok(value) => Some(value),
        Err(_) => None,
    }
}

/// Decodes a signed 64-bit field.
pub fn read_i64(bytes: &[u8]) -> (r: Option<i64>)
    ensures
        r == i64_field(bytes@),
{
    match borsh_decode_i64(bytes) {
        Ok(value) => Some(value),
        Err(_) => None,
    }
}

/// Decodes a one-byte field.
pub fn read_u8(bytes: &[u8]) -> (r: Option<u8>)
    ensures
        r == u8_field(bytes@),
{
    match borsh_decode_u8(bytes) {
        Ok(value) => Some(value),
        Err(_) => None,
    }
}

/// Decodes a field of 32 raw bytes.
pub fn read_bytes32(bytes: &[u8]) -> (r: Option<[u8; 32]>)
    ensures
        r == bytes32_field(bytes@),
{
    match borsh_decode_bytes32(bytes) {
        Ok(value) => {
            proof {
                lemma_bytes32_from_bytes(value);
            }
            Some(value)
        },
        Err(_) => None,
    }
}

/// Decodes an address field.
pub fn read_address(bytes: &[u8]) -> (r: Option<Address>)
    ensures
        r == address_field(bytes@),
{
    match borsh_decode_bytes32(bytes) {
        Ok(value) => {
            let address = Address::new(value);
            proof {
                lemma_address_from_bytes(address);
            }
            Some(address)
        },
        Err(_) => None,
    }
}

/// Appends the encoding of an unsigned 64-bit field to `out`.
pub fn write_u64(out: &mut Vec<u8>, value: u64)
    ensures
        final(out)@ == old(out)@ + spec_u64_to_le_bytes(value),
{
    match borsh_encode_u64(value) {
        Ok(mut bytes) => out.append(&mut bytes),
        Err(_) => unreached(),
    }
}

/// Appends the encoding of a signed 64-bit field to `out`.
pub fn write_i64(out: &mut Vec<u8>, value: i64)
    ensures
        final(out)@ == old(out)@ + spec_i64_to_le_bytes(value),
{
    match borsh_encode_i64(value) {
        Ok(mut bytes) => out.append(&mut bytes),
        Err(_) => unreached(),
    }
}

/// Appends the encoding of a one-byte field to `out`.
pub fn write_u8(out: &mut Vec<u8>, value: u8)
    ensures
        final(out)@ == old(out)@ + seq![value],
{
    match borsh_encode_u8(value) {
        Ok(mut bytes) => out.append(&mut bytes),
        Err(_) => unreached(),
    }
}

/// Appends a field of 32 raw bytes to `out`.
pub fn write_bytes32(out: &mut Vec<u8>, value: &[u8; 32])
    ensures
        final(out)@ == old(out)@ + value@,
{
    match borsh_encode_bytes32(value) {
        Ok(mut bytes) => out.append(&mut bytes),
        Err(_) => unreached(),
    }
}

/// Appends the encoding of an address field to `out`.
pub fn write_address(out: &mut Vec<u8>, value: &Address)
    ensures
        final(out)@ == old(out)@ + value@,
{
    write_bytes32(out, &value.bytes)
}

/// An array of 32 bytes is the array that holds its own bytes.
pub proof fn lemma_bytes32_from_bytes(a: [u8; 32])
    ensures
        spec_bytes32_from_bytes(a@) == a,
        a@.len() == 32,
{
    let chosen = spec_bytes32_from_bytes(a@);
    assert(chosen@ == a@);
    assert(chosen =~= a);
}

/// An address is the address of its own bytes.
pub proof fn lemma_address_from_bytes(a: Address)
    ensures
        spec_address_from_bytes(a@) == a,
        a@.len() == 32,
{
    lemma_bytes32_from_bytes(a.bytes);
}

/// A signed integer is what its eight bytes decode to.
pub proof fn lemma_i64_round_trip(value: i64)
    ensures
        spec_i64_to_le_bytes(value).len() == 8,
        spec_i64_from_le_bytes(spec_i64_to_le_bytes(value)) == value,
{
    vstd::bytes::lemma_auto_spec_u64_to_from_le_bytes();
    assert((value as u64) as i64 == value) by (bit_vector);
}

} // verus!

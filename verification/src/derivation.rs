//! Program-derived addresses. A derived address is never taken from the
//! caller: it is recomputed from its seeds, and the bump that completes the
//! seeds is held against the one that the validator's own search finds.
use crate::address::Address;
use crate::codec::{lemma_address_from_bytes, spec_address_from_bytes};
use crate::error::{ValidationError, ValidationVerdict};
use solana_program::pubkey::Pubkey;
use solana_program::pubkey::PubkeyError;
use vstd::prelude::*;
use vstd::slice::slice_to_vec;

verus! {

/// The error of an address derivation, carried through unread.
#[verifier::external_type_specification]
#[verifier::external_body]
pub struct ExPubkeyError(PubkeyError);

/// The bytes of the address that `seeds` derive under the program with the
/// bytes `program_id`; none where the seeds derive no address.
pub uninterp spec fn program_address(seeds: Seq<Seq<u8>>, program_id: Seq<u8>) -> Option<Seq<u8>>;

/// `Pubkey::create_program_address`: the address derived from the seeds and
/// the program, which is a function of these alone, or an error where the
/// seeds derive none.
#[verifier::external_body]
fn create_program_address(seeds: &Vec<Vec<u8>>, program_id: &Address) -> (r: Result<
    Address,
    PubkeyError,
>)
    ensures
        match r {
            Ok(address) => program_address(seed_bytes(seeds@), program_id@) == Some(address@),
            Err(_) => program_address(seed_bytes(seeds@), program_id@).is_none(),
        },
{
    let slices: Vec<&[u8]> = seeds.iter().map(|seed| seed.as_slice()).collect();
    Pubkey::create_program_address(&slices, &Pubkey::new_from_array(program_id.bytes)).map(
        |key| Address { bytes: key.to_bytes() },
    )
}

/// What is to be verified of a derived address: that `seeds`, completed by
/// `bump`, derive `expected_address` under `program_id`, and that `bump` is
/// the canonical bump of the seeds.
#[derive(Clone, Debug, PartialEq, Eq)]
pub struct DerivationSpec {
    pub seeds: Vec<Vec<u8>>,
    pub program_id: Address,
    pub expected_address: Address,
    pub bump: u8,
}

/// The seeds as sequences of bytes.
pub open spec fn seed_bytes(seeds: Seq<Vec<u8>>) -> Seq<Seq<u8>> {
    Seq::new(seeds.len(), |i: int| seeds[i]@)
}

/// The address that the seeds, completed by `bump`, derive under `program`.
pub open spec fn derived_with_bump(seeds: Seq<Seq<u8>>, program: Address, bump: u8) -> Option<
    Address,
> {
    match program_address(seeds.push(seq![bump]), program@) {
        Some(bytes) => Some(spec_address_from_bytes(bytes)),
        None => None,
    }
}

/// The first bump, counting down from `bump`, with which the seeds derive
/// an address, and that address.
pub open spec fn canonical_from(seeds: Seq<Seq<u8>>, program: Address, bump: int) -> Option<
    (Address, u8),
>
    decreases bump + 1,
{
    if bump < 0 || bump > 255 {
        None
    } else {
        match derived_with_bump(seeds, program, bump as u8) {
            Some(address) => Some((address, bump as u8)),
            None => canonical_from(seeds, program, bump - 1),
        }
    }
}

/// The canonical derivation of the seeds: the largest bump with which they
/// derive an address, and that address. There is none where no bump derives
/// one.
pub open spec fn canonical_derivation(seeds: Seq<Seq<u8>>, program: Address) -> Option<
    (Address, u8),
> {
    canonical_from(seeds, program, 255)
}

/// The verdict on a derivation. `InvalidDerivedAddress` where the seeds
/// with the bump do not derive the expected address; else
/// `NonCanonicalBump` where the bump is not the canonical one.
pub open spec fn derivation_verdict(
    seeds: Seq<Seq<u8>>,
    program: Address,
    expected: Address,
    bump: u8,
) -> ValidationVerdict {
    if derived_with_bump(seeds, program, bump) != Some(expected) {
        ValidationVerdict::Fail(ValidationError::InvalidDerivedAddress)
    } else if canonical_derivation(seeds, program) != Some((expected, bump)) {
        ValidationVerdict::Fail(ValidationError::NonCanonicalBump)
    } else {
        ValidationVerdict::Pass
    }
}

/// The verdict on an address that is to be the canonical derivation of the
/// seeds, whatever the bump: `InvalidDerivedAddress` unless it is.
pub open spec fn canonical_address_verdict(
    seeds: Seq<Seq<u8>>,
    program: Address,
    expected: Address,
) -> ValidationVerdict {
    match canonical_derivation(seeds, program) {
        Some((address, _)) => if address == expected {
            ValidationVerdict::Pass
        } else {
            ValidationVerdict::Fail(ValidationError::InvalidDerivedAddress)
        },
        None => ValidationVerdict::Fail(ValidationError::InvalidDerivedAddress),
    }
}

impl DerivationSpec {
    /// The verdict that `verify_derivation` gives on this specification.
    pub open spec fn verdict_spec(self) -> ValidationVerdict {
        derivation_verdict(
            seed_bytes(self.seeds@),
            self.program_id,
            self.expected_address,
            self.bump,
        )
    }
}

/// A copy of the seeds.
fn copy_seeds(seeds: &Vec<Vec<u8>>) -> (r: Vec<Vec<u8>>)
    ensures
        seed_bytes(r@) == seed_bytes(seeds@),
{
    let mut out: Vec<Vec<u8>> = Vec::new();
    let mut i: usize = 0;
    while i < seeds.len()
        invariant
            0 <= i <= seeds.len(),
            out@.len() == i,
            forall|j: int| 0 <= j < i ==> out@[j]@ == seeds@[j]@,
        decreases seeds.len() - i,
    {
        out.push(slice_to_vec(seeds[i].as_slice()));
        i += 1;
    }
    assert(seed_bytes(out@) =~= seed_bytes(seeds@));
    out
}

/// Derives the address of the seeds completed by `bump`.
pub fn derive_with_bump(seeds: &Vec<Vec<u8>>, program_id: &Address, bump: u8) -> (r: Option<
    Address,
>)
    ensures
        r == derived_with_bump(seed_bytes(seeds@), *program_id, bump),
{
    let mut completed = copy_seeds(seeds);
    let mut last: Vec<u8> = Vec::new();
    last.push(bump);
    completed.push(last);
    assert(last@ =~= seq![bump]);
    assert(seed_bytes(completed@) =~= seed_bytes(seeds@).push(seq![bump]));
    match create_program_address(&completed, program_id) {
        Ok(address) => {
            proof {
                lemma_address_from_bytes(address);
            }
            Some(address)
        },
        Err(_) => None,
    }
}

/// Searches for the canonical derivation of the seeds: tries the bumps from
/// 255 down and stops at the first with which the seeds derive an address.
pub fn find_canonical(seeds: &Vec<Vec<u8>>, program_id: &Address) -> (r: Option<(Address, u8)>)
    ensures
        r == canonical_derivation(seed_bytes(seeds@), *program_id),
{
    let mut bump: u8 = 255;
    loop
        invariant
            canonical_derivation(seed_bytes(seeds@), *program_id) == canonical_from(
                seed_bytes(seeds@),
                *program_id,
                bump as int,
            ),
        decreases bump,
    {
        match derive_with_bump(seeds, program_id, bump) {
            Some(address) => {
                return Some((address, bump));
            },
            None => {},
        }
        if bump == 0 {
            assert(canonical_from(seed_bytes(seeds@), *program_id, -1) is None);
            return None;
        }
        bump -= 1;
    }
}

/// Verifies a derived address. The address is recomputed from the seeds
/// and the bump, and the bump is held against the result of the validator's
/// own search; nothing the caller supplied is believed.
pub fn verify_derivation(spec: &DerivationSpec) -> (r: ValidationVerdict)
    ensures
        r == spec.verdict_spec(),
{
    match derive_with_bump(&spec.seeds, &spec.program_id, spec.bump) {
        Some(address) => {
            proof {
                if address@ == spec.expected_address@ {
                    crate::address::lemma_address_ext(address, spec.expected_address);
                }
            }
            if address != spec.expected_address {
                return ValidationVerdict::Fail(ValidationError::InvalidDerivedAddress);
            }
        },
        None => {
            return ValidationVerdict::Fail(ValidationError::InvalidDerivedAddress);
        },
    }
    proof {
        lemma_canonical_is_largest(seed_bytes(spec.seeds@), spec.program_id, 255);
    }
    match find_canonical(&spec.seeds, &spec.program_id) {
        Some((_, bump)) => {
            if bump == spec.bump {
                ValidationVerdict::Pass
            } else {
                ValidationVerdict::Fail(ValidationError::NonCanonicalBump)
            }
        },
        None => ValidationVerdict::Fail(ValidationError::NonCanonicalBump),
    }
}

/// Verifies that `expected` is the canonical derivation of the seeds, with
/// the bump that the search finds.
pub fn verify_canonical_address(
    seeds: &Vec<Vec<u8>>,
    program_id: &Address,
    expected: &Address,
) -> (r: ValidationVerdict)
    ensures
        r == canonical_address_verdict(seed_bytes(seeds@), *program_id, *expected),
{
    match find_canonical(seeds, program_id) {
        Some((address, _)) => {
            proof {
                if address@ == expected@ {
                    crate::address::lemma_address_ext(address, *expected);
                }
            }
            if address == *expected {
                ValidationVerdict::Pass
            } else {
                ValidationVerdict::Fail(ValidationError::InvalidDerivedAddress)
            }
        },
        None => ValidationVerdict::Fail(ValidationError::InvalidDerivedAddress),
    }
}

/// What the search returns derives, and no larger bump does: the canonical
/// bump is unique.
pub proof fn lemma_canonical_is_largest(seeds: Seq<Seq<u8>>, program: Address, from: int)
    requires
        -1 <= from <= 255,
    ensures
        match canonical_from(seeds, program, from) {
            Some((address, bump)) => {
                &&& bump <= from
                &&& derived_with_bump(seeds, program, bump) == Some(address)
                &&& forall|other: u8|
                    bump < other <= from ==> derived_with_bump(seeds, program, other) is None
            },
            None => forall|other: u8|
                other <= from ==> derived_with_bump(seeds, program, other) is None,
        },
    decreases from + 1,
{
    if from >= 0 {
        lemma_canonical_is_largest(seeds, program, from - 1);
    }
}

/// Derivation is deterministic: two specifications with the same seeds and
/// the same program have the same canonical address and bump, and, where
/// they also expect the same address and bump, the same verdict.
pub proof fn lemma_derivation_deterministic(a: DerivationSpec, b: DerivationSpec)
    requires
        seed_bytes(a.seeds@) == seed_bytes(b.seeds@),
        a.program_id == b.program_id,
    ensures
        canonical_derivation(seed_bytes(a.seeds@), a.program_id) == canonical_derivation(
            seed_bytes(b.seeds@),
            b.program_id,
        ),
        a.expected_address == b.expected_address && a.bump == b.bump ==> a.verdict_spec()
            == b.verdict_spec(),
{
}

/// A derivation that passes names the canonical derivation: no other bump
/// and no other address pass for the same seeds and program.
pub proof fn lemma_passing_derivation_is_canonical(a: DerivationSpec, b: DerivationSpec)
    requires
        seed_bytes(a.seeds@) == seed_bytes(b.seeds@),
        a.program_id == b.program_id,
        a.verdict_spec() == ValidationVerdict::Pass,
        b.verdict_spec() == ValidationVerdict::Pass,
    ensures
        a.expected_address == b.expected_address,
        a.bump == b.bump,
{
}

} // verus!

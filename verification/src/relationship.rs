//! The relationship validator: a record that refers to another account by a
//! stored address is believed only where that address is the address of the
//! account actually supplied. The position of an account in the list says
//! nothing about its identity.
use crate::account::AccountHandle;
use crate::address::Address;
use crate::derivation::{
    canonical_address_verdict, derivation_verdict, seed_bytes, verify_canonical_address,
    verify_derivation, DerivationSpec,
};
use crate::error::{verdict_of, ValidationError, ValidationVerdict};
use crate::roles::BoundAccount;
use vstd::prelude::*;
use vstd::slice::slice_to_vec;

verus! {

/// The fields in which records store the address of another account.
#[derive(Clone, Copy, Debug, PartialEq, Eq, Structural)]
pub enum ReferenceField {
    Owner,
    Authority,
    Beneficiary,
    EscrowAccount,
    TokenAccount,
}

/// One seed of a derived address.
#[derive(Clone, Debug, PartialEq, Eq)]
pub enum Seed {
    /// The bytes themselves.
    Bytes(Vec<u8>),
    /// The address of the account bound to a role.
    AddressOf(usize),
}

/// A rule that an operation declares over its roles.
#[derive(Clone, Debug, PartialEq, Eq)]
pub enum RelationshipRule {
    /// The address that the record of `subject_role` stores in `field` is
    /// the address of the account bound to `target_role`.
    StoredReference { subject_role: usize, field: ReferenceField, target_role: usize },
    /// The address of the account bound to `target_role` is derived from
    /// `seeds` under the executing program: with `bump`, which must be the
    /// canonical bump, or, where none is given, with the canonical bump.
    DerivedAddress { target_role: usize, seeds: Vec<Seed>, bump: Option<u8> },
}

/// The mathematical value of a seed.
pub enum SeedView {
    Bytes(Seq<u8>),
    AddressOf(usize),
}

/// The mathematical value of a rule.
pub enum RuleView {
    StoredReference { subject_role: usize, field: ReferenceField, target_role: usize },
    DerivedAddress { target_role: usize, seeds: Seq<SeedView>, bump: Option<u8> },
}

impl DeepView for Seed {
    type V = SeedView;

    open spec fn deep_view(&self) -> SeedView {
        match self {
            Seed::Bytes(bytes) => SeedView::Bytes(bytes@),
            Seed::AddressOf(role) => SeedView::AddressOf(*role),
        }
    }
}

impl DeepView for RelationshipRule {
    type V = RuleView;

    open spec fn deep_view(&self) -> RuleView {
        match self {
            RelationshipRule::StoredReference {
                subject_role,
                field,
                target_role,
            } => RuleView::StoredReference {
                subject_role: *subject_role,
                field: *field,
                target_role: *target_role,
            },
            RelationshipRule::DerivedAddress {
                target_role,
                seeds,
                bump,
            } => RuleView::DerivedAddress {
                target_role: *target_role,
                seeds: seeds.deep_view(),
                bump: *bump,
            },
        }
    }
}

/// The bytes of one seed.
pub open spec fn seed_spec(seed: SeedView, bound: Seq<BoundAccount>) -> Seq<u8> {
    match seed {
        SeedView::Bytes(bytes) => bytes,
        SeedView::AddressOf(role) => bound[role as int].address@,
    }
}

/// The bytes of the seeds, in order.
pub open spec fn resolved_seeds(seeds: Seq<SeedView>, bound: Seq<BoundAccount>) -> Seq<Seq<u8>> {
    Seq::new(seeds.len(), |i: int| seed_spec(seeds[i], bound))
}

/// Whether every role that the seeds name is bound.
pub open spec fn seeds_bound(seeds: Seq<SeedView>, bound: Seq<BoundAccount>) -> bool {
    forall|i: int|
        0 <= i < seeds.len() ==> ((#[trigger] seeds[i]) matches SeedView::AddressOf(role) ==> role
            < bound.len())
}

/// The verdict of one rule over the bound accounts. A rule that names a
/// role the operation does not have fails with `MissingAccount`. A stored
/// reference fails with `AccountMismatch` where the subject has no record,
/// where its record has no such field, or where the stored address is not
/// the target's. A derived address fails as its derivation does.
pub open spec fn rule_verdict(
    rule: RuleView,
    program: Address,
    bound: Seq<BoundAccount>,
) -> ValidationVerdict {
    match rule {
        RuleView::StoredReference { subject_role, field, target_role } => {
            if subject_role >= bound.len() || target_role >= bound.len() {
                ValidationVerdict::Fail(ValidationError::MissingAccount)
            } else {
                match bound[subject_role as int].record {
                    None => ValidationVerdict::Fail(ValidationError::AccountMismatch),
                    Some(record) => match record.reference_spec(field) {
                        None => ValidationVerdict::Fail(ValidationError::AccountMismatch),
                        Some(stored) => verdict_of(
                            stored == bound[target_role as int].address,
                            ValidationError::AccountMismatch,
                        ),
                    },
                }
            }
        },
        RuleView::DerivedAddress { target_role, seeds, bump } => {
            if target_role >= bound.len() || !seeds_bound(seeds, bound) {
                ValidationVerdict::Fail(ValidationError::MissingAccount)
            } else {
                match bump {
                    Some(bump) => derivation_verdict(
                        resolved_seeds(seeds, bound),
                        program,
                        bound[target_role as int].address,
                        bump,
                    ),
                    None => canonical_address_verdict(
                        resolved_seeds(seeds, bound),
                        program,
                        bound[target_role as int].address,
                    ),
                }
            }
        },
    }
}

/// Turns seeds into bytes, where every role they name is bound.
fn resolve_seeds(seeds: &Vec<Seed>, bound: &Vec<BoundAccount>) -> (r: Option<Vec<Vec<u8>>>)
    ensures
        match r {
            Some(bytes) => seeds_bound(seeds.deep_view(), bound@) && seed_bytes(bytes@)
                == resolved_seeds(seeds.deep_view(), bound@),
            None => !seeds_bound(seeds.deep_view(), bound@),
        },
{
    let mut out: Vec<Vec<u8>> = Vec::new();
    let mut i: usize = 0;
    while i < seeds.len()
        invariant
            0 <= i <= seeds.len(),
            out@.len() == i,
            forall|j: int|
                0 <= j < i ==> ((#[trigger] seeds.deep_view()[j]) matches SeedView::AddressOf(
                    role,
                ) ==> role < bound@.len()),
            forall|j: int| 0 <= j < i ==> out@[j]@ == seed_spec(seeds.deep_view()[j], bound@),
        decreases seeds.len() - i,
    {
        match &seeds[i] {
            Seed::Bytes(bytes) => {
                out.push(slice_to_vec(bytes.as_slice()));
            },
            Seed::AddressOf(role) => {
                if *role >= bound.len() {
                    assert(seeds.deep_view()[i as int] == SeedView::AddressOf(*role));
                    return None;
                }
                out.push(bound[*role].address.to_vec());
            },
        }
        i += 1;
    }
    assert(seed_bytes(out@) =~= resolved_seeds(seeds.deep_view(), bound@));
    Some(out)
}

/// Checks one rule over the bound accounts.
pub fn check_rule(rule: &RelationshipRule, program_id: &Address, bound: &Vec<BoundAccount>) -> (r:
    ValidationVerdict)
    ensures
        r == rule_verdict(rule.deep_view(), *program_id, bound@),
{
    match rule {
        RelationshipRule::StoredReference { subject_role, field, target_role } => {
            if *subject_role >= bound.len() || *target_role >= bound.len() {
                return ValidationVerdict::Fail(ValidationError::MissingAccount);
            }
            let stored = match bound[*subject_role].record {
                None => None,
                Some(record) => record.reference(*field),
            };
            match stored {
                None => ValidationVerdict::Fail(ValidationError::AccountMismatch),
                Some(stored) => {
                    proof {
                        if stored@ == bound@[*target_role as int].address@ {
                            crate::address::lemma_address_ext(
                                stored,
                                bound@[*target_role as int].address,
                            );
                        }
                    }
                    if stored == bound[*target_role].address {
                        ValidationVerdict::Pass
                    } else {
                        ValidationVerdict::Fail(ValidationError::AccountMismatch)
                    }
                },
            }
        },
        RelationshipRule::DerivedAddress { target_role, seeds, bump } => {
            if *target_role >= bound.len() {
                return ValidationVerdict::Fail(ValidationError::MissingAccount);
            }
            match resolve_seeds(seeds, bound) {
                None => ValidationVerdict::Fail(ValidationError::MissingAccount),
                Some(bytes) => {
                    let expected = bound[*target_role].address;
                    match bump {
                        Some(bump) => {
                            let spec = DerivationSpec {
                                seeds: bytes,
                                program_id: *program_id,
                                expected_address: expected,
                                bump: *bump,
                            };
                            verify_derivation(&spec)
                        },
                        None => verify_canonical_address(&bytes, program_id, &expected),
                    }
                },
            }
        },
    }
}

/// Fails with `AccountMismatch` unless the stored address is the address
/// of the target handle.
pub fn verify_relationship(stored: &Address, target: &AccountHandle) -> (r: ValidationVerdict)
    ensures
        r == verdict_of(*stored == target@.address, ValidationError::AccountMismatch),
{
    proof {
        if stored@ == target.address@ {
            crate::address::lemma_address_ext(*stored, target.address);
        }
    }
    if *stored == target.address {
        ValidationVerdict::Pass
    } else {
        ValidationVerdict::Fail(ValidationError::AccountMismatch)
    }
}

} // verus!

//! Withdrawal from a program-derived account: the account's address is
//! recomputed from its seeds before its record is believed.
use crate::account::{AccountHandle, AccountView, HostContext};
use crate::address::Address;
use crate::arithmetic::{add_spec, checked_add, checked_sub, sub_spec};
use crate::codec::{
    lemma_address_from_bytes, read_address, read_u64, spec_address_from_bytes, write_address,
    write_u64,
};
use crate::error::ValidationError;
use crate::instruction::{amount_spec, read_amount};
use crate::pipeline::{
    delivers, execution_spec, staged_as, validate, validate_and_execute, validation_spec,
    StagedWrite,
};
use crate::relationship::{ReferenceField, RelationshipRule, RuleView, Seed, SeedView};
use crate::roles::{well_bound, BoundAccount, RecordRequirement, RoleSpec};
use crate::schema::{SchemaKind, TypedRecord};
use vstd::bytes::{
    lemma_auto_spec_u64_to_from_le_bytes, spec_u64_from_le_bytes, spec_u64_to_le_bytes,
};
use vstd::pervasive::unreached;
use vstd::prelude::*;
use vstd::slice::slice_subrange;

verus! {

/// The length in bytes of an encoded `UserData`, without its discriminant.
pub const USER_DATA_BYTES: usize = 40;

/// A user's balance, kept at an address derived from the user's own.
#[derive(Clone, Copy, Debug, PartialEq, Eq)]
pub struct UserData {
    /// The user the balance belongs to.
    pub owner: Address,
    /// The funds recorded for the user.
    pub balance: u64,
}

impl UserData {
    /// The encoded fields, one after the other in declaration order.
    pub open spec fn payload_spec(self) -> Seq<u8> {
        self.owner@ + spec_u64_to_le_bytes(self.balance)
    }

    /// The record that `payload` encodes: none unless it is exactly 40 bytes long.
    pub open spec fn parse_spec(payload: Seq<u8>) -> Option<UserData> {
        if payload.len() != 40 {
            None
        } else {
            Some(
                UserData {
                    owner: spec_address_from_bytes(payload.subrange(0, 32)),
                    balance: spec_u64_from_le_bytes(payload.subrange(32, 40)),
                },
            )
        }
    }

    /// Decodes the fields from `payload`.
    pub fn parse(payload: &[u8]) -> (r: Option<UserData>)
        ensures
            r == Self::parse_spec(payload@),
    {
        if payload.len() != USER_DATA_BYTES {
            return None;
        }
        let owner = read_address(slice_subrange(payload, 0, 32));
        let balance = read_u64(slice_subrange(payload, 32, 40));
        match (owner, balance) {
            (Some(owner), Some(balance)) => Some(UserData { owner, balance }),
            _ => None,
        }
    }

    /// Appends the encoded fields to `out`.
    pub fn write_payload(&self, out: &mut Vec<u8>)
        ensures
            final(out)@ == old(out)@ + self.payload_spec(),
    {
        write_address(out, &self.owner);
        write_u64(out, self.balance);
        assert(out@ =~= old(out)@ + self.payload_spec());
    }

    /// Parsing the encoded fields gives the record back.
    pub proof fn lemma_round_trip(self)
        ensures
            self.payload_spec().len() == 40,
            Self::parse_spec(self.payload_spec()) == Some(self),
    {
        lemma_auto_spec_u64_to_from_le_bytes();
        let payload = self.payload_spec();
        lemma_address_from_bytes(self.owner);
        assert(payload.subrange(0, 32) =~= self.owner@);
        assert(payload.subrange(32, 40) =~= spec_u64_to_le_bytes(self.balance));
    }
}

/// The seed that marks the address of a user's data: the bytes of
/// `user_data`.
pub open spec fn user_data_seed() -> Seq<u8> {
    seq![117u8, 115u8, 101u8, 114u8, 95u8, 100u8, 97u8, 116u8, 97u8]
}

/// The seed that marks the address of a vault: the bytes of `vault`.
pub open spec fn vault_seed() -> Seq<u8> {
    seq![118u8, 97u8, 117u8, 108u8, 116u8]
}

/// The roles of the withdrawal: the user, the derived account, the
/// recipient.
pub open spec fn withdraw_roles() -> Seq<RoleSpec> {
    seq![
        RoleSpec {
            name: "user",
            program_owned: false,
            must_sign: true,
            record: RecordRequirement::Opaque,
        },
        RoleSpec {
            name: "pda",
            program_owned: true,
            must_sign: false,
            record: RecordRequirement::Holds(SchemaKind::DerivedUserData),
        },
        RoleSpec {
            name: "recipient",
            program_owned: false,
            must_sign: false,
            record: RecordRequirement::Opaque,
        },
    ]
}

/// The rules of the withdrawal: the derived account's address is the
/// canonical derivation of the marker seed and the user's address, and the
/// record in it names the user as its owner.
pub open spec fn withdraw_rules() -> Seq<RuleView> {
    seq![
        RuleView::DerivedAddress {
            target_role: 1,
            seeds: seq![SeedView::Bytes(user_data_seed()), SeedView::AddressOf(0)],
            bump: None,
        },
        RuleView::StoredReference { subject_role: 1, field: ReferenceField::Owner, target_role: 0 },
    ]
}

/// What the withdrawal stages: `InsufficientFunds` where the record
/// holds less than the amount; else the amount leaves the recorded balance
/// and the derived account for the recipient, with `ArithmeticUnderflow`
/// where the account holds less than the amount and `ArithmeticOverflow`
/// where the recipient cannot hold the sum.
pub open spec fn withdraw_mutation(bound: Seq<BoundAccount>, amount: u64) -> Result<
    Seq<StagedWrite>,
    ValidationError,
> {
    let data = bound[1].record->0->DerivedUserData_0;
    if data.balance < amount {
        Err(ValidationError::InsufficientFunds)
    } else {
        match sub_spec(bound[1].lamport_balance, amount) {
            Err(reason) => Err(reason),
            Ok(remaining) => match add_spec(bound[2].lamport_balance, amount) {
                Err(reason) => Err(reason),
                Ok(credited) => Ok(
                    seq![
                        StagedWrite {
                            role: 1,
                            lamport_balance: remaining,
                            record: Some(
                                TypedRecord::DerivedUserData(
                                    UserData { balance: (data.balance - amount) as u64, ..data },
                                ),
                            ),
                        },
                        StagedWrite { role: 2, lamport_balance: credited, record: None },
                    ],
                ),
            },
        }
    }
}

/// What the withdrawal comes to.
pub open spec fn withdraw_spec(
    program: Address,
    accounts: Seq<AccountView>,
    instruction_data: Seq<u8>,
    host: HostContext,
) -> Result<Seq<AccountView>, ValidationError> {
    execution_spec(
        program,
        accounts,
        withdraw_roles(),
        withdraw_rules(),
        host,
        |bound: Seq<BoundAccount>| withdraw_mutation(bound, amount_spec(instruction_data)),
    )
}

/// The role of the bump check: the derived account.
pub open spec fn bump_roles() -> Seq<RoleSpec> {
    seq![
        RoleSpec {
            name: "pda",
            program_owned: false,
            must_sign: false,
            record: RecordRequirement::Opaque,
        },
    ]
}

/// The rule of the bump check: the account's address is derived from
/// the vault seed with the given bump, and the bump is the canonical one.
pub open spec fn bump_rules(bump: u8) -> Seq<RuleView> {
    seq![
        RuleView::DerivedAddress {
            target_role: 0,
            seeds: seq![SeedView::Bytes(vault_seed())],
            bump: Some(bump),
        },
    ]
}

/// What the bump check returns: the first failure of its checks, or `Ok`.
pub open spec fn bump_spec(
    program: Address,
    accounts: Seq<AccountView>,
    instruction_data: Seq<u8>,
    host: HostContext,
) -> Result<(), ValidationError> {
    match validation_spec(program, accounts, bump_roles(), bump_rules(instruction_data[0]), host) {
        Err(reason) => Err(reason),
        Ok(_) => Ok(()),
    }
}

fn user_data_seed_bytes() -> (r: Vec<u8>)
    ensures
        r@ == user_data_seed(),
{
    let mut seed: Vec<u8> = Vec::new();
    seed.push(117);
    seed.push(115);
    seed.push(101);
    seed.push(114);
    seed.push(95);
    seed.push(100);
    seed.push(97);
    seed.push(116);
    seed.push(97);
    assert(seed@ =~= user_data_seed());
    seed
}

fn vault_seed_bytes() -> (r: Vec<u8>)
    ensures
        r@ == vault_seed(),
{
    let mut seed: Vec<u8> = Vec::new();
    seed.push(118);
    seed.push(97);
    seed.push(117);
    seed.push(108);
    seed.push(116);
    assert(seed@ =~= vault_seed());
    seed
}

fn withdraw_role_schema() -> (r: Vec<RoleSpec>)
    ensures
        r@ == withdraw_roles(),
{
    let mut roles: Vec<RoleSpec> = Vec::new();
    roles.push(RoleSpec::signer("user"));
    roles.push(RoleSpec::holding("pda", SchemaKind::DerivedUserData));
    roles.push(RoleSpec::plain("recipient"));
    assert(roles@ =~= withdraw_roles());
    roles
}

fn withdraw_rule_set() -> (r: Vec<RelationshipRule>)
    ensures
        r.deep_view() == withdraw_rules(),
{
    let mut seeds: Vec<Seed> = Vec::new();
    seeds.push(Seed::Bytes(user_data_seed_bytes()));
    seeds.push(Seed::AddressOf(0));
    assert(seeds.deep_view() =~= seq![
        SeedView::Bytes(user_data_seed()),
        SeedView::AddressOf(0),
    ]);
    let mut rules: Vec<RelationshipRule> = Vec::new();
    rules.push(RelationshipRule::DerivedAddress { target_role: 1, seeds, bump: None });
    rules.push(
        RelationshipRule::StoredReference {
            subject_role: 1,
            field: ReferenceField::Owner,
            target_role: 0,
        },
    );
    assert(rules.deep_view() =~= withdraw_rules());
    rules
}

fn bump_role_schema() -> (r: Vec<RoleSpec>)
    ensures
        r@ == bump_roles(),
{
    let mut roles: Vec<RoleSpec> = Vec::new();
    roles.push(RoleSpec::plain("pda"));
    assert(roles@ =~= bump_roles());
    roles
}

fn bump_rule_set(bump: u8) -> (r: Vec<RelationshipRule>)
    ensures
        r.deep_view() == bump_rules(bump),
{
    let mut seeds: Vec<Seed> = Vec::new();
    seeds.push(Seed::Bytes(vault_seed_bytes()));
    assert(seeds.deep_view() =~= seq![SeedView::Bytes(vault_seed())]);
    let mut rules: Vec<RelationshipRule> = Vec::new();
    rules.push(RelationshipRule::DerivedAddress { target_role: 0, seeds, bump: Some(bump) });
    assert(rules.deep_view() =~= bump_rules(bump));
    rules
}

fn stage_withdraw(bound: Vec<BoundAccount>, amount: u64) -> (staged: Result<
    Vec<StagedWrite>,
    ValidationError,
>)
    requires
        well_bound(bound@, withdraw_roles()),
    ensures
        staged_as(staged, withdraw_mutation(bound@, amount)),
{
    assert(withdraw_roles()[1].record == RecordRequirement::Holds(SchemaKind::DerivedUserData));
    let data = match bound[1].record {
        Some(TypedRecord::DerivedUserData(data)) => data,
        _ => unreached(),
    };
    if data.balance < amount {
        return Err(ValidationError::InsufficientFunds);
    }
    let remaining = match checked_sub(bound[1].lamport_balance, amount) {
        Ok(difference) => difference,
        Err(reason) => {
            return Err(reason);
        },
    };
    let credited = match checked_add(bound[2].lamport_balance, amount) {
        Ok(sum) => sum,
        Err(reason) => {
            return Err(reason);
        },
    };
    let mut writes: Vec<StagedWrite> = Vec::new();
    writes.push(
        StagedWrite {
            role: 1,
            lamport_balance: remaining,
            record: Some(
                TypedRecord::DerivedUserData(
                    UserData { owner: data.owner, balance: data.balance - amount },
                ),
            ),
        },
    );
    writes.push(StagedWrite { role: 2, lamport_balance: credited, record: None });
    assert(writes@ =~= withdraw_mutation(bound@, amount)->Ok_0);
    Ok(writes)
}

/// Withdraws the amount that leads the instruction data from a user's
/// derived account to a recipient. The user has signed; the account's
/// address is recomputed from the marker seed and the user's address, with
/// the bump that the validator's own search finds; the program controls the
/// account, and the record in it names the user.
pub fn process_instruction(
    program_id: &Address,
    accounts: &mut Vec<AccountHandle>,
    instruction_data: &[u8],
    host: &HostContext,
) -> (r: Result<(), ValidationError>)
    requires
        instruction_data@.len() >= 8,
    ensures
        delivers(
            withdraw_spec(*program_id, old(accounts).deep_view(), instruction_data@, *host),
            old(accounts).deep_view(),
            final(accounts).deep_view(),
            r,
        ),
{
    let amount = read_amount(instruction_data);
    let roles = withdraw_role_schema();
    let rules = withdraw_rule_set();
    let mutation = |bound: Vec<BoundAccount>| -> (staged: Result<Vec<StagedWrite>, ValidationError>)
        requires
            well_bound(bound@, withdraw_roles()),
        ensures
            staged_as(staged, withdraw_mutation(bound@, amount)),
        { stage_withdraw(bound, amount) };
    match validate_and_execute(program_id, accounts, &roles, &rules, host, mutation) {
        Ok(_) => Ok(()),
        Err(reason) => Err(reason),
    }
}

/// Checks an account against a bump that the caller supplies in the
/// first byte of the instruction data. The name records what believing the
/// bump is open to; here it is not believed: the address is recomputed from
/// the vault seed and the bump, and the bump must be the one that the
/// validator's own search finds. Nothing is written.
pub fn vulnerable_with_bump(
    program_id: &Address,
    accounts: &Vec<AccountHandle>,
    instruction_data: &[u8],
    host: &HostContext,
) -> (r: Result<(), ValidationError>)
    requires
        instruction_data@.len() >= 1,
    ensures
        r == bump_spec(*program_id, accounts.deep_view(), instruction_data@, *host),
{
    let bump = instruction_data[0];
    let roles = bump_role_schema();
    let rules = bump_rule_set(bump);
    match validate(program_id, accounts, &roles, &rules, host) {
        Ok(_) => Ok(()),
        Err(reason) => Err(reason),
    }
}

} // verus!

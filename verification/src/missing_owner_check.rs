//! Vault withdrawal: an operation that trusts a vault record only after the
//! program's control of the account is established.
use crate::account::{AccountHandle, AccountView, HostContext};
use crate::address::Address;
use crate::arithmetic::{add_spec, checked_add, checked_sub, sub_spec};
use crate::codec::{
    lemma_address_from_bytes, read_address, read_u64, spec_address_from_bytes, write_address,
    write_u64,
};
use crate::error::ValidationError;
use crate::instruction::{amount_spec, read_amount};
use crate::pipeline::{delivers, execution_spec, staged_as, validate_and_execute, StagedWrite};
use crate::relationship::{ReferenceField, RelationshipRule, RuleView};
use crate::roles::{well_bound, BoundAccount, RecordRequirement, RoleSpec};
use crate::schema::{SchemaKind, TypedRecord};
use vstd::bytes::{
    lemma_auto_spec_u64_to_from_le_bytes, spec_u64_from_le_bytes, spec_u64_to_le_bytes,
};
use vstd::pervasive::unreached;
use vstd::prelude::*;
use vstd::slice::slice_subrange;

verus! {

/// The length in bytes of an encoded `VaultData`, without its discriminant.
pub const VAULT_DATA_BYTES: usize = 40;

/// A vault and who may withdraw from it.
#[derive(Clone, Copy, Debug, PartialEq, Eq)]
pub struct VaultData {
    /// The address that may withdraw from the vault.
    pub authority: Address,
    /// The funds the vault records.
    pub balance: u64,
}

impl VaultData {
    /// The encoded fields, one after the other in declaration order.
    pub open spec fn payload_spec(self) -> Seq<u8> {
        self.authority@ + spec_u64_to_le_bytes(self.balance)
    }

    /// The record that `payload` encodes: none unless it is exactly 40 bytes long.
    pub open spec fn parse_spec(payload: Seq<u8>) -> Option<VaultData> {
        if payload.len() != 40 {
            None
        } else {
            Some(
                VaultData {
                    authority: spec_address_from_bytes(payload.subrange(0, 32)),
                    balance: spec_u64_from_le_bytes(payload.subrange(32, 40)),
                },
            )
        }
    }

    /// Decodes the fields from `payload`.
    pub fn parse(payload: &[u8]) -> (r: Option<VaultData>)
        ensures
            r == Self::parse_spec(payload@),
    {
        if payload.len() != VAULT_DATA_BYTES {
            return None;
        }
        let authority = read_address(slice_subrange(payload, 0, 32));
        let balance = read_u64(slice_subrange(payload, 32, 40));
        match (authority, balance) {
            (Some(authority), Some(balance)) => Some(VaultData { authority, balance }),
            _ => None,
        }
    }

    /// Appends the encoded fields to `out`.
    pub fn write_payload(&self, out: &mut Vec<u8>)
        ensures
            final(out)@ == old(out)@ + self.payload_spec(),
    {
        write_address(out, &self.authority);
        write_u64(out, self.balance);
        assert(out@ =~= old(out)@ + self.payload_spec());
    }

    /// Parsing the encoded fields gives the record back.
    pub proof fn lemma_round_trip(self)
        ensures
            self.payload_spec().len() == 40,
            Self::parse_spec(self.payload_spec()) == Some(self),
    {
        lemma_auto_spec_u64_to_from_le_bytes();
        let payload = self.payload_spec();
        lemma_address_from_bytes(self.authority);
        assert(payload.subrange(0, 32) =~= self.authority@);
        assert(payload.subrange(32, 40) =~= spec_u64_to_le_bytes(self.balance));
    }
}

/// The roles of the vault withdrawal: the vault, the authority, the
/// recipient.
pub open spec fn withdraw_roles() -> Seq<RoleSpec> {
    seq![
        RoleSpec {
            name: "vault",
            program_owned: true,
            must_sign: false,
            record: RecordRequirement::Holds(SchemaKind::VaultData),
        },
        RoleSpec {
            name: "authority",
            program_owned: false,
            must_sign: true,
            record: RecordRequirement::Opaque,
        },
        RoleSpec {
            name: "recipient",
            program_owned: false,
            must_sign: false,
            record: RecordRequirement::Opaque,
        },
    ]
}

/// The rule of the vault withdrawal: the authority is the vault's.
pub open spec fn withdraw_rules() -> Seq<RuleView> {
    seq![
        RuleView::StoredReference {
            subject_role: 0,
            field: ReferenceField::Authority,
            target_role: 1,
        },
    ]
}

/// What the vault withdrawal stages: the amount leaves the vault's
/// recorded balance and the vault account for the recipient.
/// `ArithmeticUnderflow` where the record or the account holds less than the
/// amount, `ArithmeticOverflow` where the recipient cannot hold the sum.
pub open spec fn withdraw_mutation(bound: Seq<BoundAccount>, amount: u64) -> Result<
    Seq<StagedWrite>,
    ValidationError,
> {
    let vault = bound[0].record->0->VaultData_0;
    match sub_spec(vault.balance, amount) {
        Err(reason) => Err(reason),
        Ok(balance) => match sub_spec(bound[0].lamport_balance, amount) {
            Err(reason) => Err(reason),
            Ok(remaining) => match add_spec(bound[2].lamport_balance, amount) {
                Err(reason) => Err(reason),
                Ok(credited) => Ok(
                    seq![
                        StagedWrite {
                            role: 0,
                            lamport_balance: remaining,
                            record: Some(TypedRecord::VaultData(VaultData { balance, ..vault })),
                        },
                        StagedWrite { role: 2, lamport_balance: credited, record: None },
                    ],
                ),
            },
        },
    }
}

/// What the vault withdrawal comes to.
pub open spec fn withdraw_spec(
    program: Address,
    accounts: Seq<AccountView>,
    instruction_data: Seq<u8>,
    host: HostContext,
) -> Result<Seq<AccountView>, ValidationError> {
    execution_spec(
        program,
        accounts,
        withdraw_roles(),
        withdraw_rules(),
        host,
        |bound: Seq<BoundAccount>| withdraw_mutation(bound, amount_spec(instruction_data)),
    )
}

fn withdraw_role_schema() -> (r: Vec<RoleSpec>)
    ensures
        r@ == withdraw_roles(),
{
    let mut roles: Vec<RoleSpec> = Vec::new();
    roles.push(RoleSpec::holding("vault", SchemaKind::VaultData));
    roles.push(RoleSpec::signer("authority"));
    roles.push(RoleSpec::plain("recipient"));
    assert(roles@ =~= withdraw_roles());
    roles
}

fn withdraw_rule_set() -> (r: Vec<RelationshipRule>)
    ensures
        r.deep_view() == withdraw_rules(),
{
    let mut rules: Vec<RelationshipRule> = Vec::new();
    rules.push(
        RelationshipRule::StoredReference {
            subject_role: 0,
            field: ReferenceField::Authority,
            target_role: 1,
        },
    );
    assert(rules.deep_view() =~= withdraw_rules());
    rules
}

fn stage_withdraw(bound: Vec<BoundAccount>, amount: u64) -> (staged: Result<
    Vec<StagedWrite>,
    ValidationError,
>)
    requires
        well_bound(bound@, withdraw_roles()),
    ensures
        staged_as(staged, withdraw_mutation(bound@, amount)),
{
    assert(withdraw_roles()[0].record == RecordRequirement::Holds(SchemaKind::VaultData));
    let vault = match bound[0].record {
        Some(TypedRecord::VaultData(vault)) => vault,
        _ => unreached(),
    };
    let balance = match checked_sub(vault.balance, amount) {
        Ok(difference) => difference,
        Err(reason) => {
            return Err(reason);
        },
    };
    let remaining = match checked_sub(bound[0].lamport_balance, amount) {
        Ok(difference) => difference,
        Err(reason) => {
            return Err(reason);
        },
    };
    let credited = match checked_add(bound[2].lamport_balance, amount) {
        Ok(sum) => sum,
        Err(reason) => {
            return Err(reason);
        },
    };
    let mut writes: Vec<StagedWrite> = Vec::new();
    writes.push(
        StagedWrite {
            role: 0,
            lamport_balance: remaining,
            record: Some(TypedRecord::VaultData(VaultData { authority: vault.authority, balance })),
        },
    );
    writes.push(StagedWrite { role: 2, lamport_balance: credited, record: None });
    assert(writes@ =~= withdraw_mutation(bound@, amount)->Ok_0);
    Ok(writes)
}

/// Withdraws the amount that leads the instruction data from a vault to
/// a recipient. The vault's record is read only after the program's control
/// of the vault account is established; the authority has signed and is the
/// one the vault names.
pub fn process_instruction(
    program_id: &Address,
    accounts: &mut Vec<AccountHandle>,
    instruction_data: &[u8],
    host: &HostContext,
) -> (r: Result<(), ValidationError>)
    requires
        instruction_data@.len() >= 8,
    ensures
        delivers(
            withdraw_spec(*program_id, old(accounts).deep_view(), instruction_data@, *host),
            old(accounts).deep_view(),
            final(accounts).deep_view(),
            r,
        ),
{
    let amount = read_amount(instruction_data);
    let roles = withdraw_role_schema();
    let rules = withdraw_rule_set();
    let mutation = |bound: Vec<BoundAccount>| -> (staged: Result<Vec<StagedWrite>, ValidationError>)
        requires
            well_bound(bound@, withdraw_roles()),
        ensures
            staged_as(staged, withdraw_mutation(bound@, amount)),
        { stage_withdraw(bound, amount) };
    match validate_and_execute(program_id, accounts, &roles, &rules, host, mutation) {
        Ok(_) => Ok(()),
        Err(reason) => Err(reason),
    }
}

} // verus!

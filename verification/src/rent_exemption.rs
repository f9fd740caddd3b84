//! User data setup and withdrawal: an account is set up only with a balance
//! that keeps it stored, and a withdrawal never takes it below that balance.
use crate::account::{AccountHandle, AccountView, HostContext};
use crate::address::Address;
use crate::arithmetic::{add_spec, checked_add};
use crate::codec::{
    lemma_address_from_bytes, lemma_bytes32_from_bytes, read_address, read_bytes32, read_u64,
    spec_address_from_bytes, spec_bytes32_from_bytes, write_address, write_bytes32, write_u64,
};
use crate::error::ValidationError;
use crate::pipeline::{delivers, execution_spec, staged_as, validate_and_execute, StagedWrite};
use crate::relationship::{ReferenceField, RelationshipRule, RuleView};
use crate::roles::{well_bound, BoundAccount, RecordRequirement, RoleSpec};
use crate::schema::{SchemaKind, TypedRecord};
use crate::viability::withdrawable_spec;
use vstd::bytes::{
    lemma_auto_spec_u64_to_from_le_bytes, spec_u64_from_le_bytes, spec_u64_to_le_bytes,
};
use vstd::prelude::*;
use vstd::slice::slice_subrange;

verus! {

/// The length in bytes of an encoded `UserData`, without its discriminant.
pub const USER_DATA_BYTES: usize = 72;

/// A user's data.
#[derive(Clone, Copy, Debug, PartialEq, Eq)]
pub struct UserData {
    /// The user the data belongs to.
    pub owner: Address,
    /// The funds recorded for the user.
    pub balance: u64,
    /// Free-form bytes.
    pub metadata: [u8; 32],
}

impl UserData {
    /// The encoded fields, one after the other in declaration order.
    pub open spec fn payload_spec(self) -> Seq<u8> {
        self.owner@ + spec_u64_to_le_bytes(self.balance) + self.metadata@
    }

    /// The record that `payload` encodes: none unless it is exactly 72 bytes long.
    pub open spec fn parse_spec(payload: Seq<u8>) -> Option<UserData> {
        if payload.len() != 72 {
            None
        } else {
            Some(
                UserData {
                    owner: spec_address_from_bytes(payload.subrange(0, 32)),
                    balance: spec_u64_from_le_bytes(payload.subrange(32, 40)),
                    metadata: spec_bytes32_from_bytes(payload.subrange(40, 72)),
                },
            )
        }
    }

    /// Decodes the fields from `payload`.
    pub fn parse(payload: &[u8]) -> (r: Option<UserData>)
        ensures
            r == Self::parse_spec(payload@),
    {
        if payload.len() != USER_DATA_BYTES {
            return None;
        }
        let owner = read_address(slice_subrange(payload, 0, 32));
        let balance = read_u64(slice_subrange(payload, 32, 40));
        let metadata = read_bytes32(slice_subrange(payload, 40, 72));
        match (owner, balance, metadata) {
            (Some(owner), Some(balance), Some(metadata)) => Some(
                UserData { owner, balance, metadata },
            ),
            _ => None,
        }
    }

    /// Appends the encoded fields to `out`.
    pub fn write_payload(&self, out: &mut Vec<u8>)
        ensures
            final(out)@ == old(out)@ + self.payload_spec(),
    {
        write_address(out, &self.owner);
        write_u64(out, self.balance);
        write_bytes32(out, &self.metadata);
        assert(out@ =~= old(out)@ + self.payload_spec());
    }

    /// Parsing the encoded fields gives the record back.
    pub proof fn lemma_round_trip(self)
        ensures
            self.payload_spec().len() == 72,
            Self::parse_spec(self.payload_spec()) == Some(self),
    {
        lemma_auto_spec_u64_to_from_le_bytes();
        let payload = self.payload_spec();
        lemma_address_from_bytes(self.owner);
        assert(payload.subrange(0, 32) =~= self.owner@);
        assert(payload.subrange(32, 40) =~= spec_u64_to_le_bytes(self.balance));
        lemma_bytes32_from_bytes(self.metadata);
        assert(payload.subrange(40, 72) =~= self.metadata@);
    }
}

/// Metadata of 32 zero bytes.
pub open spec fn empty_metadata() -> [u8; 32] {
    spec_bytes32_from_bytes(Seq::new(32, |i: int| 0u8))
}

/// The roles of `initialize`: the account to set up, and the user.
pub open spec fn initialize_roles() -> Seq<RoleSpec> {
    seq![
        RoleSpec {
            name: "user_data",
            program_owned: true,
            must_sign: false,
            record: RecordRequirement::Fresh,
        },
        RoleSpec {
            name: "user",
            program_owned: false,
            must_sign: true,
            record: RecordRequirement::Opaque,
        },
    ]
}

/// The roles of `withdraw_all`: the user's data, the user, the recipient.
pub open spec fn withdraw_roles() -> Seq<RoleSpec> {
    seq![
        RoleSpec {
            name: "user_data",
            program_owned: true,
            must_sign: false,
            record: RecordRequirement::Holds(SchemaKind::UserData),
        },
        RoleSpec {
            name: "user",
            program_owned: false,
            must_sign: true,
            record: RecordRequirement::Opaque,
        },
        RoleSpec {
            name: "recipient",
            program_owned: false,
            must_sign: false,
            record: RecordRequirement::Opaque,
        },
    ]
}

/// The rule of `withdraw_all`: the user is the owner the data names.
pub open spec fn withdraw_rules() -> Seq<RuleView> {
    seq![
        RuleView::StoredReference { subject_role: 0, field: ReferenceField::Owner, target_role: 1 },
    ]
}

/// What `initialize` stages: the data of the user, with no balance
/// recorded and empty metadata.
pub open spec fn initialize_mutation(bound: Seq<BoundAccount>) -> Result<
    Seq<StagedWrite>,
    ValidationError,
> {
    Ok(
        seq![
            StagedWrite {
                role: 0,
                lamport_balance: bound[0].lamport_balance,
                record: Some(
                    TypedRecord::UserData(
                        UserData {
                            owner: bound[1].address,
                            balance: 0,
                            metadata: empty_metadata(),
                        },
                    ),
                ),
            },
        ],
    )
}

/// What `initialize` comes to.
pub open spec fn initialize_spec(
    program: Address,
    accounts: Seq<AccountView>,
    host: HostContext,
) -> Result<Seq<AccountView>, ValidationError> {
    execution_spec(
        program,
        accounts,
        initialize_roles(),
        Seq::<RuleView>::empty(),
        host,
        |bound: Seq<BoundAccount>| initialize_mutation(bound),
    )
}

/// What `withdraw_all` stages: all that can leave the account while its
/// data stays stored goes to the recipient. `InsufficientFunds` where that
/// is nothing, `ArithmeticOverflow` where the recipient cannot hold the sum.
pub open spec fn withdraw_mutation(bound: Seq<BoundAccount>, host: HostContext) -> Result<
    Seq<StagedWrite>,
    ValidationError,
> {
    let withdrawable = withdrawable_spec(
        host.cost_model,
        bound[0].lamport_balance,
        bound[0].data_length as nat,
    );
    if withdrawable == 0 {
        Err(ValidationError::InsufficientFunds)
    } else {
        match add_spec(bound[2].lamport_balance, withdrawable) {
            Err(reason) => Err(reason),
            Ok(credited) => Ok(
                seq![
                    StagedWrite {
                        role: 0,
                        lamport_balance: (bound[0].lamport_balance - withdrawable) as u64,
                        record: None,
                    },
                    StagedWrite { role: 2, lamport_balance: credited, record: None },
                ],
            ),
        }
    }
}

/// What `withdraw_all` comes to.
pub open spec fn withdraw_spec(
    program: Address,
    accounts: Seq<AccountView>,
    host: HostContext,
) -> Result<Seq<AccountView>, ValidationError> {
    execution_spec(
        program,
        accounts,
        withdraw_roles(),
        withdraw_rules(),
        host,
        |bound: Seq<BoundAccount>| withdraw_mutation(bound, host),
    )
}

fn initialize_role_schema() -> (r: Vec<RoleSpec>)
    ensures
        r@ == initialize_roles(),
{
    let mut roles: Vec<RoleSpec> = Vec::new();
    roles.push(RoleSpec::fresh("user_data"));
    roles.push(RoleSpec::signer("user"));
    assert(roles@ =~= initialize_roles());
    roles
}

fn withdraw_role_schema() -> (r: Vec<RoleSpec>)
    ensures
        r@ == withdraw_roles(),
{
    let mut roles: Vec<RoleSpec> = Vec::new();
    roles.push(RoleSpec::holding("user_data", SchemaKind::UserData));
    roles.push(RoleSpec::signer("user"));
    roles.push(RoleSpec::plain("recipient"));
    assert(roles@ =~= withdraw_roles());
    roles
}

fn withdraw_rule_set() -> (r: Vec<RelationshipRule>)
    ensures
        r.deep_view() == withdraw_rules(),
{
    let mut rules: Vec<RelationshipRule> = Vec::new();
    rules.push(
        RelationshipRule::StoredReference {
            subject_role: 0,
            field: ReferenceField::Owner,
            target_role: 1,
        },
    );
    assert(rules.deep_view() =~= withdraw_rules());
    rules
}

fn stage_initialize(bound: Vec<BoundAccount>) -> (staged: Result<Vec<StagedWrite>, ValidationError>)
    requires
        well_bound(bound@, initialize_roles()),
    ensures
        staged_as(staged, initialize_mutation(bound@)),
{
    let metadata: [u8; 32] = [0u8; 32];
    proof {
        assert(metadata@ =~= Seq::new(32, |i: int| 0u8));
        lemma_bytes32_from_bytes(metadata);
    }
    let mut writes: Vec<StagedWrite> = Vec::new();
    writes.push(
        StagedWrite {
            role: 0,
            lamport_balance: bound[0].lamport_balance,
            record: Some(
                TypedRecord::UserData(UserData { owner: bound[1].address, balance: 0, metadata }),
            ),
        },
    );
    assert(writes@ =~= initialize_mutation(bound@)->Ok_0);
    Ok(writes)
}

fn stage_withdraw(bound: Vec<BoundAccount>, host: HostContext) -> (staged: Result<
    Vec<StagedWrite>,
    ValidationError,
>)
    requires
        well_bound(bound@, withdraw_roles()),
    ensures
        staged_as(staged, withdraw_mutation(bound@, host)),
{
    let withdrawable = host.cost_model.withdrawable(bound[0].lamport_balance, bound[0].data_length);
    if withdrawable == 0 {
        return Err(ValidationError::InsufficientFunds);
    }
    let credited = match checked_add(bound[2].lamport_balance, withdrawable) {
        Ok(sum) => sum,
        Err(reason) => {
            return Err(reason);
        },
    };
    let mut writes: Vec<StagedWrite> = Vec::new();
    writes.push(
        StagedWrite {
            role: 0,
            lamport_balance: bound[0].lamport_balance - withdrawable,
            record: None,
        },
    );
    writes.push(StagedWrite { role: 2, lamport_balance: credited, record: None });
    assert(writes@ =~= withdraw_mutation(bound@, host)->Ok_0);
    Ok(writes)
}

/// Sets up the data of the user who signed. The account is the
/// program's, is not initialized yet, and has the balance that keeps data of
/// its length stored: without it the operation is refused with
/// `NotStorageViable`. The instruction data is not read.
pub fn initialize(
    program_id: &Address,
    accounts: &mut Vec<AccountHandle>,
    _instruction_data: &[u8],
    host: &HostContext,
) -> (r: Result<(), ValidationError>)
    ensures
        delivers(
            initialize_spec(*program_id, old(accounts).deep_view(), *host),
            old(accounts).deep_view(),
            final(accounts).deep_view(),
            r,
        ),
{
    let roles = initialize_role_schema();
    let rules: Vec<RelationshipRule> = Vec::new();
    let mutation = |bound: Vec<BoundAccount>| -> (staged: Result<Vec<StagedWrite>, ValidationError>)
        requires
            well_bound(bound@, initialize_roles()),
        ensures
            staged_as(staged, initialize_mutation(bound@)),
        { stage_initialize(bound) };
    assert(rules.deep_view() =~= Seq::<RuleView>::empty());
    match validate_and_execute(program_id, accounts, &roles, &rules, host, mutation) {
        Ok(_) => Ok(()),
        Err(reason) => Err(reason),
    }
}

/// Withdraws to the recipient all that the user's data account can
/// spare: its balance less the minimum that keeps its data stored, never
/// the full balance. The user has signed and is the owner the data names.
/// The instruction data is not read.
pub fn withdraw_all(
    program_id: &Address,
    accounts: &mut Vec<AccountHandle>,
    _instruction_data: &[u8],
    host: &HostContext,
) -> (r: Result<(), ValidationError>)
    ensures
        delivers(
            withdraw_spec(*program_id, old(accounts).deep_view(), *host),
            old(accounts).deep_view(),
            final(accounts).deep_view(),
            r,
        ),
{
    let roles = withdraw_role_schema();
    let rules = withdraw_rule_set();
    let context = *host;
    let mutation = |bound: Vec<BoundAccount>| -> (staged: Result<Vec<StagedWrite>, ValidationError>)
        requires
            well_bound(bound@, withdraw_roles()),
        ensures
            staged_as(staged, withdraw_mutation(bound@, context)),
        { stage_withdraw(bound, context) };
    match validate_and_execute(program_id, accounts, &roles, &rules, host, mutation) {
        Ok(_) => Ok(()),
        Err(reason) => Err(reason),
    }
}

/// What the user data program comes to on instruction data: the first
/// byte selects the operation.
pub open spec fn process_instruction_spec(
    program: Address,
    accounts: Seq<AccountView>,
    instruction_data: Seq<u8>,
    host: HostContext,
) -> Result<Seq<AccountView>, ValidationError> {
    if instruction_data[0] == 0 {
        initialize_spec(program, accounts, host)
    } else if instruction_data[0] == 1 {
        withdraw_spec(program, accounts, host)
    } else {
        Err(ValidationError::InvalidInstruction)
    }
}

/// The entry point of the user data program: selector 0 initializes, 1
/// withdraws; any other selector is refused with `InvalidInstruction`.
pub fn process_instruction(
    program_id: &Address,
    accounts: &mut Vec<AccountHandle>,
    instruction_data: &[u8],
    host: &HostContext,
) -> (r: Result<(), ValidationError>)
    requires
        instruction_data@.len() >= 1,
    ensures
        delivers(
            process_instruction_spec(
                *program_id,
                old(accounts).deep_view(),
                instruction_data@,
                *host,
            ),
            old(accounts).deep_view(),
            final(accounts).deep_view(),
            r,
        ),
{
    let selector = instruction_data[0];
    let rest = slice_subrange(instruction_data, 1, instruction_data.len());
    if selector == 0 {
        initialize(program_id, accounts, rest, host)
    } else if selector == 1 {
        withdraw_all(program_id, accounts, rest, host)
    } else {
        Err(ValidationError::InvalidInstruction)
    }
}

} // verus!

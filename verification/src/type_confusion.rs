//! User withdrawal and admin action: two records of one layout, told apart by
//! their discriminants.
use crate::account::{AccountHandle, AccountView, HostContext};
use crate::address::Address;
use crate::arithmetic::{add_spec, checked_add};
use crate::codec::{
    lemma_address_from_bytes, read_address, read_u64, spec_address_from_bytes, write_address,
    write_u64,
};
use crate::error::ValidationError;
use crate::instruction::{amount_spec, arguments, arguments_spec, read_amount};
use crate::pipeline::{
    delivers, execution_spec, staged_as, validate, validate_and_execute, validation_spec,
    StagedWrite,
};
use crate::relationship::{ReferenceField, RelationshipRule, RuleView};
use crate::roles::{well_bound, BoundAccount, RecordRequirement, RoleSpec};
use crate::schema::{SchemaKind, TypedRecord};
use vstd::bytes::{
    lemma_auto_spec_u64_to_from_le_bytes, spec_u64_from_le_bytes, spec_u64_to_le_bytes,
};
use vstd::pervasive::unreached;
use vstd::prelude::*;
use vstd::slice::slice_subrange;

verus! {

/// The length in bytes of an encoded `UserAccount`, without its discriminant.
pub const USER_ACCOUNT_BYTES: usize = 48;

/// A user's account.
#[derive(Clone, Copy, Debug, PartialEq, Eq)]
pub struct UserAccount {
    /// The user the account belongs to.
    pub owner: Address,
    /// The funds of the account.
    pub balance: u64,
    /// The rewards the user has earned.
    pub rewards: u64,
}

impl UserAccount {
    /// The encoded fields, one after the other in declaration order.
    pub open spec fn payload_spec(self) -> Seq<u8> {
        self.owner@ + spec_u64_to_le_bytes(self.balance) + spec_u64_to_le_bytes(self.rewards)
    }

    /// The record that `payload` encodes: none unless it is exactly 48 bytes long.
    pub open spec fn parse_spec(payload: Seq<u8>) -> Option<UserAccount> {
        if payload.len() != 48 {
            None
        } else {
            Some(
                UserAccount {
                    owner: spec_address_from_bytes(payload.subrange(0, 32)),
                    balance: spec_u64_from_le_bytes(payload.subrange(32, 40)),
                    rewards: spec_u64_from_le_bytes(payload.subrange(40, 48)),
                },
            )
        }
    }

    /// Decodes the fields from `payload`.
    pub fn parse(payload: &[u8]) -> (r: Option<UserAccount>)
        ensures
            r == Self::parse_spec(payload@),
    {
        if payload.len() != USER_ACCOUNT_BYTES {
            return None;
        }
        let owner = read_address(slice_subrange(payload, 0, 32));
        let balance = read_u64(slice_subrange(payload, 32, 40));
        let rewards = read_u64(slice_subrange(payload, 40, 48));
        match (owner, balance, rewards) {
            (Some(owner), Some(balance), Some(rewards)) => Some(
                UserAccount { owner, balance, rewards },
            ),
            _ => None,
        }
    }

    /// Appends the encoded fields to `out`.
    pub fn write_payload(&self, out: &mut Vec<u8>)
        ensures
            final(out)@ == old(out)@ + self.payload_spec(),
    {
        write_address(out, &self.owner);
        write_u64(out, self.balance);
        write_u64(out, self.rewards);
        assert(out@ =~= old(out)@ + self.payload_spec());
    }

    /// Parsing the encoded fields gives the record back.
    pub proof fn lemma_round_trip(self)
        ensures
            self.payload_spec().len() == 48,
            Self::parse_spec(self.payload_spec()) == Some(self),
    {
        lemma_auto_spec_u64_to_from_le_bytes();
        let payload = self.payload_spec();
        lemma_address_from_bytes(self.owner);
        assert(payload.subrange(0, 32) =~= self.owner@);
        assert(payload.subrange(32, 40) =~= spec_u64_to_le_bytes(self.balance));
        assert(payload.subrange(40, 48) =~= spec_u64_to_le_bytes(self.rewards));
    }
}

/// The length in bytes of an encoded `AdminAccount`, without its discriminant.
pub const ADMIN_ACCOUNT_BYTES: usize = 48;

/// An administrator's account. Its layout is that of a `UserAccount`; its last field is not.
#[derive(Clone, Copy, Debug, PartialEq, Eq)]
pub struct AdminAccount {
    /// The administrator the account belongs to.
    pub owner: Address,
    /// The funds of the account.
    pub balance: u64,
    /// The level of administrative rights.
    pub admin_level: u64,
}

impl AdminAccount {
    /// The encoded fields, one after the other in declaration order.
    pub open spec fn payload_spec(self) -> Seq<u8> {
        self.owner@ + spec_u64_to_le_bytes(self.balance) + spec_u64_to_le_bytes(self.admin_level)
    }

    /// The record that `payload` encodes: none unless it is exactly 48 bytes long.
    pub open spec fn parse_spec(payload: Seq<u8>) -> Option<AdminAccount> {
        if payload.len() != 48 {
            None
        } else {
            Some(
                AdminAccount {
                    owner: spec_address_from_bytes(payload.subrange(0, 32)),
                    balance: spec_u64_from_le_bytes(payload.subrange(32, 40)),
                    admin_level: spec_u64_from_le_bytes(payload.subrange(40, 48)),
                },
            )
        }
    }

    /// Decodes the fields from `payload`.
    pub fn parse(payload: &[u8]) -> (r: Option<AdminAccount>)
        ensures
            r == Self::parse_spec(payload@),
    {
        if payload.len() != ADMIN_ACCOUNT_BYTES {
            return None;
        }
        let owner = read_address(slice_subrange(payload, 0, 32));
        let balance = read_u64(slice_subrange(payload, 32, 40));
        let admin_level = read_u64(slice_subrange(payload, 40, 48));
        match (owner, balance, admin_level) {
            (Some(owner), Some(balance), Some(admin_level)) => Some(
                AdminAccount { owner, balance, admin_level },
            ),
            _ => None,
        }
    }

    /// Appends the encoded fields to `out`.
    pub fn write_payload(&self, out: &mut Vec<u8>)
        ensures
            final(out)@ == old(out)@ + self.payload_spec(),
    {
        write_address(out, &self.owner);
        write_u64(out, self.balance);
        write_u64(out, self.admin_level);
        assert(out@ =~= old(out)@ + self.payload_spec());
    }

    /// Parsing the encoded fields gives the record back.
    pub proof fn lemma_round_trip(self)
        ensures
            self.payload_spec().len() == 48,
            Self::parse_spec(self.payload_spec()) == Some(self),
    {
        lemma_auto_spec_u64_to_from_le_bytes();
        let payload = self.payload_spec();
        lemma_address_from_bytes(self.owner);
        assert(payload.subrange(0, 32) =~= self.owner@);
        assert(payload.subrange(32, 40) =~= spec_u64_to_le_bytes(self.balance));
        assert(payload.subrange(40, 48) =~= spec_u64_to_le_bytes(self.admin_level));
    }
}

/// The lowest level of administrative rights that an admin action asks for.
pub const REQUIRED_ADMIN_LEVEL: u64 = 5;

/// The roles of `withdraw_user`: the user's account, and its owner.
pub open spec fn withdraw_roles() -> Seq<RoleSpec> {
    seq![
        RoleSpec {
            name: "user_account",
            program_owned: true,
            must_sign: false,
            record: RecordRequirement::Holds(SchemaKind::UserAccount),
        },
        RoleSpec {
            name: "owner",
            program_owned: false,
            must_sign: true,
            record: RecordRequirement::Opaque,
        },
    ]
}

/// The roles of `admin_action`: the administrator's account, and the
/// administrator.
pub open spec fn admin_roles() -> Seq<RoleSpec> {
    seq![
        RoleSpec {
            name: "admin_account",
            program_owned: true,
            must_sign: false,
            record: RecordRequirement::Holds(SchemaKind::AdminAccount),
        },
        RoleSpec {
            name: "admin_signer",
            program_owned: false,
            must_sign: true,
            record: RecordRequirement::Opaque,
        },
    ]
}

/// The rule of both operations: the signer is the owner the record names.
pub open spec fn owner_rules() -> Seq<RuleView> {
    seq![
        RuleView::StoredReference { subject_role: 0, field: ReferenceField::Owner, target_role: 1 },
    ]
}

/// What `withdraw_user` stages: `ArithmeticOverflow` where balance and
/// rewards together leave the domain, `InsufficientFunds` where together
/// they are less than the amount; else the balance less the amount,
/// saturating at zero.
pub open spec fn withdraw_mutation(bound: Seq<BoundAccount>, amount: u64) -> Result<
    Seq<StagedWrite>,
    ValidationError,
> {
    let user = bound[0].record->0->UserAccount_0;
    match add_spec(user.balance, user.rewards) {
        Err(reason) => Err(reason),
        Ok(available) => if available < amount {
            Err(ValidationError::InsufficientFunds)
        } else {
            Ok(
                seq![
                    StagedWrite {
                        role: 0,
                        lamport_balance: bound[0].lamport_balance,
                        record: Some(
                            TypedRecord::UserAccount(
                                UserAccount {
                                    balance: if user.balance >= amount {
                                        (user.balance - amount) as u64
                                    } else {
                                        0
                                    },
                                    ..user
                                },
                            ),
                        ),
                    },
                ],
            )
        },
    }
}

/// What `withdraw_user` comes to.
pub open spec fn withdraw_spec(
    program: Address,
    accounts: Seq<AccountView>,
    instruction_data: Seq<u8>,
    host: HostContext,
) -> Result<Seq<AccountView>, ValidationError> {
    execution_spec(
        program,
        accounts,
        withdraw_roles(),
        owner_rules(),
        host,
        |bound: Seq<BoundAccount>| withdraw_mutation(bound, amount_spec(instruction_data)),
    )
}

/// What `admin_action` returns: the first failure of its checks, else
/// `InsufficientPrivilege` where the administrator's level is below the
/// required one, else `Ok`.
pub open spec fn admin_spec(
    program: Address,
    accounts: Seq<AccountView>,
    host: HostContext,
) -> Result<(), ValidationError> {
    match validation_spec(program, accounts, admin_roles(), owner_rules(), host) {
        Err(reason) => Err(reason),
        Ok(bound) => if bound[0].record->0->AdminAccount_0.admin_level < REQUIRED_ADMIN_LEVEL {
            Err(ValidationError::InsufficientPrivilege)
        } else {
            Ok(())
        },
    }
}

fn withdraw_role_schema() -> (r: Vec<RoleSpec>)
    ensures
        r@ == withdraw_roles(),
{
    let mut roles: Vec<RoleSpec> = Vec::new();
    roles.push(RoleSpec::holding("user_account", SchemaKind::UserAccount));
    roles.push(RoleSpec::signer("owner"));
    assert(roles@ =~= withdraw_roles());
    roles
}

fn admin_role_schema() -> (r: Vec<RoleSpec>)
    ensures
        r@ == admin_roles(),
{
    let mut roles: Vec<RoleSpec> = Vec::new();
    roles.push(RoleSpec::holding("admin_account", SchemaKind::AdminAccount));
    roles.push(RoleSpec::signer("admin_signer"));
    assert(roles@ =~= admin_roles());
    roles
}

fn owner_rule_set() -> (r: Vec<RelationshipRule>)
    ensures
        r.deep_view() == owner_rules(),
{
    let mut rules: Vec<RelationshipRule> = Vec::new();
    rules.push(
        RelationshipRule::StoredReference {
            subject_role: 0,
            field: ReferenceField::Owner,
            target_role: 1,
        },
    );
    assert(rules.deep_view() =~= owner_rules());
    rules
}

fn stage_withdraw(bound: Vec<BoundAccount>, amount: u64) -> (staged: Result<
    Vec<StagedWrite>,
    ValidationError,
>)
    requires
        well_bound(bound@, withdraw_roles()),
    ensures
        staged_as(staged, withdraw_mutation(bound@, amount)),
{
    assert(withdraw_roles()[0].record == RecordRequirement::Holds(SchemaKind::UserAccount));
    let user = match bound[0].record {
        Some(TypedRecord::UserAccount(user)) => user,
        _ => unreached(),
    };
    let available = match checked_add(user.balance, user.rewards) {
        Ok(sum) => sum,
        Err(reason) => {
            return Err(reason);
        },
    };
    if available < amount {
        return Err(ValidationError::InsufficientFunds);
    }
    let balance = if user.balance >= amount {
        user.balance - amount
    } else {
        0
    };
    let mut writes: Vec<StagedWrite> = Vec::new();
    writes.push(
        StagedWrite {
            role: 0,
            lamport_balance: bound[0].lamport_balance,
            record: Some(
                TypedRecord::UserAccount(
                    UserAccount { owner: user.owner, balance, rewards: user.rewards },
                ),
            ),
        },
    );
    assert(writes@ =~= withdraw_mutation(bound@, amount)->Ok_0);
    Ok(writes)
}

/// Withdraws the amount that leads the instruction data from a user's
/// recorded balance. The account is read as a user account only where its
/// discriminant says it is one: an administrator's account, whose layout is
/// the same, is refused with `SchemaMismatch`. The owner has signed and is
/// the one the record names.
pub fn withdraw_user(
    program_id: &Address,
    accounts: &mut Vec<AccountHandle>,
    instruction_data: &[u8],
    host: &HostContext,
) -> (r: Result<(), ValidationError>)
    requires
        instruction_data@.len() >= 8,
    ensures
        delivers(
            withdraw_spec(*program_id, old(accounts).deep_view(), instruction_data@, *host),
            old(accounts).deep_view(),
            final(accounts).deep_view(),
            r,
        ),
{
    let amount = read_amount(instruction_data);
    let roles = withdraw_role_schema();
    let rules = owner_rule_set();
    let mutation = |bound: Vec<BoundAccount>| -> (staged: Result<Vec<StagedWrite>, ValidationError>)
        requires
            well_bound(bound@, withdraw_roles()),
        ensures
            staged_as(staged, withdraw_mutation(bound@, amount)),
        { stage_withdraw(bound, amount) };
    match validate_and_execute(program_id, accounts, &roles, &rules, host, mutation) {
        Ok(_) => Ok(()),
        Err(reason) => Err(reason),
    }
}

/// Clears an action that asks for administrative rights. The account is
/// read as an administrator's account only where its discriminant says it
/// is one; the administrator has signed and is the owner the record names;
/// the level recorded is at least the required one. Nothing is written, and
/// the instruction data is not read.
pub fn admin_action(
    program_id: &Address,
    accounts: &Vec<AccountHandle>,
    _instruction_data: &[u8],
    host: &HostContext,
) -> (r: Result<(), ValidationError>)
    ensures
        r == admin_spec(*program_id, accounts.deep_view(), *host),
{
    let roles = admin_role_schema();
    let rules = owner_rule_set();
    let bound = match validate(program_id, accounts, &roles, &rules, host) {
        Ok(bound) => bound,
        Err(reason) => {
            return Err(reason);
        },
    };
    proof {
        crate::pipeline::lemma_validated_is_well_bound(
            *program_id,
            accounts.deep_view(),
            roles@,
            rules.deep_view(),
            *host,
        );
        assert(roles@[0].record == RecordRequirement::Holds(SchemaKind::AdminAccount));
    }
    let admin = match bound[0].record {
        Some(TypedRecord::AdminAccount(admin)) => admin,
        _ => unreached(),
    };
    if admin.admin_level < REQUIRED_ADMIN_LEVEL {
        Err(ValidationError::InsufficientPrivilege)
    } else {
        Ok(())
    }
}

/// What the account program comes to on instruction data: the first
/// byte selects the operation, the rest are its arguments.
pub open spec fn process_instruction_spec(
    program: Address,
    before: Seq<AccountView>,
    instruction_data: Seq<u8>,
    host: HostContext,
    after: Seq<AccountView>,
    result: Result<(), ValidationError>,
) -> bool {
    if instruction_data[0] == 0 {
        delivers(
            withdraw_spec(program, before, arguments_spec(instruction_data), host),
            before,
            after,
            result,
        )
    } else if instruction_data[0] == 1 {
        after == before && result == admin_spec(program, before, host)
    } else {
        after == before && result == Err::<(), ValidationError>(
            ValidationError::InvalidInstruction,
        )
    }
}

/// The entry point of the account program: selector 0 withdraws for a
/// user, 1 clears an admin action; any other selector is refused with
/// `InvalidInstruction`.
pub fn process_instruction(
    program_id: &Address,
    accounts: &mut Vec<AccountHandle>,
    instruction_data: &[u8],
    host: &HostContext,
) -> (r: Result<(), ValidationError>)
    requires
        instruction_data@.len() >= 1,
        instruction_data@[0] == 0 ==> instruction_data@.len() >= 9,
    ensures
        process_instruction_spec(
            *program_id,
            old(accounts).deep_view(),
            instruction_data@,
            *host,
            final(accounts).deep_view(),
            r,
        ),
{
    let selector = instruction_data[0];
    let rest = arguments(instruction_data);
    if selector == 0 {
        withdraw_user(program_id, accounts, rest, host)
    } else if selector == 1 {
        admin_action(program_id, accounts, rest, host)
    } else {
        Err(ValidationError::InvalidInstruction)
    }
}

} // verus!

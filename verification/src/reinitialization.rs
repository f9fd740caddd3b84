//! Vault setup and deposit: a vault is initialized once, and never again.
use crate::account::{AccountHandle, AccountView, HostContext};
use crate::address::Address;
use crate::arithmetic::{add_spec, checked_add, checked_sub, sub_spec};
use crate::codec::{
    lemma_address_from_bytes, read_address, read_u64, read_u8, spec_address_from_bytes,
    write_address, write_u64, write_u8,
};
use crate::error::ValidationError;
use crate::instruction::{amount_spec, arguments, arguments_spec, read_amount};
use crate::pipeline::{
    delivers, execution_spec, staged_as, validate_and_execute, validation_spec, StagedWrite,
};
use crate::relationship::{RelationshipRule, RuleView};
use crate::roles::{well_bound, BoundAccount, RecordRequirement, RoleSpec};
use crate::schema::{SchemaKind, TypedRecord};
use vstd::bytes::{
    lemma_auto_spec_u64_to_from_le_bytes, spec_u64_from_le_bytes, spec_u64_to_le_bytes,
};
use vstd::pervasive::unreached;
use vstd::prelude::*;
use vstd::slice::slice_subrange;

verus! {

/// The length in bytes of an encoded `VaultConfig`, without its discriminant.
pub const VAULT_CONFIG_BYTES: usize = 41;

/// The configuration of a vault.
#[derive(Clone, Copy, Debug, PartialEq, Eq)]
pub struct VaultConfig {
    /// The address that governs the vault.
    pub authority: Address,
    /// The sum of all deposits.
    pub total_deposited: u64,
    /// The fee the vault takes, in percent.
    pub fee_percentage: u8,
}

impl VaultConfig {
    /// The encoded fields, one after the other in declaration order.
    pub open spec fn payload_spec(self) -> Seq<u8> {
        self.authority@ + spec_u64_to_le_bytes(self.total_deposited) + seq![self.fee_percentage]
    }

    /// The record that `payload` encodes: none unless it is exactly 41 bytes long.
    pub open spec fn parse_spec(payload: Seq<u8>) -> Option<VaultConfig> {
        if payload.len() != 41 {
            None
        } else {
            Some(
                VaultConfig {
                    authority: spec_address_from_bytes(payload.subrange(0, 32)),
                    total_deposited: spec_u64_from_le_bytes(payload.subrange(32, 40)),
                    fee_percentage: payload[40],
                },
            )
        }
    }

    /// Decodes the fields from `payload`.
    pub fn parse(payload: &[u8]) -> (r: Option<VaultConfig>)
        ensures
            r == Self::parse_spec(payload@),
    {
        if payload.len() != VAULT_CONFIG_BYTES {
            return None;
        }
        let authority = read_address(slice_subrange(payload, 0, 32));
        let total_deposited = read_u64(slice_subrange(payload, 32, 40));
        let fee_percentage = read_u8(slice_subrange(payload, 40, 41));
        match (authority, total_deposited, fee_percentage) {
            (Some(authority), Some(total_deposited), Some(fee_percentage)) => Some(
                VaultConfig { authority, total_deposited, fee_percentage },
            ),
            _ => None,
        }
    }

    /// Appends the encoded fields to `out`.
    pub fn write_payload(&self, out: &mut Vec<u8>)
        ensures
            final(out)@ == old(out)@ + self.payload_spec(),
    {
        write_address(out, &self.authority);
        write_u64(out, self.total_deposited);
        write_u8(out, self.fee_percentage);
        assert(out@ =~= old(out)@ + self.payload_spec());
    }

    /// Parsing the encoded fields gives the record back.
    pub proof fn lemma_round_trip(self)
        ensures
            self.payload_spec().len() == 41,
            Self::parse_spec(self.payload_spec()) == Some(self),
    {
        lemma_auto_spec_u64_to_from_le_bytes();
        let payload = self.payload_spec();
        lemma_address_from_bytes(self.authority);
        assert(payload.subrange(0, 32) =~= self.authority@);
        assert(payload.subrange(32, 40) =~= spec_u64_to_le_bytes(self.total_deposited));
    }
}

/// The roles of `initialize`: the vault to set up, and the authority.
pub open spec fn initialize_roles() -> Seq<RoleSpec> {
    seq![
        RoleSpec {
            name: "vault",
            program_owned: true,
            must_sign: false,
            record: RecordRequirement::Fresh,
        },
        RoleSpec {
            name: "authority",
            program_owned: false,
            must_sign: true,
            record: RecordRequirement::Opaque,
        },
    ]
}

/// The roles of `deposit`: the vault, and the user who pays.
pub open spec fn deposit_roles() -> Seq<RoleSpec> {
    seq![
        RoleSpec {
            name: "vault",
            program_owned: true,
            must_sign: false,
            record: RecordRequirement::Holds(SchemaKind::VaultConfig),
        },
        RoleSpec {
            name: "user",
            program_owned: false,
            must_sign: true,
            record: RecordRequirement::Opaque,
        },
    ]
}

/// What `initialize` stages: the configuration of an empty vault that
/// the authority governs, with the given fee. The record is written with
/// its discriminant, which marks the vault initialized in the same write.
pub open spec fn initialize_mutation(bound: Seq<BoundAccount>, fee_percentage: u8) -> Result<
    Seq<StagedWrite>,
    ValidationError,
> {
    Ok(
        seq![
            StagedWrite {
                role: 0,
                lamport_balance: bound[0].lamport_balance,
                record: Some(
                    TypedRecord::VaultConfig(
                        VaultConfig {
                            authority: bound[1].address,
                            total_deposited: 0,
                            fee_percentage,
                        },
                    ),
                ),
            },
        ],
    )
}

/// What `initialize` comes to.
pub open spec fn initialize_spec(
    program: Address,
    accounts: Seq<AccountView>,
    instruction_data: Seq<u8>,
    host: HostContext,
) -> Result<Seq<AccountView>, ValidationError> {
    execution_spec(
        program,
        accounts,
        initialize_roles(),
        Seq::<RuleView>::empty(),
        host,
        |bound: Seq<BoundAccount>| initialize_mutation(bound, instruction_data[0]),
    )
}

/// What `deposit` stages: the amount is added to the vault's total and
/// leaves the user's account for the vault's. `ArithmeticOverflow` where the
/// total or the vault's balance leaves the domain, `ArithmeticUnderflow`
/// where the user holds less than the amount.
pub open spec fn deposit_mutation(bound: Seq<BoundAccount>, amount: u64) -> Result<
    Seq<StagedWrite>,
    ValidationError,
> {
    let vault = bound[0].record->0->VaultConfig_0;
    match add_spec(vault.total_deposited, amount) {
        Err(reason) => Err(reason),
        Ok(total_deposited) => match sub_spec(bound[1].lamport_balance, amount) {
            Err(reason) => Err(reason),
            Ok(remaining) => match add_spec(bound[0].lamport_balance, amount) {
                Err(reason) => Err(reason),
                Ok(credited) => Ok(
                    seq![
                        StagedWrite {
                            role: 0,
                            lamport_balance: credited,
                            record: Some(
                                TypedRecord::VaultConfig(VaultConfig { total_deposited, ..vault }),
                            ),
                        },
                        StagedWrite { role: 1, lamport_balance: remaining, record: None },
                    ],
                ),
            },
        },
    }
}

/// What `deposit` comes to.
pub open spec fn deposit_spec(
    program: Address,
    accounts: Seq<AccountView>,
    instruction_data: Seq<u8>,
    host: HostContext,
) -> Result<Seq<AccountView>, ValidationError> {
    execution_spec(
        program,
        accounts,
        deposit_roles(),
        Seq::<RuleView>::empty(),
        host,
        |bound: Seq<BoundAccount>| deposit_mutation(bound, amount_spec(instruction_data)),
    )
}

fn initialize_role_schema() -> (r: Vec<RoleSpec>)
    ensures
        r@ == initialize_roles(),
{
    let mut roles: Vec<RoleSpec> = Vec::new();
    roles.push(RoleSpec::fresh("vault"));
    roles.push(RoleSpec::signer("authority"));
    assert(roles@ =~= initialize_roles());
    roles
}

fn deposit_role_schema() -> (r: Vec<RoleSpec>)
    ensures
        r@ == deposit_roles(),
{
    let mut roles: Vec<RoleSpec> = Vec::new();
    roles.push(RoleSpec::holding("vault", SchemaKind::VaultConfig));
    roles.push(RoleSpec::signer("user"));
    assert(roles@ =~= deposit_roles());
    roles
}

fn stage_initialize(bound: Vec<BoundAccount>, fee_percentage: u8) -> (staged: Result<
    Vec<StagedWrite>,
    ValidationError,
>)
    requires
        well_bound(bound@, initialize_roles()),
    ensures
        staged_as(staged, initialize_mutation(bound@, fee_percentage)),
{
    let mut writes: Vec<StagedWrite> = Vec::new();
    writes.push(
        StagedWrite {
            role: 0,
            lamport_balance: bound[0].lamport_balance,
            record: Some(
                TypedRecord::VaultConfig(
                    VaultConfig { authority: bound[1].address, total_deposited: 0, fee_percentage },
                ),
            ),
        },
    );
    assert(writes@ =~= initialize_mutation(bound@, fee_percentage)->Ok_0);
    Ok(writes)
}

fn stage_deposit(bound: Vec<BoundAccount>, amount: u64) -> (staged: Result<
    Vec<StagedWrite>,
    ValidationError,
>)
    requires
        well_bound(bound@, deposit_roles()),
    ensures
        staged_as(staged, deposit_mutation(bound@, amount)),
{
    assert(deposit_roles()[0].record == RecordRequirement::Holds(SchemaKind::VaultConfig));
    let vault = match bound[0].record {
        Some(TypedRecord::VaultConfig(vault)) => vault,
        _ => unreached(),
    };
    let total_deposited = match checked_add(vault.total_deposited, amount) {
        Ok(sum) => sum,
        Err(reason) => {
            return Err(reason);
        },
    };
    let remaining = match checked_sub(bound[1].lamport_balance, amount) {
        Ok(difference) => difference,
        Err(reason) => {
            return Err(reason);
        },
    };
    let credited = match checked_add(bound[0].lamport_balance, amount) {
        Ok(sum) => sum,
        Err(reason) => {
            return Err(reason);
        },
    };
    let mut writes: Vec<StagedWrite> = Vec::new();
    writes.push(
        StagedWrite {
            role: 0,
            lamport_balance: credited,
            record: Some(
                TypedRecord::VaultConfig(
                    VaultConfig {
                        authority: vault.authority,
                        total_deposited,
                        fee_percentage: vault.fee_percentage,
                    },
                ),
            ),
        },
    );
    writes.push(StagedWrite { role: 1, lamport_balance: remaining, record: None });
    assert(writes@ =~= deposit_mutation(bound@, amount)->Ok_0);
    Ok(writes)
}

/// Sets up a vault under the authority that signed, with the fee in the
/// first byte of the instruction data. The vault account is the program's,
/// is not initialized yet, and has the balance that keeps it stored. A vault
/// that is initialized already is refused with `AlreadyInitialized`, and
/// keeps its authority and its total.
pub fn initialize(
    program_id: &Address,
    accounts: &mut Vec<AccountHandle>,
    instruction_data: &[u8],
    host: &HostContext,
) -> (r: Result<(), ValidationError>)
    requires
        instruction_data@.len() >= 1,
    ensures
        delivers(
            initialize_spec(*program_id, old(accounts).deep_view(), instruction_data@, *host),
            old(accounts).deep_view(),
            final(accounts).deep_view(),
            r,
        ),
{
    let fee_percentage = instruction_data[0];
    let roles = initialize_role_schema();
    let rules: Vec<RelationshipRule> = Vec::new();
    let mutation = |bound: Vec<BoundAccount>| -> (staged: Result<Vec<StagedWrite>, ValidationError>)
        requires
            well_bound(bound@, initialize_roles()),
        ensures
            staged_as(staged, initialize_mutation(bound@, fee_percentage)),
        { stage_initialize(bound, fee_percentage) };
    assert(rules.deep_view() =~= Seq::<RuleView>::empty());
    match validate_and_execute(program_id, accounts, &roles, &rules, host, mutation) {
        Ok(_) => Ok(()),
        Err(reason) => Err(reason),
    }
}

/// Deposits the amount that leads the instruction data from the user,
/// who has signed, into an initialized vault.
pub fn deposit(
    program_id: &Address,
    accounts: &mut Vec<AccountHandle>,
    instruction_data: &[u8],
    host: &HostContext,
) -> (r: Result<(), ValidationError>)
    requires
        instruction_data@.len() >= 8,
    ensures
        delivers(
            deposit_spec(*program_id, old(accounts).deep_view(), instruction_data@, *host),
            old(accounts).deep_view(),
            final(accounts).deep_view(),
            r,
        ),
{
    let amount = read_amount(instruction_data);
    let roles = deposit_role_schema();
    let rules: Vec<RelationshipRule> = Vec::new();
    let mutation = |bound: Vec<BoundAccount>| -> (staged: Result<Vec<StagedWrite>, ValidationError>)
        requires
            well_bound(bound@, deposit_roles()),
        ensures
            staged_as(staged, deposit_mutation(bound@, amount)),
        { stage_deposit(bound, amount) };
    assert(rules.deep_view() =~= Seq::<RuleView>::empty());
    match validate_and_execute(program_id, accounts, &roles, &rules, host, mutation) {
        Ok(_) => Ok(()),
        Err(reason) => Err(reason),
    }
}

/// What the vault program comes to on instruction data: the first byte
/// selects the operation, the rest are its arguments.
pub open spec fn process_instruction_spec(
    program: Address,
    accounts: Seq<AccountView>,
    instruction_data: Seq<u8>,
    host: HostContext,
) -> Result<Seq<AccountView>, ValidationError> {
    if instruction_data[0] == 0 {
        initialize_spec(program, accounts, arguments_spec(instruction_data), host)
    } else if instruction_data[0] == 1 {
        deposit_spec(program, accounts, arguments_spec(instruction_data), host)
    } else {
        Err(ValidationError::InvalidInstruction)
    }
}

/// The entry point of the vault program: selector 0 initializes, 1
/// deposits; any other selector is refused with `InvalidInstruction`.
pub fn process_instruction(
    program_id: &Address,
    accounts: &mut Vec<AccountHandle>,
    instruction_data: &[u8],
    host: &HostContext,
) -> (r: Result<(), ValidationError>)
    requires
        instruction_data@.len() >= 1,
        instruction_data@[0] == 0 ==> instruction_data@.len() >= 2,
        instruction_data@[0] == 1 ==> instruction_data@.len() >= 9,
    ensures
        delivers(
            process_instruction_spec(
                *program_id,
                old(accounts).deep_view(),
                instruction_data@,
                *host,
            ),
            old(accounts).deep_view(),
            final(accounts).deep_view(),
            r,
        ),
{
    let selector = instruction_data[0];
    let rest = arguments(instruction_data);
    if selector == 0 {
        initialize(program_id, accounts, rest, host)
    } else if selector == 1 {
        deposit(program_id, accounts, rest, host)
    } else {
        Err(ValidationError::InvalidInstruction)
    }
}

/// A vault is initialized once. After an `initialize` that succeeded,
/// the vault holds the configuration that names the authority of that call,
/// and every further `initialize` on the vault, by whatever program, with
/// whatever other accounts, instruction data and host facts, fails and so
/// leaves the vault as it is; where enough accounts are supplied and
/// ownership and signatures pass, it fails with `AlreadyInitialized`.
pub proof fn lemma_initialize_once(
    program: Address,
    accounts: Seq<AccountView>,
    instruction_data: Seq<u8>,
    host: HostContext,
    after: Seq<AccountView>,
    later_program: Address,
    later_accounts: Seq<AccountView>,
    later_data: Seq<u8>,
    later_host: HostContext,
)
    requires
        initialize_spec(program, accounts, instruction_data, host) == Ok::<
            Seq<AccountView>,
            ValidationError,
        >(after),
        later_accounts.len() > 0 ==> later_accounts[0] == after[0],
    ensures
        crate::schema::decode_spec(after[0].data, SchemaKind::VaultConfig) == Ok::<
            TypedRecord,
            ValidationError,
        >(
            TypedRecord::VaultConfig(
                VaultConfig {
                    authority: accounts[1].address,
                    total_deposited: 0,
                    fee_percentage: instruction_data[0],
                },
            ),
        ),
        initialize_spec(later_program, later_accounts, later_data, later_host) is Err,
        later_accounts.len() >= 2 && later_accounts[0].controlling_program == later_program
            && later_accounts[1].is_signer ==> initialize_spec(
            later_program,
            later_accounts,
            later_data,
            later_host,
        ) == Err::<Seq<AccountView>, ValidationError>(ValidationError::AlreadyInitialized),
{
    let roles = initialize_roles();
    let rules = Seq::<RuleView>::empty();
    let bound = crate::roles::bound_accounts_spec(accounts, roles);
    let record = TypedRecord::VaultConfig(
        VaultConfig {
            authority: accounts[1].address,
            total_deposited: 0,
            fee_percentage: instruction_data[0],
        },
    );
    let writes = initialize_mutation(bound, instruction_data[0])->Ok_0;
    assert(crate::pipeline::validation_spec(program, accounts, roles, rules, host) is Ok);
    assert(accounts.len() >= 2);
    assert(writes.len() == 1);
    assert(writes[0].record == Some(record));
    reveal_with_fuel(crate::pipeline::commit_from, 3);
    assert(after == crate::pipeline::apply_write(accounts, writes[0]));
    assert(after[0].data == record.encode_spec());
    crate::schema::lemma_decode_encode(record);
    crate::schema::lemma_encoded_discriminant(record);
    if later_accounts.len() >= 2 {
        let lifecycle = crate::pipeline::phase_verdicts(
            crate::pipeline::RolePhase::Lifecycle,
            later_program,
            later_accounts,
            roles,
            later_host,
        );
        assert(lifecycle[0] == crate::error::ValidationVerdict::Fail(
            ValidationError::AlreadyInitialized,
        ));
        if later_accounts[0].controlling_program == later_program && later_accounts[1].is_signer {
            let ownership = crate::pipeline::phase_verdicts(
                crate::pipeline::RolePhase::Ownership,
                later_program,
                later_accounts,
                roles,
                later_host,
            );
            let signature = crate::pipeline::phase_verdicts(
                crate::pipeline::RolePhase::Signature,
                later_program,
                later_accounts,
                roles,
                later_host,
            );
            reveal_with_fuel(crate::pipeline::first_failure, 4);
            assert(ownership[0] is Pass && ownership[1] is Pass);
            assert(signature[0] is Pass && signature[1] is Pass);
        }
    }
}

} // verus!

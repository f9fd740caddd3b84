//! Escrow release and token withdrawal: operations over records that refer to
//! other accounts by stored address, each reference held against the account
//! that was actually supplied.
use crate::account::{AccountHandle, AccountView, HostContext};
use crate::address::Address;
use crate::arithmetic::{add_spec, checked_add, checked_sub, elapsed, elapsed_spec, sub_spec};
use crate::codec::{
    lemma_address_from_bytes, lemma_i64_round_trip, read_address, read_i64, read_u64,
    spec_address_from_bytes, spec_i64_from_le_bytes, spec_i64_to_le_bytes, write_address, write_i64,
    write_u64,
};
use crate::error::ValidationError;
use crate::pipeline::{
    delivers, execution_spec, staged_as, validate, validate_and_execute, validation_spec,
    StagedWrite,
};
use crate::relationship::{ReferenceField, RelationshipRule, RuleView};
use crate::roles::{well_bound, BoundAccount, RecordRequirement, RoleSpec};
use crate::schema::{SchemaKind, TypedRecord};
use vstd::bytes::{
    lemma_auto_spec_u64_to_from_le_bytes, spec_u64_from_le_bytes, spec_u64_to_le_bytes,
};
use vstd::pervasive::unreached;
use vstd::prelude::*;
use vstd::slice::slice_subrange;

verus! {

/// The length in bytes of an encoded `UserProfile`, without its discriminant.
pub const USER_PROFILE_BYTES: usize = 72;

/// A user's profile: who may act for it and which escrow account belongs to it.
#[derive(Clone, Copy, Debug, PartialEq, Eq)]
pub struct UserProfile {
    /// The address that may act for the profile.
    pub owner: Address,
    /// The address of the profile's escrow account.
    pub escrow_account: Address,
    /// The sum of what the user has deposited.
    pub total_deposits: u64,
}

impl UserProfile {
    /// The encoded fields, one after the other in declaration order.
    pub open spec fn payload_spec(self) -> Seq<u8> {
        self.owner@ + self.escrow_account@ + spec_u64_to_le_bytes(self.total_deposits)
    }

    /// The record that `payload` encodes: none unless it is exactly 72 bytes long.
    pub open spec fn parse_spec(payload: Seq<u8>) -> Option<UserProfile> {
        if payload.len() != 72 {
            None
        } else {
            Some(
                UserProfile {
                    owner: spec_address_from_bytes(payload.subrange(0, 32)),
                    escrow_account: spec_address_from_bytes(payload.subrange(32, 64)),
                    total_deposits: spec_u64_from_le_bytes(payload.subrange(64, 72)),
                },
            )
        }
    }

    /// Decodes the fields from `payload`.
    pub fn parse(payload: &[u8]) -> (r: Option<UserProfile>)
        ensures
            r == Self::parse_spec(payload@),
    {
        if payload.len() != USER_PROFILE_BYTES {
            return None;
        }
        let owner = read_address(slice_subrange(payload, 0, 32));
        let escrow_account = read_address(slice_subrange(payload, 32, 64));
        let total_deposits = read_u64(slice_subrange(payload, 64, 72));
        match (owner, escrow_account, total_deposits) {
            (Some(owner), Some(escrow_account), Some(total_deposits)) => Some(
                UserProfile { owner, escrow_account, total_deposits },
            ),
            _ => None,
        }
    }

    /// Appends the encoded fields to `out`.
    pub fn write_payload(&self, out: &mut Vec<u8>)
        ensures
            final(out)@ == old(out)@ + self.payload_spec(),
    {
        write_address(out, &self.owner);
        write_address(out, &self.escrow_account);
        write_u64(out, self.total_deposits);
        assert(out@ =~= old(out)@ + self.payload_spec());
    }

    /// Parsing the encoded fields gives the record back.
    pub proof fn lemma_round_trip(self)
        ensures
            self.payload_spec().len() == 72,
            Self::parse_spec(self.payload_spec()) == Some(self),
    {
        lemma_auto_spec_u64_to_from_le_bytes();
        let payload = self.payload_spec();
        lemma_address_from_bytes(self.owner);
        assert(payload.subrange(0, 32) =~= self.owner@);
        lemma_address_from_bytes(self.escrow_account);
        assert(payload.subrange(32, 64) =~= self.escrow_account@);
        assert(payload.subrange(64, 72) =~= spec_u64_to_le_bytes(self.total_deposits));
    }
}

/// The length in bytes of an encoded `EscrowAccount`, without its discriminant.
pub const ESCROW_ACCOUNT_BYTES: usize = 48;

/// Funds held for a beneficiary until a release time.
#[derive(Clone, Copy, Debug, PartialEq, Eq)]
pub struct EscrowAccount {
    /// The address the funds are released to.
    pub beneficiary: Address,
    /// The funds held.
    pub amount: u64,
    /// The time from which the funds may be released.
    pub release_time: i64,
}

impl EscrowAccount {
    /// The encoded fields, one after the other in declaration order.
    pub open spec fn payload_spec(self) -> Seq<u8> {
        self.beneficiary@
            + spec_u64_to_le_bytes(self.amount)
            + spec_i64_to_le_bytes(self.release_time)
    }

    /// The record that `payload` encodes: none unless it is exactly 48 bytes long.
    pub open spec fn parse_spec(payload: Seq<u8>) -> Option<EscrowAccount> {
        if payload.len() != 48 {
            None
        } else {
            Some(
                EscrowAccount {
                    beneficiary: spec_address_from_bytes(payload.subrange(0, 32)),
                    amount: spec_u64_from_le_bytes(payload.subrange(32, 40)),
                    release_time: spec_i64_from_le_bytes(payload.subrange(40, 48)),
                },
            )
        }
    }

    /// Decodes the fields from `payload`.
    pub fn parse(payload: &[u8]) -> (r: Option<EscrowAccount>)
        ensures
            r == Self::parse_spec(payload@),
    {
        if payload.len() != ESCROW_ACCOUNT_BYTES {
            return None;
        }
        let beneficiary = read_address(slice_subrange(payload, 0, 32));
        let amount = read_u64(slice_subrange(payload, 32, 40));
        let release_time = read_i64(slice_subrange(payload, 40, 48));
        match (beneficiary, amount, release_time) {
            (Some(beneficiary), Some(amount), Some(release_time)) => Some(
                EscrowAccount { beneficiary, amount, release_time },
            ),
            _ => None,
        }
    }

    /// Appends the encoded fields to `out`.
    pub fn write_payload(&self, out: &mut Vec<u8>)
        ensures
            final(out)@ == old(out)@ + self.payload_spec(),
    {
        write_address(out, &self.beneficiary);
        write_u64(out, self.amount);
        write_i64(out, self.release_time);
        assert(out@ =~= old(out)@ + self.payload_spec());
    }

    /// Parsing the encoded fields gives the record back.
    pub proof fn lemma_round_trip(self)
        ensures
            self.payload_spec().len() == 48,
            Self::parse_spec(self.payload_spec()) == Some(self),
    {
        lemma_auto_spec_u64_to_from_le_bytes();
        let payload = self.payload_spec();
        lemma_address_from_bytes(self.beneficiary);
        assert(payload.subrange(0, 32) =~= self.beneficiary@);
        assert(payload.subrange(32, 40) =~= spec_u64_to_le_bytes(self.amount));
        assert(payload.subrange(40, 48) =~= spec_i64_to_le_bytes(self.release_time));
        lemma_i64_round_trip(self.release_time);
    }
}

/// The length in bytes of an encoded `TokenVault`, without its discriminant.
pub const TOKEN_VAULT_BYTES: usize = 64;

/// A vault over a token account.
#[derive(Clone, Copy, Debug, PartialEq, Eq)]
pub struct TokenVault {
    /// The address that may withdraw from the vault.
    pub authority: Address,
    /// The address of the token account the vault stands for.
    pub token_account: Address,
}

impl TokenVault {
    /// The encoded fields, one after the other in declaration order.
    pub open spec fn payload_spec(self) -> Seq<u8> {
        self.authority@ + self.token_account@
    }

    /// The record that `payload` encodes: none unless it is exactly 64 bytes long.
    pub open spec fn parse_spec(payload: Seq<u8>) -> Option<TokenVault> {
        if payload.len() != 64 {
            None
        } else {
            Some(
                TokenVault {
                    authority: spec_address_from_bytes(payload.subrange(0, 32)),
                    token_account: spec_address_from_bytes(payload.subrange(32, 64)),
                },
            )
        }
    }

    /// Decodes the fields from `payload`.
    pub fn parse(payload: &[u8]) -> (r: Option<TokenVault>)
        ensures
            r == Self::parse_spec(payload@),
    {
        if payload.len() != TOKEN_VAULT_BYTES {
            return None;
        }
        let authority = read_address(slice_subrange(payload, 0, 32));
        let token_account = read_address(slice_subrange(payload, 32, 64));
        match (authority, token_account) {
            (Some(authority), Some(token_account)) => Some(TokenVault { authority, token_account }),
            _ => None,
        }
    }

    /// Appends the encoded fields to `out`.
    pub fn write_payload(&self, out: &mut Vec<u8>)
        ensures
            final(out)@ == old(out)@ + self.payload_spec(),
    {
        write_address(out, &self.authority);
        write_address(out, &self.token_account);
        assert(out@ =~= old(out)@ + self.payload_spec());
    }

    /// Parsing the encoded fields gives the record back.
    pub proof fn lemma_round_trip(self)
        ensures
            self.payload_spec().len() == 64,
            Self::parse_spec(self.payload_spec()) == Some(self),
    {
        lemma_auto_spec_u64_to_from_le_bytes();
        let payload = self.payload_spec();
        lemma_address_from_bytes(self.authority);
        assert(payload.subrange(0, 32) =~= self.authority@);
        lemma_address_from_bytes(self.token_account);
        assert(payload.subrange(32, 64) =~= self.token_account@);
    }
}

/// The roles of the escrow release: the user's profile, the escrow
/// account, the beneficiary, the signer.
pub open spec fn release_roles() -> Seq<RoleSpec> {
    seq![
        RoleSpec {
            name: "user_profile",
            program_owned: true,
            must_sign: false,
            record: RecordRequirement::Holds(SchemaKind::UserProfile),
        },
        RoleSpec {
            name: "escrow",
            program_owned: true,
            must_sign: false,
            record: RecordRequirement::Holds(SchemaKind::EscrowAccount),
        },
        RoleSpec {
            name: "beneficiary",
            program_owned: false,
            must_sign: false,
            record: RecordRequirement::Opaque,
        },
        RoleSpec {
            name: "signer",
            program_owned: false,
            must_sign: true,
            record: RecordRequirement::Opaque,
        },
    ]
}

/// The rules of the escrow release: the signer owns the profile, the
/// escrow account is the one the profile names, and the beneficiary is the
/// one the escrow names.
pub open spec fn release_rules() -> Seq<RuleView> {
    seq![
        RuleView::StoredReference { subject_role: 0, field: ReferenceField::Owner, target_role: 3 },
        RuleView::StoredReference {
            subject_role: 0,
            field: ReferenceField::EscrowAccount,
            target_role: 1,
        },
        RuleView::StoredReference {
            subject_role: 1,
            field: ReferenceField::Beneficiary,
            target_role: 2,
        },
    ]
}

/// What the escrow release stages: `InvalidTimestamp` before the release
/// time; else the escrowed amount leaves the escrow account for the
/// beneficiary and the escrow records nothing more, with
/// `ArithmeticUnderflow` where the escrow account holds less than it
/// records and `ArithmeticOverflow` where the beneficiary cannot hold the
/// sum.
pub open spec fn release_mutation(bound: Seq<BoundAccount>, now: i64) -> Result<
    Seq<StagedWrite>,
    ValidationError,
> {
    let escrow = bound[1].record->0->EscrowAccount_0;
    match elapsed_spec(now, escrow.release_time) {
        Err(reason) => Err(reason),
        Ok(_) => match sub_spec(bound[1].lamport_balance, escrow.amount) {
            Err(reason) => Err(reason),
            Ok(remaining) => match add_spec(bound[2].lamport_balance, escrow.amount) {
                Err(reason) => Err(reason),
                Ok(credited) => Ok(
                    seq![
                        StagedWrite {
                            role: 1,
                            lamport_balance: remaining,
                            record: Some(
                                TypedRecord::EscrowAccount(EscrowAccount { amount: 0, ..escrow }),
                            ),
                        },
                        StagedWrite { role: 2, lamport_balance: credited, record: None },
                    ],
                ),
            },
        },
    }
}

/// What the escrow release comes to.
pub open spec fn release_spec(
    program: Address,
    accounts: Seq<AccountView>,
    host: HostContext,
) -> Result<Seq<AccountView>, ValidationError> {
    execution_spec(
        program,
        accounts,
        release_roles(),
        release_rules(),
        host,
        |bound: Seq<BoundAccount>| release_mutation(bound, host.now),
    )
}

/// The roles of the token withdrawal: the vault, the token account, the
/// authority.
pub open spec fn token_withdraw_roles() -> Seq<RoleSpec> {
    seq![
        RoleSpec {
            name: "vault",
            program_owned: true,
            must_sign: false,
            record: RecordRequirement::Holds(SchemaKind::TokenVault),
        },
        RoleSpec {
            name: "token_account",
            program_owned: false,
            must_sign: false,
            record: RecordRequirement::Opaque,
        },
        RoleSpec {
            name: "authority",
            program_owned: false,
            must_sign: true,
            record: RecordRequirement::Opaque,
        },
    ]
}

/// The rules of the token withdrawal: the authority is the vault's, and
/// the token account is the one the vault names.
pub open spec fn token_withdraw_rules() -> Seq<RuleView> {
    seq![
        RuleView::StoredReference {
            subject_role: 0,
            field: ReferenceField::Authority,
            target_role: 2,
        },
        RuleView::StoredReference {
            subject_role: 0,
            field: ReferenceField::TokenAccount,
            target_role: 1,
        },
    ]
}

/// What the token withdrawal returns: the first failure of its checks, or
/// `Ok`.
pub open spec fn token_withdraw_spec(
    program: Address,
    accounts: Seq<AccountView>,
    host: HostContext,
) -> Result<(), ValidationError> {
    match validation_spec(program, accounts, token_withdraw_roles(), token_withdraw_rules(), host) {
        Err(reason) => Err(reason),
        Ok(_) => Ok(()),
    }
}

fn release_role_schema() -> (r: Vec<RoleSpec>)
    ensures
        r@ == release_roles(),
{
    let mut roles: Vec<RoleSpec> = Vec::new();
    roles.push(RoleSpec::holding("user_profile", SchemaKind::UserProfile));
    roles.push(RoleSpec::holding("escrow", SchemaKind::EscrowAccount));
    roles.push(RoleSpec::plain("beneficiary"));
    roles.push(RoleSpec::signer("signer"));
    assert(roles@ =~= release_roles());
    roles
}

fn release_rule_set() -> (r: Vec<RelationshipRule>)
    ensures
        r.deep_view() == release_rules(),
{
    let mut rules: Vec<RelationshipRule> = Vec::new();
    rules.push(
        RelationshipRule::StoredReference {
            subject_role: 0,
            field: ReferenceField::Owner,
            target_role: 3,
        },
    );
    rules.push(
        RelationshipRule::StoredReference {
            subject_role: 0,
            field: ReferenceField::EscrowAccount,
            target_role: 1,
        },
    );
    rules.push(
        RelationshipRule::StoredReference {
            subject_role: 1,
            field: ReferenceField::Beneficiary,
            target_role: 2,
        },
    );
    assert(rules.deep_view() =~= release_rules());
    rules
}

fn token_withdraw_role_schema() -> (r: Vec<RoleSpec>)
    ensures
        r@ == token_withdraw_roles(),
{
    let mut roles: Vec<RoleSpec> = Vec::new();
    roles.push(RoleSpec::holding("vault", SchemaKind::TokenVault));
    roles.push(RoleSpec::plain("token_account"));
    roles.push(RoleSpec::signer("authority"));
    assert(roles@ =~= token_withdraw_roles());
    roles
}

fn token_withdraw_rule_set() -> (r: Vec<RelationshipRule>)
    ensures
        r.deep_view() == token_withdraw_rules(),
{
    let mut rules: Vec<RelationshipRule> = Vec::new();
    rules.push(
        RelationshipRule::StoredReference {
            subject_role: 0,
            field: ReferenceField::Authority,
            target_role: 2,
        },
    );
    rules.push(
        RelationshipRule::StoredReference {
            subject_role: 0,
            field: ReferenceField::TokenAccount,
            target_role: 1,
        },
    );
    assert(rules.deep_view() =~= token_withdraw_rules());
    rules
}

fn stage_release(bound: Vec<BoundAccount>, now: i64) -> (staged: Result<
    Vec<StagedWrite>,
    ValidationError,
>)
    requires
        well_bound(bound@, release_roles()),
    ensures
        staged_as(staged, release_mutation(bound@, now)),
{
    assert(release_roles()[1].record == RecordRequirement::Holds(SchemaKind::EscrowAccount));
    let escrow = match bound[1].record {
        Some(TypedRecord::EscrowAccount(escrow)) => escrow,
        _ => unreached(),
    };
    match elapsed(now, escrow.release_time) {
        Ok(_) => {},
        Err(reason) => {
            return Err(reason);
        },
    }
    let remaining = match checked_sub(bound[1].lamport_balance, escrow.amount) {
        Ok(difference) => difference,
        Err(reason) => {
            return Err(reason);
        },
    };
    let credited = match checked_add(bound[2].lamport_balance, escrow.amount) {
        Ok(sum) => sum,
        Err(reason) => {
            return Err(reason);
        },
    };
    let mut writes: Vec<StagedWrite> = Vec::new();
    writes.push(
        StagedWrite {
            role: 1,
            lamport_balance: remaining,
            record: Some(
                TypedRecord::EscrowAccount(
                    EscrowAccount {
                        beneficiary: escrow.beneficiary,
                        amount: 0,
                        release_time: escrow.release_time,
                    },
                ),
            ),
        },
    );
    writes.push(StagedWrite { role: 2, lamport_balance: credited, record: None });
    assert(writes@ =~= release_mutation(bound@, now)->Ok_0);
    Ok(writes)
}

/// Releases an escrow to its beneficiary once the release time has come.
/// The profile and the escrow are the program's records; the signer owns
/// the profile; the escrow account supplied is the one the profile names,
/// and the beneficiary supplied is the one the escrow names. The
/// instruction data is not read.
pub fn process_instruction(
    program_id: &Address,
    accounts: &mut Vec<AccountHandle>,
    _instruction_data: &[u8],
    host: &HostContext,
) -> (r: Result<(), ValidationError>)
    ensures
        delivers(
            release_spec(*program_id, old(accounts).deep_view(), *host),
            old(accounts).deep_view(),
            final(accounts).deep_view(),
            r,
        ),
{
    let roles = release_role_schema();
    let rules = release_rule_set();
    let now = host.now;
    let mutation = |bound: Vec<BoundAccount>| -> (staged: Result<Vec<StagedWrite>, ValidationError>)
        requires
            well_bound(bound@, release_roles()),
        ensures
            staged_as(staged, release_mutation(bound@, now)),
        { stage_release(bound, now) };
    match validate_and_execute(program_id, accounts, &roles, &rules, host, mutation) {
        Ok(_) => Ok(()),
        Err(reason) => Err(reason),
    }
}

/// Clears a withdrawal from a token vault: the vault is the program's
/// record, the authority has signed and is the vault's, and the token
/// account supplied is the one the vault names. The name records what a
/// withdrawal without the last check is open to. Nothing is written: moving
/// the tokens is the token program's part.
pub fn vulnerable_token_withdraw(
    program_id: &Address,
    accounts: &Vec<AccountHandle>,
    _instruction_data: &[u8],
    host: &HostContext,
) -> (r: Result<(), ValidationError>)
    ensures
        r == token_withdraw_spec(*program_id, accounts.deep_view(), *host),
{
    let roles = token_withdraw_role_schema();
    let rules = token_withdraw_rule_set();
    match validate(program_id, accounts, &roles, &rules, host) {
        Ok(_) => Ok(()),
        Err(reason) => Err(reason),
    }
}

} // verus!

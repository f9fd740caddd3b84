//! Staking, reward calculation and transfer: operations whose every sum,
//! difference and product is checked.
use crate::account::{AccountHandle, AccountView, HostContext};
use crate::address::Address;
use crate::arithmetic::{
    add_spec, checked_add, checked_mul, elapsed, elapsed_spec, mul_spec, proportional_share,
    proportional_share_spec,
};
use crate::codec::{
    lemma_i64_round_trip, read_i64, read_u64, spec_i64_from_le_bytes, spec_i64_to_le_bytes,
    write_i64, write_u64,
};
use crate::error::ValidationError;
use crate::instruction::{amount_spec, arguments, arguments_spec, read_amount};
use crate::pipeline::{
    delivers, execution_spec, staged_as, validate, validate_and_execute, validation_spec,
    StagedWrite,
};
use crate::relationship::{RelationshipRule, RuleView};
use crate::roles::{well_bound, BoundAccount, RecordRequirement, RoleSpec};
use crate::schema::{SchemaKind, TypedRecord};
use vstd::bytes::{
    lemma_auto_spec_u64_to_from_le_bytes, spec_u64_from_le_bytes, spec_u64_to_le_bytes,
};
use vstd::pervasive::unreached;
use vstd::prelude::*;
use vstd::slice::slice_subrange;

verus! {

/// The length in bytes of an encoded `StakingPool`, without its discriminant.
pub const STAKING_POOL_BYTES: usize = 24;

/// A staking pool.
#[derive(Clone, Copy, Debug, PartialEq, Eq)]
pub struct StakingPool {
    /// The sum of all stakes in the pool.
    pub total_staked: u64,
    /// The rewards the pool pays per second.
    pub reward_rate: u64,
    /// The time of the last update of the pool.
    pub last_update: i64,
}

impl StakingPool {
    /// The encoded fields, one after the other in declaration order.
    pub open spec fn payload_spec(self) -> Seq<u8> {
        spec_u64_to_le_bytes(self.total_staked)
            + spec_u64_to_le_bytes(self.reward_rate)
            + spec_i64_to_le_bytes(self.last_update)
    }

    /// The record that `payload` encodes: none unless it is exactly 24 bytes long.
    pub open spec fn parse_spec(payload: Seq<u8>) -> Option<StakingPool> {
        if payload.len() != 24 {
            None
        } else {
            Some(
                StakingPool {
                    total_staked: spec_u64_from_le_bytes(payload.subrange(0, 8)),
                    reward_rate: spec_u64_from_le_bytes(payload.subrange(8, 16)),
                    last_update: spec_i64_from_le_bytes(payload.subrange(16, 24)),
                },
            )
        }
    }

    /// Decodes the fields from `payload`.
    pub fn parse(payload: &[u8]) -> (r: Option<StakingPool>)
        ensures
            r == Self::parse_spec(payload@),
    {
        if payload.len() != STAKING_POOL_BYTES {
            return None;
        }
        let total_staked = read_u64(slice_subrange(payload, 0, 8));
        let reward_rate = read_u64(slice_subrange(payload, 8, 16));
        let last_update = read_i64(slice_subrange(payload, 16, 24));
        match (total_staked, reward_rate, last_update) {
            (Some(total_staked), Some(reward_rate), Some(last_update)) => Some(
                StakingPool { total_staked, reward_rate, last_update },
            ),
            _ => None,
        }
    }

    /// Appends the encoded fields to `out`.
    pub fn write_payload(&self, out: &mut Vec<u8>)
        ensures
            final(out)@ == old(out)@ + self.payload_spec(),
    {
        write_u64(out, self.total_staked);
        write_u64(out, self.reward_rate);
        write_i64(out, self.last_update);
        assert(out@ =~= old(out)@ + self.payload_spec());
    }

    /// Parsing the encoded fields gives the record back.
    pub proof fn lemma_round_trip(self)
        ensures
            self.payload_spec().len() == 24,
            Self::parse_spec(self.payload_spec()) == Some(self),
    {
        lemma_auto_spec_u64_to_from_le_bytes();
        let payload = self.payload_spec();
        assert(payload.subrange(0, 8) =~= spec_u64_to_le_bytes(self.total_staked));
        assert(payload.subrange(8, 16) =~= spec_u64_to_le_bytes(self.reward_rate));
        assert(payload.subrange(16, 24) =~= spec_i64_to_le_bytes(self.last_update));
        lemma_i64_round_trip(self.last_update);
    }
}

/// The length in bytes of an encoded `UserStake`, without its discriminant.
pub const USER_STAKE_BYTES: usize = 16;

/// One user's stake in a pool.
#[derive(Clone, Copy, Debug, PartialEq, Eq)]
pub struct UserStake {
    /// The amount staked.
    pub amount: u64,
    /// The time rewards were last claimed.
    pub last_claim: i64,
}

impl UserStake {
    /// The encoded fields, one after the other in declaration order.
    pub open spec fn payload_spec(self) -> Seq<u8> {
        spec_u64_to_le_bytes(self.amount) + spec_i64_to_le_bytes(self.last_claim)
    }

    /// The record that `payload` encodes: none unless it is exactly 16 bytes long.
    pub open spec fn parse_spec(payload: Seq<u8>) -> Option<UserStake> {
        if payload.len() != 16 {
            None
        } else {
            Some(
                UserStake {
                    amount: spec_u64_from_le_bytes(payload.subrange(0, 8)),
                    last_claim: spec_i64_from_le_bytes(payload.subrange(8, 16)),
                },
            )
        }
    }

    /// Decodes the fields from `payload`.
    pub fn parse(payload: &[u8]) -> (r: Option<UserStake>)
        ensures
            r == Self::parse_spec(payload@),
    {
        if payload.len() != USER_STAKE_BYTES {
            return None;
        }
        let amount = read_u64(slice_subrange(payload, 0, 8));
        let last_claim = read_i64(slice_subrange(payload, 8, 16));
        match (amount, last_claim) {
            (Some(amount), Some(last_claim)) => Some(UserStake { amount, last_claim }),
            _ => None,
        }
    }

    /// Appends the encoded fields to `out`.
    pub fn write_payload(&self, out: &mut Vec<u8>)
        ensures
            final(out)@ == old(out)@ + self.payload_spec(),
    {
        write_u64(out, self.amount);
        write_i64(out, self.last_claim);
        assert(out@ =~= old(out)@ + self.payload_spec());
    }

    /// Parsing the encoded fields gives the record back.
    pub proof fn lemma_round_trip(self)
        ensures
            self.payload_spec().len() == 16,
            Self::parse_spec(self.payload_spec()) == Some(self),
    {
        lemma_auto_spec_u64_to_from_le_bytes();
        let payload = self.payload_spec();
        assert(payload.subrange(0, 8) =~= spec_u64_to_le_bytes(self.amount));
        assert(payload.subrange(8, 16) =~= spec_i64_to_le_bytes(self.last_claim));
        lemma_i64_round_trip(self.last_claim);
    }
}

/// What an operation of the staking program did.
#[derive(Clone, Copy, Debug, PartialEq, Eq, Structural)]
pub enum StakingOutcome {
    /// An amount was staked.
    Staked,
    /// A reward was calculated; this is it.
    Reward(u64),
    /// An amount was transferred.
    Transferred,
}

/// The roles of `stake` and of `calculate_rewards`, which adds the clock:
/// the pool, the user's stake, the user.
pub open spec fn stake_roles() -> Seq<RoleSpec> {
    seq![
        RoleSpec {
            name: "pool",
            program_owned: true,
            must_sign: false,
            record: RecordRequirement::Holds(SchemaKind::StakingPool),
        },
        RoleSpec {
            name: "user_stake",
            program_owned: true,
            must_sign: false,
            record: RecordRequirement::Holds(SchemaKind::UserStake),
        },
        RoleSpec {
            name: "user",
            program_owned: false,
            must_sign: true,
            record: RecordRequirement::Opaque,
        },
    ]
}

/// The roles of `calculate_rewards`: those of `stake`, and the clock.
pub open spec fn calculate_rewards_roles() -> Seq<RoleSpec> {
    stake_roles().push(
        RoleSpec {
            name: "clock",
            program_owned: false,
            must_sign: false,
            record: RecordRequirement::Opaque,
        },
    )
}

/// The roles of `vulnerable_transfer`: the account debited, the account
/// credited, the user.
pub open spec fn transfer_roles() -> Seq<RoleSpec> {
    seq![
        RoleSpec {
            name: "from",
            program_owned: false,
            must_sign: false,
            record: RecordRequirement::Opaque,
        },
        RoleSpec {
            name: "to",
            program_owned: false,
            must_sign: false,
            record: RecordRequirement::Opaque,
        },
        RoleSpec {
            name: "user",
            program_owned: false,
            must_sign: true,
            record: RecordRequirement::Opaque,
        },
    ]
}

/// What `stake` stages: the pool's total and the user's stake, each
/// raised by the amount, or `ArithmeticOverflow` where either sum leaves the
/// domain.
pub open spec fn stake_mutation(bound: Seq<BoundAccount>, amount: u64) -> Result<
    Seq<StagedWrite>,
    ValidationError,
> {
    let pool = bound[0].record->0->StakingPool_0;
    let stake = bound[1].record->0->UserStake_0;
    match add_spec(pool.total_staked, amount) {
        Err(reason) => Err(reason),
        Ok(total_staked) => match add_spec(stake.amount, amount) {
            Err(reason) => Err(reason),
            Ok(staked) => Ok(
                seq![
                    StagedWrite {
                        role: 0,
                        lamport_balance: bound[0].lamport_balance,
                        record: Some(
                            TypedRecord::StakingPool(StakingPool { total_staked, ..pool }),
                        ),
                    },
                    StagedWrite {
                        role: 1,
                        lamport_balance: bound[1].lamport_balance,
                        record: Some(TypedRecord::UserStake(UserStake { amount: staked, ..stake })),
                    },
                ],
            ),
        },
    }
}

/// What `stake` comes to.
pub open spec fn stake_spec(
    program: Address,
    accounts: Seq<AccountView>,
    instruction_data: Seq<u8>,
    host: HostContext,
) -> Result<Seq<AccountView>, ValidationError> {
    execution_spec(
        program,
        accounts,
        stake_roles(),
        Seq::<RuleView>::empty(),
        host,
        |bound: Seq<BoundAccount>| stake_mutation(bound, amount_spec(instruction_data)),
    )
}

/// The reward of a stake: the time elapsed since the last claim times the
/// pool's rate, and of that the share of the stake in the pool, multiplied
/// before it is divided.
pub open spec fn reward_spec(pool: StakingPool, stake: UserStake, now: i64) -> Result<
    u64,
    ValidationError,
> {
    match elapsed_spec(now, stake.last_claim) {
        Err(reason) => Err(reason),
        Ok(seconds) => match mul_spec(seconds, pool.reward_rate) {
            Err(reason) => Err(reason),
            Ok(base) => proportional_share_spec(base, stake.amount, pool.total_staked),
        },
    }
}

/// What `calculate_rewards` returns.
pub open spec fn calculate_rewards_spec(
    program: Address,
    accounts: Seq<AccountView>,
    host: HostContext,
) -> Result<u64, ValidationError> {
    match validation_spec(
        program,
        accounts,
        calculate_rewards_roles(),
        Seq::<RuleView>::empty(),
        host,
    ) {
        Err(reason) => Err(reason),
        Ok(bound) => reward_spec(
            bound[0].record->0->StakingPool_0,
            bound[1].record->0->UserStake_0,
            host.now,
        ),
    }
}

/// What `vulnerable_transfer` stages: the amount taken from the first
/// account and given to the second. `InsufficientFunds` where the first
/// holds less than the amount, `ArithmeticOverflow` where the second cannot
/// hold the sum.
pub open spec fn transfer_mutation(bound: Seq<BoundAccount>, amount: u64) -> Result<
    Seq<StagedWrite>,
    ValidationError,
> {
    if bound[0].lamport_balance < amount {
        Err(ValidationError::InsufficientFunds)
    } else {
        match add_spec(bound[1].lamport_balance, amount) {
            Err(reason) => Err(reason),
            Ok(credited) => Ok(
                seq![
                    StagedWrite {
                        role: 0,
                        lamport_balance: (bound[0].lamport_balance - amount) as u64,
                        record: None,
                    },
                    StagedWrite { role: 1, lamport_balance: credited, record: None },
                ],
            ),
        }
    }
}

/// What `vulnerable_transfer` comes to.
pub open spec fn transfer_spec(
    program: Address,
    accounts: Seq<AccountView>,
    instruction_data: Seq<u8>,
    host: HostContext,
) -> Result<Seq<AccountView>, ValidationError> {
    execution_spec(
        program,
        accounts,
        transfer_roles(),
        Seq::<RuleView>::empty(),
        host,
        |bound: Seq<BoundAccount>| transfer_mutation(bound, amount_spec(instruction_data)),
    )
}

fn stake_role_schema() -> (r: Vec<RoleSpec>)
    ensures
        r@ == stake_roles(),
{
    let mut roles: Vec<RoleSpec> = Vec::new();
    roles.push(RoleSpec::holding("pool", SchemaKind::StakingPool));
    roles.push(RoleSpec::holding("user_stake", SchemaKind::UserStake));
    roles.push(RoleSpec::signer("user"));
    assert(roles@ =~= stake_roles());
    roles
}

fn transfer_role_schema() -> (r: Vec<RoleSpec>)
    ensures
        r@ == transfer_roles(),
{
    let mut roles: Vec<RoleSpec> = Vec::new();
    roles.push(RoleSpec::plain("from"));
    roles.push(RoleSpec::plain("to"));
    roles.push(RoleSpec::signer("user"));
    assert(roles@ =~= transfer_roles());
    roles
}

fn stage_stake(bound: Vec<BoundAccount>, amount: u64) -> (staged: Result<
    Vec<StagedWrite>,
    ValidationError,
>)
    requires
        well_bound(bound@, stake_roles()),
    ensures
        staged_as(staged, stake_mutation(bound@, amount)),
{
    assert(stake_roles()[0].record == RecordRequirement::Holds(SchemaKind::StakingPool));
    assert(stake_roles()[1].record == RecordRequirement::Holds(SchemaKind::UserStake));
    let (pool, stake) = match (bound[0].record, bound[1].record) {
        (Some(TypedRecord::StakingPool(pool)), Some(TypedRecord::UserStake(stake))) => (
            pool,
            stake,
        ),
        _ => unreached(),
    };
    let total_staked = match checked_add(pool.total_staked, amount) {
        Ok(sum) => sum,
        Err(reason) => {
            return Err(reason);
        },
    };
    let staked = match checked_add(stake.amount, amount) {
        Ok(sum) => sum,
        Err(reason) => {
            return Err(reason);
        },
    };
    let mut writes: Vec<StagedWrite> = Vec::new();
    writes.push(
        StagedWrite {
            role: 0,
            lamport_balance: bound[0].lamport_balance,
            record: Some(
                TypedRecord::StakingPool(
                    StakingPool {
                        total_staked,
                        reward_rate: pool.reward_rate,
                        last_update: pool.last_update,
                    },
                ),
            ),
        },
    );
    writes.push(
        StagedWrite {
            role: 1,
            lamport_balance: bound[1].lamport_balance,
            record: Some(
                TypedRecord::UserStake(UserStake { amount: staked, last_claim: stake.last_claim }),
            ),
        },
    );
    assert(writes@ =~= stake_mutation(bound@, amount)->Ok_0);
    Ok(writes)
}

/// Stakes the amount that leads the instruction data: adds it to the
/// pool's total and to the user's stake, with checked additions. The pool
/// and the stake are the program's records, and the user has signed.
pub fn stake(
    program_id: &Address,
    accounts: &mut Vec<AccountHandle>,
    instruction_data: &[u8],
    host: &HostContext,
) -> (r: Result<(), ValidationError>)
    requires
        instruction_data@.len() >= 8,
    ensures
        delivers(
            stake_spec(*program_id, old(accounts).deep_view(), instruction_data@, *host),
            old(accounts).deep_view(),
            final(accounts).deep_view(),
            r,
        ),
{
    let amount = read_amount(instruction_data);
    let roles = stake_role_schema();
    let rules: Vec<RelationshipRule> = Vec::new();
    let mutation = |bound: Vec<BoundAccount>| -> (staged: Result<Vec<StagedWrite>, ValidationError>)
        requires
            well_bound(bound@, stake_roles()),
        ensures
            staged_as(staged, stake_mutation(bound@, amount)),
        { stage_stake(bound, amount) };
    assert(rules.deep_view() =~= Seq::<RuleView>::empty());
    match validate_and_execute(program_id, accounts, &roles, &rules, host, mutation) {
        Ok(_) => Ok(()),
        Err(reason) => Err(reason),
    }
}

fn calculate_rewards_role_schema() -> (r: Vec<RoleSpec>)
    ensures
        r@ == calculate_rewards_roles(),
{
    let mut roles = stake_role_schema();
    roles.push(RoleSpec::plain("clock"));
    roles
}

/// Calculates the reward that the user's stake has earned up to the
/// host's current time. The elapsed time is a checked difference, the base
/// reward a checked product, and the user's share of it is multiplied before
/// it is divided. Nothing is written.
pub fn calculate_rewards(
    program_id: &Address,
    accounts: &Vec<AccountHandle>,
    _instruction_data: &[u8],
    host: &HostContext,
) -> (r: Result<u64, ValidationError>)
    ensures
        r == calculate_rewards_spec(*program_id, accounts.deep_view(), *host),
{
    let roles = calculate_rewards_role_schema();
    let rules: Vec<RelationshipRule> = Vec::new();
    assert(rules.deep_view() =~= Seq::<RuleView>::empty());
    let bound = match validate(program_id, accounts, &roles, &rules, host) {
        Ok(bound) => bound,
        Err(reason) => {
            return Err(reason);
        },
    };
    proof {
        crate::pipeline::lemma_validated_is_well_bound(
            *program_id,
            accounts.deep_view(),
            roles@,
            rules.deep_view(),
            *host,
        );
        assert(roles@[0].record == RecordRequirement::Holds(SchemaKind::StakingPool));
        assert(roles@[1].record == RecordRequirement::Holds(SchemaKind::UserStake));
    }
    let (pool, stake) = match (bound[0].record, bound[1].record) {
        (Some(TypedRecord::StakingPool(pool)), Some(TypedRecord::UserStake(stake))) => (
            pool,
            stake,
        ),
        _ => unreached(),
    };
    let seconds = match elapsed(host.now, stake.last_claim) {
        Ok(seconds) => seconds,
        Err(reason) => {
            return Err(reason);
        },
    };
    let base = match checked_mul(seconds, pool.reward_rate) {
        Ok(base) => base,
        Err(reason) => {
            return Err(reason);
        },
    };
    proportional_share(base, stake.amount, pool.total_staked)
}

fn stage_transfer(bound: Vec<BoundAccount>, amount: u64) -> (staged: Result<
    Vec<StagedWrite>,
    ValidationError,
>)
    requires
        well_bound(bound@, transfer_roles()),
    ensures
        staged_as(staged, transfer_mutation(bound@, amount)),
{
    if bound[0].lamport_balance < amount {
        return Err(ValidationError::InsufficientFunds);
    }
    let credited = match checked_add(bound[1].lamport_balance, amount) {
        Ok(sum) => sum,
        Err(reason) => {
            return Err(reason);
        },
    };
    let mut writes: Vec<StagedWrite> = Vec::new();
    writes.push(
        StagedWrite { role: 0, lamport_balance: bound[0].lamport_balance - amount, record: None },
    );
    writes.push(StagedWrite { role: 1, lamport_balance: credited, record: None });
    assert(writes@ =~= transfer_mutation(bound@, amount)->Ok_0);
    Ok(writes)
}

/// Transfers the amount that leads the instruction data from the first
/// account to the second, for a user who has signed. The name records what
/// an unguarded transfer is open to; this one is guarded: the balance is
/// held against the amount before anything is subtracted, and the account
/// debited must remain viable.
pub fn vulnerable_transfer(
    program_id: &Address,
    accounts: &mut Vec<AccountHandle>,
    instruction_data: &[u8],
    host: &HostContext,
) -> (r: Result<(), ValidationError>)
    requires
        instruction_data@.len() >= 8,
    ensures
        delivers(
            transfer_spec(*program_id, old(accounts).deep_view(), instruction_data@, *host),
            old(accounts).deep_view(),
            final(accounts).deep_view(),
            r,
        ),
{
    let amount = read_amount(instruction_data);
    let roles = transfer_role_schema();
    let rules: Vec<RelationshipRule> = Vec::new();
    let mutation = |bound: Vec<BoundAccount>| -> (staged: Result<Vec<StagedWrite>, ValidationError>)
        requires
            well_bound(bound@, transfer_roles()),
        ensures
            staged_as(staged, transfer_mutation(bound@, amount)),
        { stage_transfer(bound, amount) };
    assert(rules.deep_view() =~= Seq::<RuleView>::empty());
    match validate_and_execute(program_id, accounts, &roles, &rules, host, mutation) {
        Ok(_) => Ok(()),
        Err(reason) => Err(reason),
    }
}

/// What the staking program does with instruction data: the first byte
/// selects the operation, the rest are its arguments.
pub open spec fn process_instruction_spec(
    program: Address,
    before: Seq<AccountView>,
    instruction_data: Seq<u8>,
    host: HostContext,
    after: Seq<AccountView>,
    result: Result<StakingOutcome, ValidationError>,
) -> bool {
    let arguments = arguments_spec(instruction_data);
    if instruction_data[0] == 0 {
        &&& delivers(stake_spec(program, before, arguments, host), before, after, result)
        &&& result is Ok ==> result == Ok::<StakingOutcome, ValidationError>(StakingOutcome::Staked)
    } else if instruction_data[0] == 1 {
        &&& after == before
        &&& result == match calculate_rewards_spec(program, before, host) {
            Ok(reward) => Ok::<StakingOutcome, ValidationError>(StakingOutcome::Reward(reward)),
            Err(reason) => Err(reason),
        }
    } else if instruction_data[0] == 2 {
        &&& delivers(transfer_spec(program, before, arguments, host), before, after, result)
        &&& result is Ok ==> result == Ok::<StakingOutcome, ValidationError>(
            StakingOutcome::Transferred,
        )
    } else {
        &&& after == before
        &&& result == Err::<StakingOutcome, ValidationError>(ValidationError::InvalidInstruction)
    }
}

/// The entry point of the staking program: selector 0 stakes, 1
/// calculates rewards, 2 transfers; any other selector is refused with
/// `InvalidInstruction`.
pub fn process_instruction(
    program_id: &Address,
    accounts: &mut Vec<AccountHandle>,
    instruction_data: &[u8],
    host: &HostContext,
) -> (r: Result<StakingOutcome, ValidationError>)
    requires
        instruction_data@.len() >= 1,
        instruction_data@[0] == 0 || instruction_data@[0] == 2 ==> instruction_data@.len() >= 9,
    ensures
        process_instruction_spec(
            *program_id,
            old(accounts).deep_view(),
            instruction_data@,
            *host,
            final(accounts).deep_view(),
            r,
        ),
{
    let selector = instruction_data[0];
    let rest = arguments(instruction_data);
    if selector == 0 {
        match stake(program_id, accounts, rest, host) {
            Ok(_) => Ok(StakingOutcome::Staked),
            Err(reason) => Err(reason),
        }
    } else if selector == 1 {
        match calculate_rewards(program_id, accounts, rest, host) {
            Ok(reward) => Ok(StakingOutcome::Reward(reward)),
            Err(reason) => Err(reason),
        }
    } else if selector == 2 {
        match vulnerable_transfer(program_id, accounts, rest, host) {
            Ok(_) => Ok(StakingOutcome::Transferred),
            Err(reason) => Err(reason),
        }
    } else {
        Err(ValidationError::InvalidInstruction)
    }
}

} // verus!

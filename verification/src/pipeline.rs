//! The validation pipeline. One operation passes, in this order: role
//! resolution, ownership, signatures, lifecycle, schemas, relationships and
//! the viability of what it initializes. The first failure ends it. Only
//! when all have passed does the mutation run, on decoded records and
//! balances; what it stages is checked once more and then committed in one
//! step. Whatever fails, no account has changed.
use crate::account::{AccountHandle, AccountView, HostContext};
use crate::address::Address;
use crate::authority::{verify_ownership, verify_signer};
use crate::error::{verdict_of, ValidationError, ValidationVerdict};
use crate::lifecycle::{guard_initialize, is_initialized_spec, require_initialized};
use crate::relationship::{check_rule, rule_verdict, RelationshipRule, RuleView};
use crate::roles::{
    bind_account, bound_accounts_spec, resolve_roles, well_bound, BoundAccount, RecordRequirement,
    RoleBinding, RoleSpec,
};
use crate::schema::{decode_as, decode_spec, TypedRecord};
use crate::viability::{require_viable, viable_spec};
use vstd::prelude::*;
use vstd::slice::slice_to_vec;

verus! {

/// The checks that are made of every role, in the order in which they run.
#[derive(Clone, Copy, Debug, PartialEq, Eq, Structural)]
pub enum RolePhase {
    /// The executing program controls every program-owned account.
    Ownership,
    /// Every account that must authorize has signed.
    Signature,
    /// What is to be initialized is not yet, and what is to be used is.
    Lifecycle,
    /// Every account that holds a record decodes as its schema.
    Schema,
    /// Every account that is to be initialized can persist.
    Viability,
}

/// A new balance, and optionally a new record, staged for the account bound
/// to a role.
#[derive(Clone, Copy, Debug, PartialEq, Eq)]
pub struct StagedWrite {
    pub role: usize,
    pub lamport_balance: u64,
    pub record: Option<TypedRecord>,
}

/// The acknowledgement of a commit.
#[derive(Clone, Copy, Debug, PartialEq, Eq)]
pub struct CommitReceipt {
    /// The number of staged writes that were committed.
    pub writes: usize,
}

/// The second verdict, unless the first is a failure.
pub open spec fn followed_by(
    first: ValidationVerdict,
    second: ValidationVerdict,
) -> ValidationVerdict {
    if first is Fail {
        first
    } else {
        second
    }
}

/// The first failure among the verdicts from position `from` on, and `Pass`
/// where there is none.
pub open spec fn first_failure(verdicts: Seq<ValidationVerdict>, from: int) -> ValidationVerdict
    decreases verdicts.len() - from,
{
    if from < 0 || from >= verdicts.len() {
        ValidationVerdict::Pass
    } else if verdicts[from] is Fail {
        verdicts[from]
    } else {
        first_failure(verdicts, from + 1)
    }
}

/// The verdict of one phase on one role and the account bound to it.
pub open spec fn role_verdict(
    phase: RolePhase,
    program: Address,
    account: AccountView,
    role: RoleSpec,
    host: HostContext,
) -> ValidationVerdict {
    match phase {
        RolePhase::Ownership => if role.program_owned {
            verdict_of(account.controlling_program == program, ValidationError::IncorrectOwner)
        } else {
            ValidationVerdict::Pass
        },
        RolePhase::Signature => if role.must_sign {
            verdict_of(account.is_signer, ValidationError::MissingSignature)
        } else {
            ValidationVerdict::Pass
        },
        RolePhase::Lifecycle => match role.record {
            RecordRequirement::Opaque => ValidationVerdict::Pass,
            RecordRequirement::Fresh => verdict_of(
                !is_initialized_spec(account.data),
                ValidationError::AlreadyInitialized,
            ),
            RecordRequirement::Holds(_) => verdict_of(
                is_initialized_spec(account.data),
                ValidationError::NotInitialized,
            ),
        },
        RolePhase::Schema => match role.record {
            RecordRequirement::Holds(schema) => match decode_spec(account.data, schema) {
                Ok(_) => ValidationVerdict::Pass,
                Err(reason) => ValidationVerdict::Fail(reason),
            },
            _ => ValidationVerdict::Pass,
        },
        RolePhase::Viability => match role.record {
            RecordRequirement::Fresh => verdict_of(
                viable_spec(host.cost_model, account.lamport_balance, account.data.len()),
                ValidationError::NotStorageViable,
            ),
            _ => ValidationVerdict::Pass,
        },
    }
}

/// The verdicts of one phase, role by role.
pub open spec fn phase_verdicts(
    phase: RolePhase,
    program: Address,
    accounts: Seq<AccountView>,
    role_schema: Seq<RoleSpec>,
    host: HostContext,
) -> Seq<ValidationVerdict> {
    Seq::new(
        role_schema.len(),
        |i: int| role_verdict(phase, program, accounts[i], role_schema[i], host),
    )
}

/// The verdict of one phase: the first failure in role order.
pub open spec fn phase_verdict(
    phase: RolePhase,
    program: Address,
    accounts: Seq<AccountView>,
    role_schema: Seq<RoleSpec>,
    host: HostContext,
) -> ValidationVerdict {
    first_failure(phase_verdicts(phase, program, accounts, role_schema, host), 0)
}

/// The verdicts of the rules, rule by rule.
pub open spec fn rule_verdicts(
    rule_set: Seq<RuleView>,
    program: Address,
    bound: Seq<BoundAccount>,
) -> Seq<ValidationVerdict> {
    Seq::new(rule_set.len(), |i: int| rule_verdict(rule_set[i], program, bound))
}

/// The verdict of the relationship phase: the first failure in rule order.
pub open spec fn relationship_verdict(
    rule_set: Seq<RuleView>,
    program: Address,
    bound: Seq<BoundAccount>,
) -> ValidationVerdict {
    first_failure(rule_verdicts(rule_set, program, bound), 0)
}

/// The verdict of the whole check list on an operation: `MissingAccount`
/// where the roles cannot all be bound, else the first failure of ownership,
/// signatures, lifecycle, schemas, relationships and viability, in this
/// order.
pub open spec fn validation_verdict(
    program: Address,
    accounts: Seq<AccountView>,
    role_schema: Seq<RoleSpec>,
    rule_set: Seq<RuleView>,
    host: HostContext,
) -> ValidationVerdict {
    if accounts.len() < role_schema.len() {
        ValidationVerdict::Fail(ValidationError::MissingAccount)
    } else {
        followed_by(
            phase_verdict(RolePhase::Ownership, program, accounts, role_schema, host),
            followed_by(
                phase_verdict(RolePhase::Signature, program, accounts, role_schema, host),
                followed_by(
                    phase_verdict(RolePhase::Lifecycle, program, accounts, role_schema, host),
                    followed_by(
                        phase_verdict(RolePhase::Schema, program, accounts, role_schema, host),
                        followed_by(
                            relationship_verdict(
                                rule_set,
                                program,
                                bound_accounts_spec(accounts, role_schema),
                            ),
                            phase_verdict(
                                RolePhase::Viability,
                                program,
                                accounts,
                                role_schema,
                                host,
                            ),
                        ),
                    ),
                ),
            ),
        )
    }
}

/// What the check list hands to the mutation: the failure, or the bound
/// accounts.
pub open spec fn validation_spec(
    program: Address,
    accounts: Seq<AccountView>,
    role_schema: Seq<RoleSpec>,
    rule_set: Seq<RuleView>,
    host: HostContext,
) -> Result<Seq<BoundAccount>, ValidationError> {
    match validation_verdict(program, accounts, role_schema, rule_set, host) {
        ValidationVerdict::Pass => Ok(bound_accounts_spec(accounts, role_schema)),
        ValidationVerdict::Fail(reason) => Err(reason),
    }
}

/// The data that a staged write leaves in an account.
pub open spec fn written_data(account: AccountView, write: StagedWrite) -> Seq<u8> {
    match write.record {
        Some(record) => record.encode_spec(),
        None => account.data,
    }
}

/// The verdict on one staged write. `MissingAccount` where it names no role
/// of the operation. `SchemaMismatch` where it stages a record for a role
/// whose data is not read, a record of another schema than the role holds,
/// or a record whose encoding is not as long as the account's data.
/// `NotStorageViable` where it lowers the balance below what keeps the
/// account stored.
pub open spec fn write_verdict(
    accounts: Seq<AccountView>,
    role_schema: Seq<RoleSpec>,
    write: StagedWrite,
    host: HostContext,
) -> ValidationVerdict {
    if write.role >= role_schema.len() || write.role >= accounts.len() {
        ValidationVerdict::Fail(ValidationError::MissingAccount)
    } else {
        let account = accounts[write.role as int];
        let fits = match write.record {
            None => true,
            Some(record) => {
                &&& match role_schema[write.role as int].record {
                    RecordRequirement::Opaque => false,
                    RecordRequirement::Fresh => true,
                    RecordRequirement::Holds(schema) => record.kind_spec() == schema,
                }
                &&& record.encode_spec().len() == account.data.len()
            },
        };
        if !fits {
            ValidationVerdict::Fail(ValidationError::SchemaMismatch)
        } else if write.lamport_balance < account.lamport_balance && !viable_spec(
            host.cost_model,
            write.lamport_balance,
            account.data.len(),
        ) {
            ValidationVerdict::Fail(ValidationError::NotStorageViable)
        } else {
            ValidationVerdict::Pass
        }
    }
}

/// The accounts after one staged write.
pub open spec fn apply_write(accounts: Seq<AccountView>, write: StagedWrite) -> Seq<AccountView> {
    let account = accounts[write.role as int];
    accounts.update(
        write.role as int,
        AccountView {
            lamport_balance: write.lamport_balance,
            data: written_data(account, write),
            ..account
        },
    )
}

/// The accounts after the staged writes from position `from` on, each
/// checked against the accounts as the writes before it leave them; or the
/// first failure.
pub open spec fn commit_from(
    accounts: Seq<AccountView>,
    role_schema: Seq<RoleSpec>,
    writes: Seq<StagedWrite>,
    host: HostContext,
    from: int,
) -> Result<Seq<AccountView>, ValidationError>
    decreases writes.len() - from,
{
    if from < 0 || from >= writes.len() {
        Ok(accounts)
    } else {
        match write_verdict(accounts, role_schema, writes[from], host) {
            ValidationVerdict::Fail(reason) => Err(reason),
            ValidationVerdict::Pass => commit_from(
                apply_write(accounts, writes[from]),
                role_schema,
                writes,
                host,
                from + 1,
            ),
        }
    }
}

/// The accounts after all staged writes, or the first failure.
pub open spec fn commit_spec(
    accounts: Seq<AccountView>,
    role_schema: Seq<RoleSpec>,
    writes: Seq<StagedWrite>,
    host: HostContext,
) -> Result<Seq<AccountView>, ValidationError> {
    commit_from(accounts, role_schema, writes, host, 0)
}

/// What an operation comes to: the failure of its check list, else the
/// failure of its mutation, else the failure of its commit, else the
/// accounts as the commit leaves them.
pub open spec fn execution_spec(
    program: Address,
    accounts: Seq<AccountView>,
    role_schema: Seq<RoleSpec>,
    rule_set: Seq<RuleView>,
    host: HostContext,
    mutation: spec_fn(Seq<BoundAccount>) -> Result<Seq<StagedWrite>, ValidationError>,
) -> Result<Seq<AccountView>, ValidationError> {
    match validation_spec(program, accounts, role_schema, rule_set, host) {
        Err(reason) => Err(reason),
        Ok(bound) => match mutation(bound) {
            Err(reason) => Err(reason),
            Ok(writes) => commit_spec(accounts, role_schema, writes, host),
        },
    }
}

/// Whether accounts and result are as `expected` says: on a failure the
/// accounts are as they were and the result is that failure; else the
/// accounts are the expected ones and the result is `Ok`.
pub open spec fn delivers<T>(
    expected: Result<Seq<AccountView>, ValidationError>,
    before: Seq<AccountView>,
    after: Seq<AccountView>,
    result: Result<T, ValidationError>,
) -> bool {
    match expected {
        Err(reason) => result == Err::<T, ValidationError>(reason) && after == before,
        Ok(accounts) => result is Ok && after == accounts,
    }
}

/// What a mutation's outcome comes to once its staged writes have been
/// through the commit.
pub open spec fn mutation_outcome(
    accounts: Seq<AccountView>,
    role_schema: Seq<RoleSpec>,
    host: HostContext,
    staged: Result<Vec<StagedWrite>, ValidationError>,
) -> Result<Seq<AccountView>, ValidationError> {
    match staged {
        Err(reason) => Err(reason),
        Ok(writes) => commit_spec(accounts, role_schema, writes@, host),
    }
}

/// Whether what a mutation staged is what `expected` says.
pub open spec fn staged_as(
    staged: Result<Vec<StagedWrite>, ValidationError>,
    expected: Result<Seq<StagedWrite>, ValidationError>,
) -> bool {
    match staged {
        Ok(writes) => expected == Ok::<Seq<StagedWrite>, ValidationError>(writes@),
        Err(reason) => expected == Err::<Seq<StagedWrite>, ValidationError>(reason),
    }
}

/// Makes one phase's check of one role.
fn check_role(
    phase: RolePhase,
    program_id: &Address,
    handle: &AccountHandle,
    role: &RoleSpec,
    host: &HostContext,
) -> (r: ValidationVerdict)
    ensures
        r == role_verdict(phase, *program_id, handle@, *role, *host),
{
    match phase {
        RolePhase::Ownership => {
            if role.program_owned {
                verify_ownership(handle, program_id)
            } else {
                ValidationVerdict::Pass
            }
        },
        RolePhase::Signature => {
            if role.must_sign {
                verify_signer(handle)
            } else {
                ValidationVerdict::Pass
            }
        },
        RolePhase::Lifecycle => match role.record {
            RecordRequirement::Opaque => ValidationVerdict::Pass,
            RecordRequirement::Fresh => guard_initialize(handle),
            RecordRequirement::Holds(_) => require_initialized(handle),
        },
        RolePhase::Schema => match role.record {
            RecordRequirement::Holds(schema) => match decode_as(handle, schema) {
                Ok(_) => ValidationVerdict::Pass,
                Err(reason) => ValidationVerdict::Fail(reason),
            },
            _ => ValidationVerdict::Pass,
        },
        RolePhase::Viability => match role.record {
            RecordRequirement::Fresh => require_viable(handle, &host.cost_model),
            _ => ValidationVerdict::Pass,
        },
    }
}

/// Runs one phase over the bound roles and stops at the first failure.
fn run_phase(
    phase: RolePhase,
    program_id: &Address,
    accounts: &Vec<AccountHandle>,
    role_schema: &Vec<RoleSpec>,
    bindings: &Vec<RoleBinding>,
    host: &HostContext,
) -> (r: ValidationVerdict)
    requires
        role_schema@.len() <= accounts@.len(),
        bindings@ == crate::roles::bindings_spec(role_schema@),
    ensures
        r == phase_verdict(phase, *program_id, accounts.deep_view(), role_schema@, *host),
{
    let ghost verdicts = phase_verdicts(
        phase,
        *program_id,
        accounts.deep_view(),
        role_schema@,
        *host,
    );
    let mut i: usize = 0;
    while i < bindings.len()
        invariant
            0 <= i <= bindings@.len(),
            role_schema@.len() <= accounts@.len(),
            bindings@ == crate::roles::bindings_spec(role_schema@),
            verdicts == phase_verdicts(
                phase,
                *program_id,
                accounts.deep_view(),
                role_schema@,
                *host,
            ),
            first_failure(verdicts, 0) == first_failure(verdicts, i as int),
        decreases bindings@.len() - i,
    {
        let binding = bindings[i];
        let handle = &accounts[binding.account];
        let verdict = check_role(phase, program_id, handle, &binding.role, host);
        assert(verdict == verdicts[i as int]);
        match verdict {
            ValidationVerdict::Fail(_) => {
                return verdict;
            },
            ValidationVerdict::Pass => {},
        }
        i += 1;
    }
    ValidationVerdict::Pass
}

/// Runs the rules over the bound accounts and stops at the first failure.
fn run_rules(
    rule_set: &Vec<RelationshipRule>,
    program_id: &Address,
    bound: &Vec<BoundAccount>,
) -> (r: ValidationVerdict)
    ensures
        r == relationship_verdict(rule_set.deep_view(), *program_id, bound@),
{
    let ghost verdicts = rule_verdicts(rule_set.deep_view(), *program_id, bound@);
    let mut i: usize = 0;
    while i < rule_set.len()
        invariant
            0 <= i <= rule_set@.len(),
            verdicts == rule_verdicts(rule_set.deep_view(), *program_id, bound@),
            first_failure(verdicts, 0) == first_failure(verdicts, i as int),
        decreases rule_set@.len() - i,
    {
        let verdict = check_rule(&rule_set[i], program_id, bound);
        assert(verdict == verdicts[i as int]);
        match verdict {
            ValidationVerdict::Fail(_) => {
                return verdict;
            },
            ValidationVerdict::Pass => {},
        }
        i += 1;
    }
    ValidationVerdict::Pass
}

/// Reads the bound accounts off the handles.
fn bind_accounts(
    accounts: &Vec<AccountHandle>,
    bindings: &Vec<RoleBinding>,
    Ghost(role_schema): Ghost<Seq<RoleSpec>>,
) -> (r: Vec<BoundAccount>)
    requires
        role_schema.len() <= accounts@.len(),
        bindings@ == crate::roles::bindings_spec(role_schema),
    ensures
        r@ == bound_accounts_spec(accounts.deep_view(), role_schema),
{
    let mut bound: Vec<BoundAccount> = Vec::new();
    let mut i: usize = 0;
    while i < bindings.len()
        invariant
            0 <= i <= bindings@.len(),
            role_schema.len() <= accounts@.len(),
            bindings@ == crate::roles::bindings_spec(role_schema),
            bound@.len() == i,
            forall|j: int|
                0 <= j < i ==> bound@[j] == crate::roles::bound_account_spec(
                    accounts.deep_view()[j],
                    role_schema[j],
                ),
        decreases bindings@.len() - i,
    {
        let binding = bindings[i];
        bound.push(bind_account(&accounts[binding.account], &binding.role));
        i += 1;
    }
    assert(bound@ =~= bound_accounts_spec(accounts.deep_view(), role_schema));
    bound
}

/// Runs the check list of an operation: binds the roles, then checks
/// ownership, signatures, lifecycle, schemas, relationships and viability,
/// and stops at the first failure. Nothing is written.
pub fn validate(
    program_id: &Address,
    accounts: &Vec<AccountHandle>,
    role_schema: &Vec<RoleSpec>,
    rule_set: &Vec<RelationshipRule>,
    host: &HostContext,
) -> (r: Result<Vec<BoundAccount>, ValidationError>)
    ensures
        match validation_spec(
            *program_id,
            accounts.deep_view(),
            role_schema@,
            rule_set.deep_view(),
            *host,
        ) {
            Ok(bound) => r matches Ok(b) && b@ == bound,
            Err(reason) => r == Err::<Vec<BoundAccount>, ValidationError>(reason),
        },
{
    let bindings = match resolve_roles(accounts, role_schema) {
        Ok(bindings) => bindings,
        Err(reason) => {
            return Err(reason);
        },
    };
    match run_phase(RolePhase::Ownership, program_id, accounts, role_schema, &bindings, host) {
        ValidationVerdict::Fail(reason) => {
            return Err(reason);
        },
        ValidationVerdict::Pass => {},
    }
    match run_phase(RolePhase::Signature, program_id, accounts, role_schema, &bindings, host) {
        ValidationVerdict::Fail(reason) => {
            return Err(reason);
        },
        ValidationVerdict::Pass => {},
    }
    match run_phase(RolePhase::Lifecycle, program_id, accounts, role_schema, &bindings, host) {
        ValidationVerdict::Fail(reason) => {
            return Err(reason);
        },
        ValidationVerdict::Pass => {},
    }
    match run_phase(RolePhase::Schema, program_id, accounts, role_schema, &bindings, host) {
        ValidationVerdict::Fail(reason) => {
            return Err(reason);
        },
        ValidationVerdict::Pass => {},
    }
    let bound = bind_accounts(accounts, &bindings, Ghost(role_schema@));
    match run_rules(rule_set, program_id, &bound) {
        ValidationVerdict::Fail(reason) => {
            return Err(reason);
        },
        ValidationVerdict::Pass => {},
    }
    match run_phase(RolePhase::Viability, program_id, accounts, role_schema, &bindings, host) {
        ValidationVerdict::Fail(reason) => {
            return Err(reason);
        },
        ValidationVerdict::Pass => {},
    }
    Ok(bound)
}

/// A copy of a handle.
fn copy_handle(handle: &AccountHandle) -> (r: AccountHandle)
    ensures
        r@ == handle@,
{
    AccountHandle {
        address: handle.address,
        controlling_program: handle.controlling_program,
        is_signer: handle.is_signer,
        lamport_balance: handle.lamport_balance,
        data: slice_to_vec(handle.data.as_slice()),
    }
}

/// A copy of the handles, on which writes are staged.
fn copy_accounts(accounts: &Vec<AccountHandle>) -> (r: Vec<AccountHandle>)
    ensures
        r.deep_view() == accounts.deep_view(),
{
    let mut out: Vec<AccountHandle> = Vec::new();
    let mut i: usize = 0;
    while i < accounts.len()
        invariant
            0 <= i <= accounts@.len(),
            out@.len() == i,
            forall|j: int| 0 <= j < i ==> out@[j]@ == accounts@[j]@,
        decreases accounts@.len() - i,
    {
        out.push(copy_handle(&accounts[i]));
        i += 1;
    }
    assert(out.deep_view() =~= accounts.deep_view());
    out
}

/// Checks one write against the staged accounts and, where it passes,
/// applies it to them.
fn stage_write(
    staged: &mut Vec<AccountHandle>,
    role_schema: &Vec<RoleSpec>,
    write: &StagedWrite,
    host: &HostContext,
) -> (r: ValidationVerdict)
    ensures
        r == write_verdict(old(staged).deep_view(), role_schema@, *write, *host),
        r is Pass ==> final(staged).deep_view() == apply_write(old(staged).deep_view(), *write),
{
    if write.role >= role_schema.len() || write.role >= staged.len() {
        return ValidationVerdict::Fail(ValidationError::MissingAccount);
    }
    let address = staged[write.role].address;
    let controlling_program = staged[write.role].controlling_program;
    let is_signer = staged[write.role].is_signer;
    let balance = staged[write.role].lamport_balance;
    let data_length = staged[write.role].data.len();
    let data = match write.record {
        None => slice_to_vec(staged[write.role].data.as_slice()),
        Some(record) => {
            let allowed = match role_schema[write.role].record {
                RecordRequirement::Opaque => false,
                RecordRequirement::Fresh => true,
                RecordRequirement::Holds(schema) => record.kind() == schema,
            };
            let encoded = record.encode();
            if !allowed || encoded.len() != data_length {
                return ValidationVerdict::Fail(ValidationError::SchemaMismatch);
            }
            encoded
        },
    };
    if write.lamport_balance < balance && !host.cost_model.is_viable(
        write.lamport_balance,
        data_length,
    ) {
        return ValidationVerdict::Fail(ValidationError::NotStorageViable);
    }
    let handle = AccountHandle {
        address,
        controlling_program,
        is_signer,
        lamport_balance: write.lamport_balance,
        data,
    };
    staged.set(write.role, handle);
    assert(staged.deep_view() =~= apply_write(old(staged).deep_view(), *write));
    ValidationVerdict::Pass
}

/// Commits staged writes in one step. Every write is first checked and
/// applied to a copy of the accounts; the accounts themselves are replaced
/// only when every write has passed, and are untouched when one has not.
pub fn commit(
    accounts: &mut Vec<AccountHandle>,
    role_schema: &Vec<RoleSpec>,
    writes: &Vec<StagedWrite>,
    host: &HostContext,
) -> (r: Result<CommitReceipt, ValidationError>)
    ensures
        delivers(
            commit_spec(old(accounts).deep_view(), role_schema@, writes@, *host),
            old(accounts).deep_view(),
            final(accounts).deep_view(),
            r,
        ),
        r matches Ok(receipt) ==> receipt.writes == writes@.len(),
{
    let mut staged = copy_accounts(accounts);
    let mut i: usize = 0;
    while i < writes.len()
        invariant
            0 <= i <= writes@.len(),
            accounts.deep_view() == old(accounts).deep_view(),
            commit_spec(old(accounts).deep_view(), role_schema@, writes@, *host) == commit_from(
                staged.deep_view(),
                role_schema@,
                writes@,
                *host,
                i as int,
            ),
        decreases writes@.len() - i,
    {
        match stage_write(&mut staged, role_schema, &writes[i], host) {
            ValidationVerdict::Fail(reason) => {
                return Err(reason);
            },
            ValidationVerdict::Pass => {},
        }
        i += 1;
    }
    *accounts = staged;
    Ok(CommitReceipt { writes: writes.len() })
}

/// Validates an operation and, where every check passes, executes it: the
/// mutation is handed the bound accounts and stages its writes, which are
/// committed in one step. The first failure, of a check, of the mutation or
/// of the commit, is returned as it is, and leaves the accounts as they were.
pub fn validate_and_execute<M>(
    program_id: &Address,
    accounts: &mut Vec<AccountHandle>,
    role_schema: &Vec<RoleSpec>,
    rule_set: &Vec<RelationshipRule>,
    host: &HostContext,
    mutation: M,
) -> (r: Result<CommitReceipt, ValidationError>) where
    M: FnOnce(Vec<BoundAccount>) -> Result<Vec<StagedWrite>, ValidationError>,

    requires
        forall|bound: Vec<BoundAccount>|
            well_bound(bound@, role_schema@) ==> #[trigger] mutation.requires((bound,)),
    ensures
        match validation_spec(
            *program_id,
            old(accounts).deep_view(),
            role_schema@,
            rule_set.deep_view(),
            *host,
        ) {
            Err(reason) => {
                &&& r == Err::<CommitReceipt, ValidationError>(reason)
                &&& final(accounts).deep_view() == old(accounts).deep_view()
            },
            Ok(bound) => exists|
                handed: Vec<BoundAccount>,
                staged: Result<Vec<StagedWrite>, ValidationError>,
            |
                {
                    &&& handed@ == bound
                    &&& #[trigger] mutation.ensures((handed,), staged)
                    &&& delivers(
                        mutation_outcome(old(accounts).deep_view(), role_schema@, *host, staged),
                        old(accounts).deep_view(),
                        final(accounts).deep_view(),
                        r,
                    )
                    &&& r matches Ok(receipt) ==> staged matches Ok(writes) && receipt.writes
                        == writes@.len()
                },
        },
{
    let bound = match validate(program_id, accounts, role_schema, rule_set, host) {
        Ok(bound) => bound,
        Err(reason) => {
            return Err(reason);
        },
    };
    proof {
        lemma_validated_is_well_bound(
            *program_id,
            accounts.deep_view(),
            role_schema@,
            rule_set.deep_view(),
            *host,
        );
    }
    let ghost handed = bound;
    let staged = mutation(bound);
    assert(mutation.ensures((handed,), staged));
    match staged {
        Err(reason) => Err(reason),
        Ok(writes) => commit(accounts, role_schema, &writes, host),
    }
}

/// In a sequence of verdicts of which the first `at` pass, the first
/// failure is the first failure from `at` on.
pub proof fn lemma_first_failure_skips(verdicts: Seq<ValidationVerdict>, at: int)
    requires
        0 <= at <= verdicts.len(),
        forall|j: int| 0 <= j < at ==> verdicts[j] is Pass,
    ensures
        first_failure(verdicts, 0) == first_failure(verdicts, at),
    decreases at,
{
    if at > 0 {
        lemma_first_failure_skips(verdicts, at - 1);
    }
}

/// A phase that passes has passed every role.
pub proof fn lemma_first_failure_pass(verdicts: Seq<ValidationVerdict>, from: int)
    requires
        0 <= from,
        first_failure(verdicts, from) is Pass,
    ensures
        forall|j: int| from <= j < verdicts.len() ==> verdicts[j] is Pass,
    decreases verdicts.len() - from,
{
    if from < verdicts.len() {
        lemma_first_failure_pass(verdicts, from + 1);
    }
}

/// The accounts that a passed check list hands on have the shape the role
/// schema promises: a record of the declared schema for every role that
/// holds one, and none for the others.
pub proof fn lemma_validated_is_well_bound(
    program: Address,
    accounts: Seq<AccountView>,
    role_schema: Seq<RoleSpec>,
    rule_set: Seq<RuleView>,
    host: HostContext,
)
    requires
        validation_verdict(program, accounts, role_schema, rule_set, host) is Pass,
    ensures
        well_bound(bound_accounts_spec(accounts, role_schema), role_schema),
{
    let verdicts = phase_verdicts(RolePhase::Schema, program, accounts, role_schema, host);
    lemma_first_failure_pass(verdicts, 0);
    let bound = bound_accounts_spec(accounts, role_schema);
    assert forall|i: int| 0 <= i < role_schema.len() implies match (#[trigger] role_schema[i]).record {
        RecordRequirement::Holds(schema) => bound[i].record matches Some(record)
            && record.kind_spec() == schema,
        _ => bound[i].record is None,
    } by {
        assert(verdicts[i] is Pass);
    }
}

/// Whether the rule is a stored reference over bound roles whose subject
/// stores, in the rule's field, another address than that of the account
/// supplied as the target.
pub open spec fn reference_differs(rule: RuleView, bound: Seq<BoundAccount>) -> bool {
    match rule {
        RuleView::StoredReference { subject_role, field, target_role } => {
            &&& subject_role < bound.len()
            &&& target_role < bound.len()
            &&& match bound[subject_role as int].record {
                Some(record) => match record.reference_spec(field) {
                    Some(stored) => stored != bound[target_role as int].address,
                    None => false,
                },
                None => false,
            }
        },
        _ => false,
    }
}

/// The checks are independent: where a rule's stored reference differs
/// from the address of the account supplied for it, the operation fails with
/// `AccountMismatch`, though ownership, signatures, lifecycle and schemas
/// have all passed and every rule before it holds.
pub proof fn lemma_mismatch_fires(
    program: Address,
    accounts: Seq<AccountView>,
    role_schema: Seq<RoleSpec>,
    rule_set: Seq<RuleView>,
    host: HostContext,
    at: int,
)
    requires
        role_schema.len() <= accounts.len(),
        phase_verdict(RolePhase::Ownership, program, accounts, role_schema, host) is Pass,
        phase_verdict(RolePhase::Signature, program, accounts, role_schema, host) is Pass,
        phase_verdict(RolePhase::Lifecycle, program, accounts, role_schema, host) is Pass,
        phase_verdict(RolePhase::Schema, program, accounts, role_schema, host) is Pass,
        0 <= at < rule_set.len(),
        forall|j: int|
            0 <= j < at ==> rule_verdict(
                #[trigger] rule_set[j],
                program,
                bound_accounts_spec(accounts, role_schema),
            ) is Pass,
        reference_differs(rule_set[at], bound_accounts_spec(accounts, role_schema)),
    ensures
        validation_verdict(program, accounts, role_schema, rule_set, host)
            == ValidationVerdict::Fail(ValidationError::AccountMismatch),
{
    let bound = bound_accounts_spec(accounts, role_schema);
    let verdicts = rule_verdicts(rule_set, program, bound);
    assert forall|j: int| 0 <= j < at implies verdicts[j] is Pass by {
        assert(rule_verdict(rule_set[j], program, bound) is Pass);
    }
    lemma_first_failure_skips(verdicts, at);
    assert(verdicts[at] == ValidationVerdict::Fail(ValidationError::AccountMismatch));
}

} // verus!

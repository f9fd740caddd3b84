//! A transfer between two accounts: nothing leaves an account whose holder
//! has not signed.
use crate::account::{AccountHandle, AccountView, HostContext};
use crate::address::Address;
use crate::arithmetic::{add_spec, checked_add, checked_sub, sub_spec};
use crate::error::ValidationError;
use crate::instruction::{amount_spec, read_amount};
use crate::pipeline::{delivers, execution_spec, staged_as, validate_and_execute, StagedWrite};
use crate::relationship::{RelationshipRule, RuleView};
use crate::roles::{well_bound, BoundAccount, RecordRequirement, RoleSpec};
use vstd::prelude::*;

verus! {

/// The roles of the transfer: the user, who pays, and the destination.
pub open spec fn transfer_roles() -> Seq<RoleSpec> {
    seq![
        RoleSpec {
            name: "user",
            program_owned: false,
            must_sign: true,
            record: RecordRequirement::Opaque,
        },
        RoleSpec {
            name: "destination",
            program_owned: false,
            must_sign: false,
            record: RecordRequirement::Opaque,
        },
    ]
}

/// What the transfer stages: the amount leaves the user's account for
/// the destination. `ArithmeticUnderflow` where the user holds less than the
/// amount, `ArithmeticOverflow` where the destination cannot hold the sum.
pub open spec fn transfer_mutation(bound: Seq<BoundAccount>, amount: u64) -> Result<
    Seq<StagedWrite>,
    ValidationError,
> {
    match sub_spec(bound[0].lamport_balance, amount) {
        Err(reason) => Err(reason),
        Ok(remaining) => match add_spec(bound[1].lamport_balance, amount) {
            Err(reason) => Err(reason),
            Ok(credited) => Ok(
                seq![
                    StagedWrite { role: 0, lamport_balance: remaining, record: None },
                    StagedWrite { role: 1, lamport_balance: credited, record: None },
                ],
            ),
        },
    }
}

/// What the transfer comes to.
pub open spec fn transfer_spec(
    program: Address,
    accounts: Seq<AccountView>,
    instruction_data: Seq<u8>,
    host: HostContext,
) -> Result<Seq<AccountView>, ValidationError> {
    execution_spec(
        program,
        accounts,
        transfer_roles(),
        Seq::<RuleView>::empty(),
        host,
        |bound: Seq<BoundAccount>| transfer_mutation(bound, amount_spec(instruction_data)),
    )
}

fn transfer_role_schema() -> (r: Vec<RoleSpec>)
    ensures
        r@ == transfer_roles(),
{
    let mut roles: Vec<RoleSpec> = Vec::new();
    roles.push(RoleSpec::signer("user"));
    roles.push(RoleSpec::plain("destination"));
    assert(roles@ =~= transfer_roles());
    roles
}

fn stage_transfer(bound: Vec<BoundAccount>, amount: u64) -> (staged: Result<
    Vec<StagedWrite>,
    ValidationError,
>)
    requires
        well_bound(bound@, transfer_roles()),
    ensures
        staged_as(staged, transfer_mutation(bound@, amount)),
{
    let remaining = match checked_sub(bound[0].lamport_balance, amount) {
        Ok(difference) => difference,
        Err(reason) => {
            return Err(reason);
        },
    };
    let credited = match checked_add(bound[1].lamport_balance, amount) {
        Ok(sum) => sum,
        Err(reason) => {
            return Err(reason);
        },
    };
    let mut writes: Vec<StagedWrite> = Vec::new();
    writes.push(StagedWrite { role: 0, lamport_balance: remaining, record: None });
    writes.push(StagedWrite { role: 1, lamport_balance: credited, record: None });
    assert(writes@ =~= transfer_mutation(bound@, amount)->Ok_0);
    Ok(writes)
}

/// Transfers the amount that leads the instruction data from the user's
/// account to the destination. The user must have signed.
pub fn process_instruction(
    program_id: &Address,
    accounts: &mut Vec<AccountHandle>,
    instruction_data: &[u8],
    host: &HostContext,
) -> (r: Result<(), ValidationError>)
    requires
        instruction_data@.len() >= 8,
    ensures
        delivers(
            transfer_spec(*program_id, old(accounts).deep_view(), instruction_data@, *host),
            old(accounts).deep_view(),
            final(accounts).deep_view(),
            r,
        ),
{
    let amount = read_amount(instruction_data);
    let roles = transfer_role_schema();
    let rules: Vec<RelationshipRule> = Vec::new();
    let mutation = |bound: Vec<BoundAccount>| -> (staged: Result<Vec<StagedWrite>, ValidationError>)
        requires
            well_bound(bound@, transfer_roles()),
        ensures
            staged_as(staged, transfer_mutation(bound@, amount)),
        { stage_transfer(bound, amount) };
    assert(rules.deep_view() =~= Seq::<RuleView>::empty());
    match validate_and_execute(program_id, accounts, &roles, &rules, host, mutation) {
        Ok(_) => Ok(()),
        Err(reason) => Err(reason),
    }
}

} // verus!

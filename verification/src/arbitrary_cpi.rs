//! A call into another program on a user's behalf: the program to call is
//! not the caller's to choose freely. It is held against the programs that
//! this program allows before a call is built.
use crate::account::{AccountHandle, AccountView, HostContext};
use crate::address::Address;
use crate::error::ValidationError;
use crate::pipeline::{validate, validation_spec};
use crate::relationship::{RelationshipRule, RuleView};
use crate::roles::{RecordRequirement, RoleSpec};
use vstd::prelude::*;
use vstd::slice::slice_to_vec;

verus! {

/// How a called program may use one account.
#[derive(Clone, Copy, Debug, PartialEq, Eq)]
pub struct AccountMeta {
    pub address: Address,
    pub is_signer: bool,
    pub is_writable: bool,
}

/// A call into another program, for the host to make.
#[derive(Clone, Debug, PartialEq, Eq)]
pub struct CrossProgramCall {
    /// The program to call.
    pub program_id: Address,
    /// The accounts handed to it.
    pub accounts: Vec<AccountMeta>,
    /// The instruction data handed to it.
    pub data: Vec<u8>,
}

/// The mathematical value of a call.
pub struct CrossProgramCallView {
    pub program_id: Address,
    pub accounts: Seq<AccountMeta>,
    pub data: Seq<u8>,
}

impl View for CrossProgramCall {
    type V = CrossProgramCallView;

    open spec fn view(&self) -> CrossProgramCallView {
        CrossProgramCallView {
            program_id: self.program_id,
            accounts: self.accounts@,
            data: self.data@,
        }
    }
}

/// The address of the system program: 32 zero bytes.
pub open spec fn system_program_spec() -> Address {
    crate::codec::spec_address_from_bytes(Seq::new(32, |i: int| 0u8))
}

/// The programs that may be called: the system program.
pub open spec fn allowed_programs_spec() -> Seq<Address> {
    seq![system_program_spec()]
}

/// The roles of the call: the user, the program to call, the account to
/// hand to it.
pub open spec fn call_roles() -> Seq<RoleSpec> {
    seq![
        RoleSpec {
            name: "user",
            program_owned: false,
            must_sign: true,
            record: RecordRequirement::Opaque,
        },
        RoleSpec {
            name: "target_program",
            program_owned: false,
            must_sign: false,
            record: RecordRequirement::Opaque,
        },
        RoleSpec {
            name: "target_account",
            program_owned: false,
            must_sign: false,
            record: RecordRequirement::Opaque,
        },
    ]
}

/// The call that is built: the target program, the user as a writable
/// signer, the target account as writable, and the instruction data as it
/// stands.
pub open spec fn call_view(
    accounts: Seq<AccountView>,
    instruction_data: Seq<u8>,
) -> CrossProgramCallView {
    CrossProgramCallView {
        program_id: accounts[1].address,
        accounts: seq![
            AccountMeta { address: accounts[0].address, is_signer: true, is_writable: true },
            AccountMeta { address: accounts[2].address, is_signer: false, is_writable: true },
        ],
        data: instruction_data,
    }
}

/// What the call comes to: the first failure of the checks, else
/// `InvalidInstruction` where the target program is not an allowed one,
/// else the call.
pub open spec fn call_spec(
    program: Address,
    accounts: Seq<AccountView>,
    instruction_data: Seq<u8>,
    host: HostContext,
) -> Result<CrossProgramCallView, ValidationError> {
    match validation_spec(program, accounts, call_roles(), Seq::<RuleView>::empty(), host) {
        Err(reason) => Err(reason),
        Ok(_) => if allowed_programs_spec().contains(accounts[1].address) {
            Ok(call_view(accounts, instruction_data))
        } else {
            Err(ValidationError::InvalidInstruction)
        },
    }
}

/// The address of the system program.
pub fn system_program() -> (r: Address)
    ensures
        r == system_program_spec(),
{
    let address = Address::new([0u8; 32]);
    proof {
        assert(address@ =~= Seq::new(32, |i: int| 0u8));
        crate::codec::lemma_address_from_bytes(address);
    }
    address
}

/// The programs that may be called.
pub fn allowed_programs() -> (r: Vec<Address>)
    ensures
        r@ == allowed_programs_spec(),
{
    let mut allowed: Vec<Address> = Vec::new();
    allowed.push(system_program());
    assert(allowed@ =~= allowed_programs_spec());
    allowed
}

/// Whether `program` is one of the allowed programs.
pub fn is_allowed(program: &Address) -> (r: bool)
    ensures
        r == allowed_programs_spec().contains(*program),
{
    let allowed = allowed_programs();
    let mut i: usize = 0;
    while i < allowed.len()
        invariant
            0 <= i <= allowed@.len(),
            allowed@ == allowed_programs_spec(),
            forall|j: int| 0 <= j < i ==> allowed@[j] != *program,
        decreases allowed@.len() - i,
    {
        proof {
            if allowed@[i as int]@ == program@ {
                crate::address::lemma_address_ext(allowed@[i as int], *program);
            }
        }
        if allowed[i] == *program {
            return true;
        }
        i += 1;
    }
    false
}

fn call_role_schema() -> (r: Vec<RoleSpec>)
    ensures
        r@ == call_roles(),
{
    let mut roles: Vec<RoleSpec> = Vec::new();
    roles.push(RoleSpec::signer("user"));
    roles.push(RoleSpec::plain("target_program"));
    roles.push(RoleSpec::plain("target_account"));
    assert(roles@ =~= call_roles());
    roles
}

/// Builds a call into the program in the second account, for the user
/// in the first, who has signed, on the third account, with the instruction
/// data as it stands. A target program that is not allowed is refused with
/// `InvalidInstruction`. The call is returned for the host to make; nothing
/// is written here.
pub fn process_instruction(
    program_id: &Address,
    accounts: &Vec<AccountHandle>,
    instruction_data: &[u8],
    host: &HostContext,
) -> (r: Result<CrossProgramCall, ValidationError>)
    ensures
        match call_spec(*program_id, accounts.deep_view(), instruction_data@, *host) {
            Ok(call) => r matches Ok(built) && built@ == call,
            Err(reason) => r == Err::<CrossProgramCall, ValidationError>(reason),
        },
{
    let roles = call_role_schema();
    let rules: Vec<RelationshipRule> = Vec::new();
    assert(rules.deep_view() =~= Seq::<RuleView>::empty());
    match validate(program_id, accounts, &roles, &rules, host) {
        Ok(_) => {},
        Err(reason) => {
            return Err(reason);
        },
    }
    if !is_allowed(&accounts[1].address) {
        return Err(ValidationError::InvalidInstruction);
    }
    let mut metas: Vec<AccountMeta> = Vec::new();
    metas.push(AccountMeta { address: accounts[0].address, is_signer: true, is_writable: true });
    metas.push(AccountMeta { address: accounts[2].address, is_signer: false, is_writable: true });
    let call = CrossProgramCall {
        program_id: accounts[1].address,
        accounts: metas,
        data: slice_to_vec(instruction_data),
    };
    assert(call@.accounts =~= call_view(accounts.deep_view(), instruction_data@).accounts);
    Ok(call)
}

} // verus!

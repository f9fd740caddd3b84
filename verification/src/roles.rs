//! The role resolver. An operation declares its roles in order; the
//! resolver binds the supplied account handles to them by position and checks
//! nothing else.
use crate::account::{AccountHandle, AccountView};
use crate::address::Address;
use crate::error::ValidationError;
use crate::schema::{decode_as, decode_spec, SchemaKind, TypedRecord};
use vstd::prelude::*;

verus! {

/// What a role requires of the record in the account bound to it.
#[derive(Clone, Copy, Debug, PartialEq, Eq, Structural)]
pub enum RecordRequirement {
    /// The account's data is not read.
    Opaque,
    /// The account is not initialized yet: the operation initializes it.
    Fresh,
    /// The account holds an initialized record of this schema.
    Holds(SchemaKind),
}

/// One role of an operation and the facts it requires.
#[derive(Clone, Copy, Debug, PartialEq, Eq)]
pub struct RoleSpec {
    /// The name of the role.
    pub name: &'static str,
    /// Whether the executing program must control the account.
    pub program_owned: bool,
    /// Whether the account must have signed.
    pub must_sign: bool,
    /// What the account's data must hold.
    pub record: RecordRequirement,
}

/// A role bound to the account handle at the same position.
#[derive(Clone, Copy, Debug, PartialEq, Eq)]
pub struct RoleBinding {
    /// The role.
    pub role: RoleSpec,
    /// The position of the handle bound to it.
    pub account: usize,
}

/// What the validator hands on of the account bound to a role: its
/// identity, its balance, the length of its data and, for a role that holds
/// a record, the decoded record.
#[derive(Clone, Copy, Debug, PartialEq, Eq)]
pub struct BoundAccount {
    pub address: Address,
    pub lamport_balance: u64,
    pub data_length: usize,
    pub record: Option<TypedRecord>,
}

impl RoleSpec {
    /// A role whose account is neither read nor required to sign.
    pub fn plain(name: &'static str) -> (r: RoleSpec)
        ensures
            r == (RoleSpec {
                name,
                program_owned: false,
                must_sign: false,
                record: RecordRequirement::Opaque,
            }),
    {
        RoleSpec { name, program_owned: false, must_sign: false, record: RecordRequirement::Opaque }
    }

    /// A role whose account must have signed.
    pub fn signer(name: &'static str) -> (r: RoleSpec)
        ensures
            r == (RoleSpec {
                name,
                program_owned: false,
                must_sign: true,
                record: RecordRequirement::Opaque,
            }),
    {
        RoleSpec { name, program_owned: false, must_sign: true, record: RecordRequirement::Opaque }
    }

    /// A role whose account the program controls and which holds a record
    /// of `schema`.
    pub fn holding(name: &'static str, schema: SchemaKind) -> (r: RoleSpec)
        ensures
            r == (RoleSpec {
                name,
                program_owned: true,
                must_sign: false,
                record: RecordRequirement::Holds(schema),
            }),
    {
        RoleSpec {
            name,
            program_owned: true,
            must_sign: false,
            record: RecordRequirement::Holds(schema),
        }
    }

    /// A role whose account the program controls and which the operation
    /// initializes.
    pub fn fresh(name: &'static str) -> (r: RoleSpec)
        ensures
            r == (RoleSpec {
                name,
                program_owned: true,
                must_sign: false,
                record: RecordRequirement::Fresh,
            }),
    {
        RoleSpec { name, program_owned: true, must_sign: false, record: RecordRequirement::Fresh }
    }
}

/// The bindings of a role schema: role `i` is bound to handle `i`.
pub open spec fn bindings_spec(role_schema: Seq<RoleSpec>) -> Seq<RoleBinding> {
    Seq::new(role_schema.len(), |i: int| RoleBinding { role: role_schema[i], account: i as usize })
}

/// What the resolver returns: `MissingAccount` where fewer handles are
/// supplied than the schema has roles, else the bindings.
pub open spec fn resolve_spec(accounts: Seq<AccountView>, role_schema: Seq<RoleSpec>) -> Result<
    Seq<RoleBinding>,
    ValidationError,
> {
    if accounts.len() < role_schema.len() {
        Err(ValidationError::MissingAccount)
    } else {
        Ok(bindings_spec(role_schema))
    }
}

/// Binds the handles to the roles of the schema by position. Handles
/// beyond the last role stay unbound.
pub fn resolve_roles(accounts: &Vec<AccountHandle>, role_schema: &Vec<RoleSpec>) -> (r: Result<
    Vec<RoleBinding>,
    ValidationError,
>)
    ensures
        match resolve_spec(accounts.deep_view(), role_schema@) {
            Ok(bindings) => r matches Ok(bound) && bound@ == bindings,
            Err(reason) => r == Err::<Vec<RoleBinding>, ValidationError>(reason),
        },
{
    if accounts.len() < role_schema.len() {
        return Err(ValidationError::MissingAccount);
    }
    let mut bound: Vec<RoleBinding> = Vec::new();
    let mut i: usize = 0;
    while i < role_schema.len()
        invariant
            0 <= i <= role_schema.len(),
            bound@.len() == i,
            forall|j: int|
                0 <= j < i ==> bound@[j] == (RoleBinding {
                    role: role_schema@[j],
                    account: j as usize,
                }),
        decreases role_schema.len() - i,
    {
        bound.push(RoleBinding { role: role_schema[i], account: i });
        i += 1;
    }
    assert(bound@ =~= bindings_spec(role_schema@));
    Ok(bound)
}

/// The record that a role's requirement reads out of account data: the
/// decoded record for a role that holds one, where it decodes, and none
/// otherwise.
pub open spec fn bound_record_spec(data: Seq<u8>, requirement: RecordRequirement) -> Option<
    TypedRecord,
> {
    match requirement {
        RecordRequirement::Holds(schema) => match decode_spec(data, schema) {
            Ok(record) => Some(record),
            Err(_) => None,
        },
        _ => None,
    }
}

/// The bound account of one role.
pub open spec fn bound_account_spec(account: AccountView, role: RoleSpec) -> BoundAccount {
    BoundAccount {
        address: account.address,
        lamport_balance: account.lamport_balance,
        data_length: account.data.len() as usize,
        record: bound_record_spec(account.data, role.record),
    }
}

/// The bound accounts of a role schema, one for each role.
pub open spec fn bound_accounts_spec(accounts: Seq<AccountView>, role_schema: Seq<RoleSpec>) -> Seq<
    BoundAccount,
> {
    Seq::new(role_schema.len(), |i: int| bound_account_spec(accounts[i], role_schema[i]))
}

/// Whether bound accounts have the shape that a role schema promises: one
/// for each role, with a record of the role's schema exactly where the role
/// holds one.
pub open spec fn well_bound(bound: Seq<BoundAccount>, role_schema: Seq<RoleSpec>) -> bool {
    &&& bound.len() == role_schema.len()
    &&& forall|i: int|
        0 <= i < role_schema.len() ==> match (#[trigger] role_schema[i]).record {
            RecordRequirement::Holds(schema) => bound[i].record matches Some(record)
                && record.kind_spec() == schema,
            _ => bound[i].record is None,
        }
}

/// Reads the bound account of one role off its handle.
pub fn bind_account(handle: &AccountHandle, role: &RoleSpec) -> (r: BoundAccount)
    ensures
        r == bound_account_spec(handle@, *role),
{
    let record = match role.record {
        RecordRequirement::Holds(schema) => match decode_as(handle, schema) {
            Ok(record) => Some(record),
            Err(_) => None,
        },
        _ => None,
    };
    BoundAccount {
        address: handle.address,
        lamport_balance: handle.lamport_balance,
        data_length: handle.data.len(),
        record,
    }
}

} // verus!

use account_guard::account::{AccountHandle, HostContext};
use account_guard::address::Address;
use account_guard::error::ValidationError;
use account_guard::missing_owner_check::VaultData;
use account_guard::pipeline::{commit, validate, validate_and_execute, CommitReceipt, StagedWrite};
use account_guard::relationship::{ReferenceField, RelationshipRule, Seed};
use account_guard::roles::{BoundAccount, RoleSpec};
use account_guard::schema::{SchemaKind, TypedRecord};
use account_guard::type_confusion::UserAccount;
use account_guard::viability::CostModel;

fn address(byte: u8) -> Address {
    Address::new([byte; 32])
}

fn program() -> Address {
    address(100)
}

fn host() -> HostContext {
    HostContext { cost_model: CostModel { lamports_per_byte: 1 }, now: 1_000_000 }
}

fn vault_record(balance: u64) -> TypedRecord {
    TypedRecord::VaultData(VaultData { authority: address(2), balance })
}

fn vault(balance: u64) -> AccountHandle {
    AccountHandle {
        address: address(1),
        controlling_program: program(),
        is_signer: false,
        lamport_balance: 5_000,
        data: vault_record(balance).encode(),
    }
}

fn wallet(byte: u8, balance: u64, signed: bool) -> AccountHandle {
    AccountHandle {
        address: address(byte),
        controlling_program: address(0),
        is_signer: signed,
        lamport_balance: balance,
        data: Vec::new(),
    }
}

fn accounts() -> Vec<AccountHandle> {
    vec![vault(700), wallet(2, 1_000, true), wallet(3, 0, false)]
}

fn roles() -> Vec<RoleSpec> {
    vec![
        RoleSpec::holding("vault", SchemaKind::VaultData),
        RoleSpec::signer("authority"),
        RoleSpec::plain("recipient"),
    ]
}

fn rules() -> Vec<RelationshipRule> {
    vec![RelationshipRule::StoredReference {
        subject_role: 0,
        field: ReferenceField::Authority,
        target_role: 1,
    }]
}

#[test]
fn validation_hands_on_the_bound_accounts() {
    let bound = validate(&program(), &accounts(), &roles(), &rules(), &host()).unwrap();
    assert_eq!(
        bound,
        vec![
            BoundAccount {
                address: address(1),
                lamport_balance: 5_000,
                data_length: 48,
                record: Some(vault_record(700)),
            },
            BoundAccount { address: address(2), lamport_balance: 1_000, data_length: 0, record: None },
            BoundAccount { address: address(3), lamport_balance: 0, data_length: 0, record: None },
        ]
    );
}

#[test]
fn checks_run_in_their_order() {
    let validate_on = |accounts: &Vec<AccountHandle>| {
        validate(&program(), accounts, &roles(), &rules(), &host()).map(|_| ())
    };
    // Everything is wrong at once; the failures surface one by one as they are mended.
    let mut broken = accounts();
    broken[0].controlling_program = address(66);
    broken[0].data = vec![0u8; 48];
    broken[1].is_signer = false;
    broken[1].address = address(9);
    assert_eq!(validate_on(&broken[..2].to_vec()), Err(ValidationError::MissingAccount));
    assert_eq!(validate_on(&broken), Err(ValidationError::IncorrectOwner));
    broken[0].controlling_program = program();
    assert_eq!(validate_on(&broken), Err(ValidationError::MissingSignature));
    broken[1].is_signer = true;
    assert_eq!(validate_on(&broken), Err(ValidationError::NotInitialized));
    broken[0].data = TypedRecord::UserAccount(UserAccount {
        owner: address(2),
        balance: 0,
        rewards: 0,
    })
    .encode();
    assert_eq!(validate_on(&broken), Err(ValidationError::SchemaMismatch));
    broken[0].data = vault_record(700).encode();
    assert_eq!(validate_on(&broken), Err(ValidationError::AccountMismatch));
    broken[1].address = address(2);
    assert_eq!(validate_on(&broken), Ok(()));
}

#[test]
fn fresh_role_must_be_uninitialized_and_viable() {
    let schema = vec![RoleSpec::fresh("vault"), RoleSpec::signer("authority")];
    let no_rules = Vec::new();
    let mut accounts = accounts();
    assert_eq!(
        validate(&program(), &accounts, &schema, &no_rules, &host()),
        Err(ValidationError::AlreadyInitialized)
    );
    accounts[0].data = vec![0u8; 48];
    accounts[0].lamport_balance = 175;
    assert_eq!(
        validate(&program(), &accounts, &schema, &no_rules, &host()),
        Err(ValidationError::NotStorageViable)
    );
    accounts[0].lamport_balance = 176;
    assert!(validate(&program(), &accounts, &schema, &no_rules, &host()).is_ok());
}

#[test]
fn rule_over_an_unbound_role_is_a_missing_account() {
    let out_of_range = vec![RelationshipRule::StoredReference {
        subject_role: 0,
        field: ReferenceField::Authority,
        target_role: 3,
    }];
    assert_eq!(
        validate(&program(), &accounts(), &roles(), &out_of_range, &host()),
        Err(ValidationError::MissingAccount)
    );
    let seed_out_of_range = vec![RelationshipRule::DerivedAddress {
        target_role: 0,
        seeds: vec![Seed::Bytes(vec![1]), Seed::AddressOf(7)],
        bump: None,
    }];
    assert_eq!(
        validate(&program(), &accounts(), &roles(), &seed_out_of_range, &host()),
        Err(ValidationError::MissingAccount)
    );
}

#[test]
fn rule_over_a_record_without_the_field_is_a_mismatch() {
    let no_such_field = vec![RelationshipRule::StoredReference {
        subject_role: 0,
        field: ReferenceField::Beneficiary,
        target_role: 1,
    }];
    assert_eq!(
        validate(&program(), &accounts(), &roles(), &no_such_field, &host()),
        Err(ValidationError::AccountMismatch)
    );
    let no_record = vec![RelationshipRule::StoredReference {
        subject_role: 1,
        field: ReferenceField::Owner,
        target_role: 1,
    }];
    assert_eq!(
        validate(&program(), &accounts(), &roles(), &no_record, &host()),
        Err(ValidationError::AccountMismatch)
    );
}

#[test]
fn mismatch_fires_though_every_other_check_passes() {
    let mut substituted = accounts();
    substituted[1].address = address(9);
    let before = substituted.clone();
    let r = validate_and_execute(
        &program(),
        &mut substituted,
        &roles(),
        &rules(),
        &host(),
        |_bound: Vec<BoundAccount>| -> Result<Vec<StagedWrite>, ValidationError> {
            panic!("the mutation must not run")
        },
    );
    assert_eq!(r, Err(ValidationError::AccountMismatch));
    assert_eq!(substituted, before);
    // With the account the vault names, the same operation passes.
    let mut matching = accounts();
    let r = validate_and_execute(
        &program(),
        &mut matching,
        &roles(),
        &rules(),
        &host(),
        |_bound: Vec<BoundAccount>| Ok(Vec::new()),
    );
    assert_eq!(r, Ok(CommitReceipt { writes: 0 }));
}

#[test]
fn commit_writes_balances_and_records() {
    let mut state = accounts();
    let writes = vec![
        StagedWrite { role: 0, lamport_balance: 4_000, record: Some(vault_record(0)) },
        StagedWrite { role: 2, lamport_balance: 1_000, record: None },
    ];
    assert_eq!(commit(&mut state, &roles(), &writes, &host()), Ok(CommitReceipt { writes: 2 }));
    let mut expected = accounts();
    expected[0].lamport_balance = 4_000;
    expected[0].data = vault_record(0).encode();
    expected[2].lamport_balance = 1_000;
    assert_eq!(state, expected);
}

#[test]
fn later_write_to_a_role_wins() {
    let mut state = accounts();
    let writes = vec![
        StagedWrite { role: 2, lamport_balance: 10, record: None },
        StagedWrite { role: 2, lamport_balance: 20, record: None },
    ];
    assert_eq!(commit(&mut state, &roles(), &writes, &host()), Ok(CommitReceipt { writes: 2 }));
    assert_eq!(state[2].lamport_balance, 20);
}

#[test]
fn failed_commit_writes_nothing() {
    let cases = vec![
        (
            vec![
                StagedWrite { role: 2, lamport_balance: 9, record: None },
                StagedWrite { role: 3, lamport_balance: 1, record: None },
            ],
            ValidationError::MissingAccount,
        ),
        (
            vec![
                StagedWrite { role: 2, lamport_balance: 9, record: None },
                StagedWrite { role: 2, lamport_balance: 1, record: Some(vault_record(1)) },
            ],
            ValidationError::SchemaMismatch,
        ),
        (
            vec![StagedWrite {
                role: 0,
                lamport_balance: 5_000,
                record: Some(TypedRecord::UserAccount(UserAccount {
                    owner: address(2),
                    balance: 0,
                    rewards: 0,
                })),
            }],
            ValidationError::SchemaMismatch,
        ),
        (
            vec![
                StagedWrite { role: 2, lamport_balance: 9, record: None },
                StagedWrite { role: 0, lamport_balance: 175, record: None },
            ],
            ValidationError::NotStorageViable,
        ),
        (
            vec![StagedWrite { role: 1, lamport_balance: 127, record: None }],
            ValidationError::NotStorageViable,
        ),
    ];
    for (writes, reason) in cases {
        let mut state = accounts();
        assert_eq!(commit(&mut state, &roles(), &writes, &host()), Err(reason));
        assert_eq!(state, accounts());
    }
}

#[test]
fn debit_down_to_the_minimum_is_committed() {
    let mut state = accounts();
    let writes = vec![
        StagedWrite { role: 0, lamport_balance: 176, record: None },
        StagedWrite { role: 1, lamport_balance: 128, record: None },
    ];
    assert_eq!(commit(&mut state, &roles(), &writes, &host()), Ok(CommitReceipt { writes: 2 }));
    assert_eq!(state[0].lamport_balance, 176);
    assert_eq!(state[1].lamport_balance, 128);
}

#[test]
fn record_on_a_fresh_role_must_fit_the_account() {
    let schema = vec![RoleSpec::fresh("vault")];
    let mut state = vec![vault(0)];
    state[0].data = vec![0u8; 47];
    let before = state.clone();
    let writes = vec![StagedWrite { role: 0, lamport_balance: 5_000, record: Some(vault_record(1)) }];
    assert_eq!(
        commit(&mut state, &schema, &writes, &host()),
        Err(ValidationError::SchemaMismatch)
    );
    assert_eq!(state, before);
    state[0].data = vec![0u8; 48];
    assert_eq!(commit(&mut state, &schema, &writes, &host()), Ok(CommitReceipt { writes: 1 }));
    assert_eq!(state[0].data, vault_record(1).encode());
}

#[test]
fn failed_mutation_writes_nothing() {
    let mut state = accounts();
    let r = validate_and_execute(
        &program(),
        &mut state,
        &roles(),
        &rules(),
        &host(),
        |_bound: Vec<BoundAccount>| Err(ValidationError::InsufficientFunds),
    );
    assert_eq!(r, Err(ValidationError::InsufficientFunds));
    assert_eq!(state, accounts());
}

#[test]
fn mutation_sees_decoded_records_and_its_writes_are_committed() {
    let mut state = accounts();
    let r = validate_and_execute(
        &program(),
        &mut state,
        &roles(),
        &rules(),
        &host(),
        |bound: Vec<BoundAccount>| {
            let vault = match bound[0].record {
                Some(TypedRecord::VaultData(vault)) => vault,
                _ => return Err(ValidationError::SchemaMismatch),
            };
            Ok(vec![
                StagedWrite {
                    role: 0,
                    lamport_balance: bound[0].lamport_balance - 700,
                    record: Some(TypedRecord::VaultData(VaultData { balance: 0, ..vault })),
                },
                StagedWrite {
                    role: 2,
                    lamport_balance: bound[2].lamport_balance + vault.balance,
                    record: None,
                },
            ])
        },
    );
    assert_eq!(r, Ok(CommitReceipt { writes: 2 }));
    assert_eq!(state[0].lamport_balance, 4_300);
    assert_eq!(state[0].data, vault_record(0).encode());
    assert_eq!(state[2].lamport_balance, 700);
    assert_eq!(state[1], accounts()[1]);
}

use account_guard::account::AccountHandle;
use account_guard::address::Address;
use account_guard::authority::{verify_ownership, verify_signer};
use account_guard::error::{ValidationError, ValidationVerdict};
use account_guard::lifecycle::{guard_initialize, is_initialized, require_initialized};
use account_guard::relationship::verify_relationship;
use account_guard::roles::{resolve_roles, RoleBinding, RoleSpec};
use account_guard::schema::SchemaKind;
use account_guard::viability::{compute_withdrawable, require_viable, CostModel};
use solana_program::rent::Rent;

fn address(byte: u8) -> Address {
    Address::new([byte; 32])
}

fn account(balance: u64, data: Vec<u8>) -> AccountHandle {
    AccountHandle {
        address: address(1),
        controlling_program: address(2),
        is_signer: true,
        lamport_balance: balance,
        data,
    }
}

#[test]
fn verdict_converts_to_result() {
    assert!(ValidationVerdict::Pass.is_pass());
    assert!(!ValidationVerdict::Fail(ValidationError::MissingAccount).is_pass());
    assert_eq!(ValidationVerdict::Pass.into_result(), Ok(()));
    assert_eq!(
        ValidationVerdict::Fail(ValidationError::DivisionByZero).into_result(),
        Err(ValidationError::DivisionByZero)
    );
}

#[test]
fn ownership_is_held_against_the_expected_program() {
    let handle = account(0, Vec::new());
    assert_eq!(verify_ownership(&handle, &address(2)), ValidationVerdict::Pass);
    assert_eq!(
        verify_ownership(&handle, &address(3)),
        ValidationVerdict::Fail(ValidationError::IncorrectOwner)
    );
    let mut nearly = [2u8; 32];
    nearly[31] = 3;
    assert_eq!(
        verify_ownership(&handle, &Address::new(nearly)),
        ValidationVerdict::Fail(ValidationError::IncorrectOwner)
    );
}

#[test]
fn signer_must_have_signed() {
    let mut handle = account(0, Vec::new());
    assert_eq!(verify_signer(&handle), ValidationVerdict::Pass);
    handle.is_signer = false;
    assert_eq!(
        verify_signer(&handle),
        ValidationVerdict::Fail(ValidationError::MissingSignature)
    );
}

#[test]
fn stored_reference_is_held_against_the_supplied_account() {
    let handle = account(0, Vec::new());
    assert_eq!(verify_relationship(&address(1), &handle), ValidationVerdict::Pass);
    assert_eq!(
        verify_relationship(&address(9), &handle),
        ValidationVerdict::Fail(ValidationError::AccountMismatch)
    );
}

#[test]
fn zero_discriminant_means_uninitialized() {
    let fresh = account(0, vec![0u8; 49]);
    assert!(!is_initialized(&fresh));
    assert_eq!(guard_initialize(&fresh), ValidationVerdict::Pass);
    assert_eq!(
        require_initialized(&fresh),
        ValidationVerdict::Fail(ValidationError::NotInitialized)
    );
    let tiny = account(0, vec![1u8; 7]);
    assert!(!is_initialized(&tiny));
    assert_eq!(guard_initialize(&tiny), ValidationVerdict::Pass);
}

#[test]
fn nonzero_discriminant_means_initialized() {
    let mut data = vec![0u8; 49];
    data[7] = 1;
    let used = account(0, data);
    assert!(is_initialized(&used));
    assert_eq!(
        guard_initialize(&used),
        ValidationVerdict::Fail(ValidationError::AlreadyInitialized)
    );
    assert_eq!(require_initialized(&used), ValidationVerdict::Pass);
}

#[test]
fn minimum_balance_is_rate_times_length_plus_overhead() {
    let cost = CostModel { lamports_per_byte: 5 };
    assert_eq!(cost.minimum_balance(50), Some(890));
    assert_eq!(cost.minimum_balance(0), Some(640));
    assert_eq!(CostModel { lamports_per_byte: 0 }.minimum_balance(1_000), Some(0));
    for (rate, length) in [(1u64, 0usize), (6_960, 80), (3, 10_485_760), (1_759_197_129_867, 1)] {
        assert_eq!(
            CostModel { lamports_per_byte: rate }.minimum_balance(length),
            Some(Rent::with_lamports_per_byte(rate).minimum_balance(length))
        );
    }
}

#[test]
fn minimum_balance_out_of_range_is_none() {
    assert_eq!(CostModel { lamports_per_byte: 1 }.minimum_balance(10_485_761), None);
    assert_eq!(CostModel { lamports_per_byte: 1_759_197_129_868 }.minimum_balance(0), None);
    assert_eq!(
        CostModel { lamports_per_byte: 1_759_197_129_867 }.minimum_balance(10_485_760),
        Some(18_446_744_073_706_816_896)
    );
    let cost = CostModel { lamports_per_byte: u64::MAX };
    assert!(!cost.is_viable(u64::MAX, 0));
    assert_eq!(cost.withdrawable(u64::MAX, 0), 0);
}

#[test]
fn viability_is_balance_against_minimum() {
    let cost = CostModel { lamports_per_byte: 5 };
    assert_eq!(require_viable(&account(890, vec![0; 50]), &cost), ValidationVerdict::Pass);
    assert_eq!(
        require_viable(&account(889, vec![0; 50]), &cost),
        ValidationVerdict::Fail(ValidationError::NotStorageViable)
    );
    assert_eq!(
        require_viable(&account(0, Vec::new()), &cost),
        ValidationVerdict::Fail(ValidationError::NotStorageViable)
    );
}

#[test]
fn withdrawable_leaves_the_minimum() {
    let cost = CostModel { lamports_per_byte: 5 };
    let handle = account(1_000, vec![0; 50]);
    let withdrawable = compute_withdrawable(&handle, &cost);
    assert_eq!(withdrawable, 110);
    assert!(handle.lamport_balance - withdrawable >= 890);
    assert_eq!(compute_withdrawable(&account(890, vec![0; 50]), &cost), 0);
    assert_eq!(compute_withdrawable(&account(100, vec![0; 50]), &cost), 0);
}

#[test]
fn withdrawable_never_takes_a_viable_account_under_its_minimum() {
    for rate in [0u64, 1, 5, 6_960] {
        let cost = CostModel { lamports_per_byte: rate };
        for length in [0usize, 1, 50, 80, 1_000] {
            let minimum = cost.minimum_balance(length).unwrap();
            for balance in [0u64, minimum / 2, minimum, minimum + 1, minimum * 3 + 7, u64::MAX] {
                let withdrawable = cost.withdrawable(balance, length);
                assert!(withdrawable <= balance);
                if balance >= minimum {
                    assert_eq!(balance - withdrawable, minimum);
                } else {
                    assert_eq!(withdrawable, 0);
                }
            }
        }
    }
}

#[test]
fn roles_are_bound_by_position() {
    let accounts = vec![account(0, Vec::new()), account(1, Vec::new()), account(2, Vec::new())];
    let schema = vec![
        RoleSpec::holding("vault", SchemaKind::VaultData),
        RoleSpec::signer("authority"),
    ];
    let bound = resolve_roles(&accounts, &schema).unwrap();
    assert_eq!(
        bound,
        vec![
            RoleBinding { role: schema[0], account: 0 },
            RoleBinding { role: schema[1], account: 1 },
        ]
    );
    assert_eq!(bound[0].role.name, "vault");
    assert!(bound[0].role.program_owned);
    assert!(bound[1].role.must_sign);
    assert_eq!(resolve_roles(&accounts, &Vec::new()), Ok(Vec::new()));
}

#[test]
fn too_few_accounts_is_a_missing_account() {
    let accounts = vec![account(0, Vec::new())];
    let schema = vec![RoleSpec::plain("from"), RoleSpec::fresh("to")];
    assert_eq!(resolve_roles(&accounts, &schema), Err(ValidationError::MissingAccount));
    assert_eq!(resolve_roles(&Vec::new(), &schema), Err(ValidationError::MissingAccount));
}

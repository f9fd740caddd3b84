use account_guard::account::{AccountHandle, HostContext};
use account_guard::account_data_matching::{EscrowAccount, TokenVault, UserProfile};
use account_guard::address::Address;
use account_guard::arbitrary_cpi::{AccountMeta, CrossProgramCall};
use account_guard::arithmetic_errors::{StakingOutcome, StakingPool, UserStake};
use account_guard::error::ValidationError;
use account_guard::missing_owner_check::VaultData;
use account_guard::reinitialization::VaultConfig;
use account_guard::schema::{decode_as, SchemaKind, TypedRecord};
use account_guard::type_confusion::{AdminAccount, UserAccount};
use account_guard::viability::CostModel;
use account_guard::{
    account_data_matching, arbitrary_cpi, arithmetic_errors, missing_owner_check,
    missing_signer_check, pda_issues, reinitialization, rent_exemption, type_confusion,
};
use solana_program::pubkey::Pubkey;

fn address(byte: u8) -> Address {
    Address::new([byte; 32])
}

fn program() -> Address {
    address(100)
}

fn host() -> HostContext {
    HostContext { cost_model: CostModel { lamports_per_byte: 1 }, now: 1_000_000 }
}

fn owned(byte: u8, balance: u64, record: TypedRecord) -> AccountHandle {
    AccountHandle {
        address: address(byte),
        controlling_program: program(),
        is_signer: false,
        lamport_balance: balance,
        data: record.encode(),
    }
}

fn blank(byte: u8, balance: u64, length: usize) -> AccountHandle {
    AccountHandle {
        address: address(byte),
        controlling_program: program(),
        is_signer: false,
        lamport_balance: balance,
        data: vec![0u8; length],
    }
}

fn wallet(byte: u8, balance: u64, signed: bool) -> AccountHandle {
    AccountHandle {
        address: address(byte),
        controlling_program: address(0),
        is_signer: signed,
        lamport_balance: balance,
        data: Vec::new(),
    }
}

fn amount(value: u64) -> Vec<u8> {
    value.to_le_bytes().to_vec()
}

fn selected(selector: u8, arguments: &[u8]) -> Vec<u8> {
    let mut data = vec![selector];
    data.extend_from_slice(arguments);
    data
}

// ---- staking ----

fn pool(total_staked: u64, reward_rate: u64) -> TypedRecord {
    TypedRecord::StakingPool(StakingPool { total_staked, reward_rate, last_update: 5 })
}

fn user_stake(amount: u64, last_claim: i64) -> TypedRecord {
    TypedRecord::UserStake(UserStake { amount, last_claim })
}

fn staking(total_staked: u64, staked: u64, last_claim: i64) -> Vec<AccountHandle> {
    vec![
        owned(1, 1_000, pool(total_staked, 1)),
        owned(2, 1_000, user_stake(staked, last_claim)),
        wallet(3, 1_000, true),
        wallet(4, 0, false),
    ]
}

#[test]
fn stake_adds_to_pool_and_stake() {
    let mut accounts = staking(1_000, 10, 0);
    assert_eq!(arithmetic_errors::stake(&program(), &mut accounts, &amount(50), &host()), Ok(()));
    let mut expected = staking(1_000, 10, 0);
    expected[0].data = pool(1_050, 1).encode();
    expected[1].data = user_stake(60, 0).encode();
    assert_eq!(accounts, expected);
}

#[test]
fn stake_near_the_maximum_overflows_and_writes_nothing() {
    let mut accounts = staking(u64::MAX - 100, 10, 0);
    assert_eq!(
        arithmetic_errors::stake(&program(), &mut accounts, &amount(200), &host()),
        Err(ValidationError::ArithmeticOverflow)
    );
    assert_eq!(accounts, staking(u64::MAX - 100, 10, 0));
    // The pool fits, the stake does not: the pool is not written either.
    let mut accounts = staking(0, u64::MAX, 0);
    assert_eq!(
        arithmetic_errors::stake(&program(), &mut accounts, &amount(1), &host()),
        Err(ValidationError::ArithmeticOverflow)
    );
    assert_eq!(accounts, staking(0, u64::MAX, 0));
}

#[test]
fn stake_passes_every_check_first() {
    let run = |accounts: &mut Vec<AccountHandle>| {
        let before = accounts.clone();
        let r = arithmetic_errors::stake(&program(), accounts, &amount(50), &host());
        assert_eq!(*accounts, before);
        r
    };
    let mut accounts = staking(1_000, 10, 0);
    accounts.truncate(2);
    assert_eq!(run(&mut accounts), Err(ValidationError::MissingAccount));
    let mut accounts = staking(1_000, 10, 0);
    accounts[1].controlling_program = address(66);
    assert_eq!(run(&mut accounts), Err(ValidationError::IncorrectOwner));
    let mut accounts = staking(1_000, 10, 0);
    accounts[2].is_signer = false;
    assert_eq!(run(&mut accounts), Err(ValidationError::MissingSignature));
    let mut accounts = staking(1_000, 10, 0);
    accounts[0].data = vec![0u8; 32];
    assert_eq!(run(&mut accounts), Err(ValidationError::NotInitialized));
    let mut accounts = staking(1_000, 10, 0);
    accounts[1].data = pool(1, 1).encode();
    assert_eq!(run(&mut accounts), Err(ValidationError::SchemaMismatch));
}

#[test]
fn rewards_multiply_before_they_divide() {
    // A stake of 10 in a pool of 1,000,000 over 1,000,000 seconds at rate 1.
    let accounts = staking(1_000_000, 10, 0);
    assert_eq!(
        arithmetic_errors::calculate_rewards(&program(), &accounts, &[], &host()),
        Ok(10)
    );
    let accounts = staking(3, 2, 999_990);
    assert_eq!(arithmetic_errors::calculate_rewards(&program(), &accounts, &[], &host()), Ok(6));
}

#[test]
fn rewards_fail_on_time_product_and_denominator() {
    let accounts = staking(1_000_000, 10, 1_000_001);
    assert_eq!(
        arithmetic_errors::calculate_rewards(&program(), &accounts, &[], &host()),
        Err(ValidationError::InvalidTimestamp)
    );
    let accounts = staking(0, 10, 0);
    assert_eq!(
        arithmetic_errors::calculate_rewards(&program(), &accounts, &[], &host()),
        Err(ValidationError::DivisionByZero)
    );
    let accounts = staking(1, u64::MAX, 0);
    assert_eq!(
        arithmetic_errors::calculate_rewards(&program(), &accounts, &[], &host()),
        Err(ValidationError::ArithmeticOverflow)
    );
    let mut accounts = staking(1, 1, 0);
    accounts[0].data = pool(1, u64::MAX).encode();
    assert_eq!(
        arithmetic_errors::calculate_rewards(&program(), &accounts, &[], &host()),
        Err(ValidationError::ArithmeticOverflow)
    );
    let mut accounts = staking(1, 1, 0);
    accounts.truncate(3);
    assert_eq!(
        arithmetic_errors::calculate_rewards(&program(), &accounts, &[], &host()),
        Err(ValidationError::MissingAccount)
    );
}

fn transfer_accounts(from: u64, to: u64) -> Vec<AccountHandle> {
    vec![wallet(1, from, false), wallet(2, to, false), wallet(3, 0, true)]
}

#[test]
fn transfer_moves_the_amount() {
    let mut accounts = transfer_accounts(1_000, 5);
    assert_eq!(
        arithmetic_errors::vulnerable_transfer(&program(), &mut accounts, &amount(150), &host()),
        Ok(())
    );
    assert_eq!(accounts, transfer_accounts(850, 155));
}

#[test]
fn transfer_of_more_than_is_held_is_refused() {
    let mut accounts = transfer_accounts(100, 5);
    assert_eq!(
        arithmetic_errors::vulnerable_transfer(&program(), &mut accounts, &amount(150), &host()),
        Err(ValidationError::InsufficientFunds)
    );
    assert_eq!(accounts, transfer_accounts(100, 5));
}

#[test]
fn transfer_fails_without_change() {
    let cases = vec![
        (transfer_accounts(1_000, u64::MAX), 150, ValidationError::ArithmeticOverflow),
        (transfer_accounts(1_000, 5), 873, ValidationError::NotStorageViable),
        (transfer_accounts(1_000, 5), 1_000, ValidationError::NotStorageViable),
    ];
    for (before, value, reason) in cases {
        let mut accounts = before.clone();
        assert_eq!(
            arithmetic_errors::vulnerable_transfer(&program(), &mut accounts, &amount(value), &host()),
            Err(reason)
        );
        assert_eq!(accounts, before);
    }
    let mut accounts = transfer_accounts(1_000, 5);
    accounts[2].is_signer = false;
    assert_eq!(
        arithmetic_errors::vulnerable_transfer(&program(), &mut accounts, &amount(1), &host()),
        Err(ValidationError::MissingSignature)
    );
    let mut accounts = transfer_accounts(1_000, 5);
    assert_eq!(
        arithmetic_errors::vulnerable_transfer(&program(), &mut accounts, &amount(872), &host()),
        Ok(())
    );
    assert_eq!(accounts, transfer_accounts(128, 877));
}

#[test]
fn staking_program_dispatches_on_the_selector() {
    let mut accounts = staking(1_000, 10, 0);
    assert_eq!(
        arithmetic_errors::process_instruction(
            &program(),
            &mut accounts,
            &selected(0, &amount(50)),
            &host()
        ),
        Ok(StakingOutcome::Staked)
    );
    assert_eq!(accounts[0].data, pool(1_050, 1).encode());
    let mut accounts = staking(1_000_000, 10, 0);
    assert_eq!(
        arithmetic_errors::process_instruction(&program(), &mut accounts, &[1], &host()),
        Ok(StakingOutcome::Reward(10))
    );
    assert_eq!(accounts, staking(1_000_000, 10, 0));
    let mut accounts = transfer_accounts(1_000, 5);
    assert_eq!(
        arithmetic_errors::process_instruction(
            &program(),
            &mut accounts,
            &selected(2, &amount(150)),
            &host()
        ),
        Ok(StakingOutcome::Transferred)
    );
    assert_eq!(accounts, transfer_accounts(850, 155));
    for selector in [3u8, 9, 255] {
        let mut accounts = staking(1_000, 10, 0);
        assert_eq!(
            arithmetic_errors::process_instruction(
                &program(),
                &mut accounts,
                &selected(selector, &amount(50)),
                &host()
            ),
            Err(ValidationError::InvalidInstruction)
        );
        assert_eq!(accounts, staking(1_000, 10, 0));
    }
}

// ---- escrow ----

fn escrow_record(amount: u64, release_time: i64) -> TypedRecord {
    TypedRecord::EscrowAccount(EscrowAccount { beneficiary: address(13), amount, release_time })
}

fn escrow_accounts(release_time: i64) -> Vec<AccountHandle> {
    vec![
        owned(
            11,
            1_000,
            TypedRecord::UserProfile(UserProfile {
                owner: address(14),
                escrow_account: address(12),
                total_deposits: 100,
            }),
        ),
        owned(12, 2_000, escrow_record(1_000, release_time)),
        wallet(13, 7, false),
        wallet(14, 0, true),
    ]
}

#[test]
fn escrow_is_released_to_its_beneficiary() {
    let mut accounts = escrow_accounts(999_999);
    assert_eq!(
        account_data_matching::process_instruction(&program(), &mut accounts, &[], &host()),
        Ok(())
    );
    let mut expected = escrow_accounts(999_999);
    expected[1].lamport_balance = 1_000;
    expected[1].data = escrow_record(0, 999_999).encode();
    expected[2].lamport_balance = 1_007;
    assert_eq!(accounts, expected);
}

#[test]
fn escrow_before_its_time_is_not_released() {
    let mut accounts = escrow_accounts(1_000_001);
    assert_eq!(
        account_data_matching::process_instruction(&program(), &mut accounts, &[], &host()),
        Err(ValidationError::InvalidTimestamp)
    );
    assert_eq!(accounts, escrow_accounts(1_000_001));
    let mut accounts = escrow_accounts(1_000_000);
    assert_eq!(
        account_data_matching::process_instruction(&program(), &mut accounts, &[], &host()),
        Ok(())
    );
}

#[test]
fn substituted_escrow_account_is_a_mismatch() {
    // Another escrow of the program, ready for release, in place of the profile's own.
    let mut accounts = escrow_accounts(0);
    accounts[1].address = address(55);
    let before = accounts.clone();
    assert_eq!(
        account_data_matching::process_instruction(&program(), &mut accounts, &[], &host()),
        Err(ValidationError::AccountMismatch)
    );
    assert_eq!(accounts, before);
}

#[test]
fn substituted_beneficiary_is_a_mismatch() {
    let mut accounts = escrow_accounts(0);
    accounts[2] = wallet(66, 7, false);
    let before = accounts.clone();
    assert_eq!(
        account_data_matching::process_instruction(&program(), &mut accounts, &[], &host()),
        Err(ValidationError::AccountMismatch)
    );
    assert_eq!(accounts, before);
}

#[test]
fn signer_who_does_not_own_the_profile_is_a_mismatch() {
    let mut accounts = escrow_accounts(0);
    accounts[3] = wallet(66, 0, true);
    assert_eq!(
        account_data_matching::process_instruction(&program(), &mut accounts, &[], &host()),
        Err(ValidationError::AccountMismatch)
    );
}

#[test]
fn escrow_release_fails_without_change() {
    let mut unsigned = escrow_accounts(0);
    unsigned[3].is_signer = false;
    let mut foreign = escrow_accounts(0);
    foreign[1].controlling_program = address(66);
    let mut underfunded = escrow_accounts(0);
    underfunded[1].lamport_balance = 999;
    let mut full = escrow_accounts(0);
    full[2].lamport_balance = u64::MAX;
    let mut drained = escrow_accounts(0);
    drained[1].lamport_balance = 1_100;
    let cases = vec![
        (unsigned, ValidationError::MissingSignature),
        (foreign, ValidationError::IncorrectOwner),
        (underfunded, ValidationError::ArithmeticUnderflow),
        (full, ValidationError::ArithmeticOverflow),
        (drained, ValidationError::NotStorageViable),
    ];
    for (before, reason) in cases {
        let mut accounts = before.clone();
        assert_eq!(
            account_data_matching::process_instruction(&program(), &mut accounts, &[], &host()),
            Err(reason)
        );
        assert_eq!(accounts, before);
    }
}

fn token_accounts() -> Vec<AccountHandle> {
    vec![
        owned(
            21,
            1_000,
            TypedRecord::TokenVault(TokenVault { authority: address(23), token_account: address(22) }),
        ),
        wallet(22, 0, false),
        wallet(23, 0, true),
    ]
}

#[test]
fn token_withdrawal_wants_the_vaults_own_token_account() {
    assert_eq!(
        account_data_matching::vulnerable_token_withdraw(&program(), &token_accounts(), &[], &host()),
        Ok(())
    );
    let mut accounts = token_accounts();
    accounts[1].address = address(66);
    assert_eq!(
        account_data_matching::vulnerable_token_withdraw(&program(), &accounts, &[], &host()),
        Err(ValidationError::AccountMismatch)
    );
    let mut accounts = token_accounts();
    accounts[2].address = address(66);
    assert_eq!(
        account_data_matching::vulnerable_token_withdraw(&program(), &accounts, &[], &host()),
        Err(ValidationError::AccountMismatch)
    );
    let mut accounts = token_accounts();
    accounts[2].is_signer = false;
    assert_eq!(
        account_data_matching::vulnerable_token_withdraw(&program(), &accounts, &[], &host()),
        Err(ValidationError::MissingSignature)
    );
    let mut accounts = token_accounts();
    accounts[0].controlling_program = address(66);
    assert_eq!(
        account_data_matching::vulnerable_token_withdraw(&program(), &accounts, &[], &host()),
        Err(ValidationError::IncorrectOwner)
    );
}

// ---- vault withdrawal ----

fn vault_accounts(balance: u64) -> Vec<AccountHandle> {
    vec![
        owned(31, 5_000, TypedRecord::VaultData(VaultData { authority: address(32), balance })),
        wallet(32, 0, true),
        wallet(33, 1, false),
    ]
}

#[test]
fn vault_withdrawal_moves_the_amount() {
    let mut accounts = vault_accounts(700);
    assert_eq!(
        missing_owner_check::process_instruction(&program(), &mut accounts, &amount(300), &host()),
        Ok(())
    );
    let mut expected = vault_accounts(400);
    expected[0].lamport_balance = 4_700;
    expected[2].lamport_balance = 301;
    assert_eq!(accounts, expected);
}

#[test]
fn forged_vault_is_refused_before_it_is_read() {
    // An account the attacker controls, with a record that names the attacker.
    let mut accounts = vault_accounts(1_000_000);
    accounts[0].controlling_program = address(32);
    let before = accounts.clone();
    assert_eq!(
        missing_owner_check::process_instruction(&program(), &mut accounts, &amount(300), &host()),
        Err(ValidationError::IncorrectOwner)
    );
    assert_eq!(accounts, before);
    // Not even garbage in it changes the answer: it is never decoded.
    accounts[0].data = vec![0xEE; 3];
    assert_eq!(
        missing_owner_check::process_instruction(&program(), &mut accounts, &amount(300), &host()),
        Err(ValidationError::IncorrectOwner)
    );
}

#[test]
fn vault_withdrawal_fails_without_change() {
    let mut unsigned = vault_accounts(700);
    unsigned[1].is_signer = false;
    let mut stranger = vault_accounts(700);
    stranger[1].address = address(66);
    let mut poor = vault_accounts(700);
    poor[0].lamport_balance = 299;
    let cases = vec![
        (unsigned, 300, ValidationError::MissingSignature),
        (stranger, 300, ValidationError::AccountMismatch),
        (vault_accounts(700), 701, ValidationError::ArithmeticUnderflow),
        (poor, 300, ValidationError::ArithmeticUnderflow),
        (vault_accounts(5_000), 4_900, ValidationError::NotStorageViable),
    ];
    for (before, value, reason) in cases {
        let mut accounts = before.clone();
        assert_eq!(
            missing_owner_check::process_instruction(
                &program(),
                &mut accounts,
                &amount(value),
                &host()
            ),
            Err(reason)
        );
        assert_eq!(accounts, before);
    }
}

// ---- signed transfer ----

#[test]
fn transfer_wants_the_payers_signature() {
    let before = vec![wallet(41, 1_000, false), wallet(42, 0, false)];
    let mut accounts = before.clone();
    assert_eq!(
        missing_signer_check::process_instruction(&program(), &mut accounts, &amount(10), &host()),
        Err(ValidationError::MissingSignature)
    );
    assert_eq!(accounts, before);
    accounts[0].is_signer = true;
    assert_eq!(
        missing_signer_check::process_instruction(&program(), &mut accounts, &amount(10), &host()),
        Ok(())
    );
    assert_eq!(accounts, vec![wallet(41, 990, true), wallet(42, 10, false)]);
}

#[test]
fn signed_transfer_fails_without_change() {
    let cases = vec![
        (vec![wallet(41, 1_000, true)], 10, ValidationError::MissingAccount),
        (
            vec![wallet(41, 1_000, true), wallet(42, 0, false)],
            1_001,
            ValidationError::ArithmeticUnderflow,
        ),
        (
            vec![wallet(41, 1_000, true), wallet(42, u64::MAX, false)],
            1,
            ValidationError::ArithmeticOverflow,
        ),
        (
            vec![wallet(41, 1_000, true), wallet(42, 0, false)],
            900,
            ValidationError::NotStorageViable,
        ),
    ];
    for (before, value, reason) in cases {
        let mut accounts = before.clone();
        assert_eq!(
            missing_signer_check::process_instruction(
                &program(),
                &mut accounts,
                &amount(value),
                &host()
            ),
            Err(reason)
        );
        assert_eq!(accounts, before);
    }
}

// ---- derived accounts ----

fn derived(seeds: &[&[u8]]) -> (Address, u8) {
    let (key, bump) = Pubkey::find_program_address(seeds, &Pubkey::new_from_array(program().bytes));
    (Address::new(key.to_bytes()), bump)
}

fn derived_accounts(balance: u64) -> Vec<AccountHandle> {
    let user = address(51);
    let (pda, _) = derived(&[b"user_data", &user.bytes]);
    let mut data_account = owned(
        0,
        5_000,
        TypedRecord::DerivedUserData(pda_issues::UserData { owner: user, balance }),
    );
    data_account.address = pda;
    vec![wallet(51, 0, true), data_account, wallet(53, 0, false)]
}

#[test]
fn withdrawal_from_the_users_derived_account() {
    let mut accounts = derived_accounts(700);
    assert_eq!(
        pda_issues::process_instruction(&program(), &mut accounts, &amount(300), &host()),
        Ok(())
    );
    let mut expected = derived_accounts(400);
    expected[1].lamport_balance = 4_700;
    expected[2].lamport_balance = 300;
    assert_eq!(accounts, expected);
}

#[test]
fn account_derived_from_other_seeds_is_refused() {
    // The program's account, naming the user, but at an address of other seeds.
    let mut accounts = derived_accounts(700);
    accounts[1].address = derived(&[b"malicious_seeds", &[52u8; 32]]).0;
    let before = accounts.clone();
    assert_eq!(
        pda_issues::process_instruction(&program(), &mut accounts, &amount(300), &host()),
        Err(ValidationError::InvalidDerivedAddress)
    );
    assert_eq!(accounts, before);
}

#[test]
fn derived_withdrawal_fails_without_change() {
    let mut unsigned = derived_accounts(700);
    unsigned[0].is_signer = false;
    let mut foreign = derived_accounts(700);
    foreign[1].controlling_program = address(66);
    let mut other_owner = derived_accounts(700);
    other_owner[1].data = TypedRecord::DerivedUserData(pda_issues::UserData {
        owner: address(66),
        balance: 700,
    })
    .encode();
    let mut poor = derived_accounts(700);
    poor[1].lamport_balance = 299;
    let cases = vec![
        (unsigned, 300, ValidationError::MissingSignature),
        (foreign, 300, ValidationError::IncorrectOwner),
        (other_owner, 300, ValidationError::AccountMismatch),
        (derived_accounts(700), 701, ValidationError::InsufficientFunds),
        (poor, 300, ValidationError::ArithmeticUnderflow),
    ];
    for (before, value, reason) in cases {
        let mut accounts = before.clone();
        assert_eq!(
            pda_issues::process_instruction(&program(), &mut accounts, &amount(value), &host()),
            Err(reason)
        );
        assert_eq!(accounts, before);
    }
}

#[test]
fn supplied_bump_must_be_the_canonical_one() {
    let (pda, bump) = derived(&[b"vault"]);
    let mut account = wallet(0, 0, false);
    account.address = pda;
    assert_eq!(
        pda_issues::vulnerable_with_bump(&program(), &vec![account.clone()], &[bump], &host()),
        Ok(())
    );
    // A lower bump that derives an address, with that address supplied.
    let key = Pubkey::new_from_array(program().bytes);
    let mut lower = bump;
    let lower_address = loop {
        lower -= 1;
        if let Ok(found) = Pubkey::create_program_address(&[b"vault", &[lower]], &key) {
            break Address::new(found.to_bytes());
        }
    };
    let mut smuggled = account.clone();
    smuggled.address = lower_address;
    assert_eq!(
        pda_issues::vulnerable_with_bump(&program(), &vec![smuggled], &[lower], &host()),
        Err(ValidationError::NonCanonicalBump)
    );
    // The canonical address with another bump, and another address with the canonical bump.
    assert_eq!(
        pda_issues::vulnerable_with_bump(&program(), &vec![account.clone()], &[lower], &host()),
        Err(ValidationError::InvalidDerivedAddress)
    );
    assert_eq!(
        pda_issues::vulnerable_with_bump(&program(), &vec![wallet(9, 0, false)], &[bump], &host()),
        Err(ValidationError::InvalidDerivedAddress)
    );
    assert_eq!(
        pda_issues::vulnerable_with_bump(&program(), &Vec::new(), &[bump], &host()),
        Err(ValidationError::MissingAccount)
    );
}

// ---- vault setup ----

fn config(authority: u8, total_deposited: u64, fee_percentage: u8) -> TypedRecord {
    TypedRecord::VaultConfig(VaultConfig {
        authority: address(authority),
        total_deposited,
        fee_percentage,
    })
}

fn setup_accounts(authority: u8) -> Vec<AccountHandle> {
    vec![blank(61, 1_000, 49), wallet(authority, 2_000, true)]
}

#[test]
fn vault_is_initialized_once() {
    let mut accounts = setup_accounts(62);
    assert_eq!(reinitialization::initialize(&program(), &mut accounts, &[1], &host()), Ok(()));
    assert_eq!(accounts[0].data, config(62, 0, 1).encode());
    assert_eq!(accounts[0].lamport_balance, 1_000);
    assert_eq!(accounts[1], wallet(62, 2_000, true));

    // The attacker signs and asks for the vault a second time.
    accounts[1] = wallet(66, 2_000, true);
    let before = accounts.clone();
    assert_eq!(
        reinitialization::initialize(&program(), &mut accounts, &[99], &host()),
        Err(ValidationError::AlreadyInitialized)
    );
    assert_eq!(accounts, before);
    assert_eq!(decode_as(&accounts[0], SchemaKind::VaultConfig), Ok(config(62, 0, 1)));
}

#[test]
fn deposits_survive_a_second_initialize() {
    let mut accounts = setup_accounts(62);
    assert_eq!(
        reinitialization::process_instruction(&program(), &mut accounts, &[0, 1], &host()),
        Ok(())
    );
    assert_eq!(
        reinitialization::process_instruction(
            &program(),
            &mut accounts,
            &selected(1, &amount(100)),
            &host()
        ),
        Ok(())
    );
    assert_eq!(accounts[0].data, config(62, 100, 1).encode());
    assert_eq!(accounts[0].lamport_balance, 1_100);
    assert_eq!(accounts[1].lamport_balance, 1_900);
    let before = accounts.clone();
    assert_eq!(
        reinitialization::process_instruction(&program(), &mut accounts, &[0, 99], &host()),
        Err(ValidationError::AlreadyInitialized)
    );
    assert_eq!(accounts, before);
    assert_eq!(
        reinitialization::process_instruction(&program(), &mut accounts, &[2, 0], &host()),
        Err(ValidationError::InvalidInstruction)
    );
    assert_eq!(accounts, before);
}

#[test]
fn vault_setup_fails_without_change() {
    let mut foreign = setup_accounts(62);
    foreign[0].controlling_program = address(66);
    let mut unsigned = setup_accounts(62);
    unsigned[1].is_signer = false;
    let mut poor = setup_accounts(62);
    poor[0].lamport_balance = 176;
    let mut short = setup_accounts(62);
    short[0].data = vec![0u8; 48];
    let mut long = setup_accounts(62);
    long[0].data = vec![0u8; 50];
    let cases = vec![
        (vec![blank(61, 1_000, 49)], ValidationError::MissingAccount),
        (foreign, ValidationError::IncorrectOwner),
        (unsigned, ValidationError::MissingSignature),
        (poor, ValidationError::NotStorageViable),
        (short, ValidationError::SchemaMismatch),
        (long, ValidationError::SchemaMismatch),
    ];
    for (before, reason) in cases {
        let mut accounts = before.clone();
        assert_eq!(
            reinitialization::initialize(&program(), &mut accounts, &[1], &host()),
            Err(reason)
        );
        assert_eq!(accounts, before);
    }
}

#[test]
fn deposit_wants_an_initialized_vault() {
    let mut accounts = setup_accounts(62);
    assert_eq!(
        reinitialization::deposit(&program(), &mut accounts, &amount(100), &host()),
        Err(ValidationError::NotInitialized)
    );
    assert_eq!(accounts, setup_accounts(62));
    let deposit_on = |total: u64, vault: u64, user: u64, value: u64| {
        let before = vec![owned(61, vault, config(62, total, 1)), wallet(63, user, true)];
        let mut accounts = before.clone();
        let r = reinitialization::deposit(&program(), &mut accounts, &amount(value), &host());
        if r.is_err() {
            assert_eq!(accounts, before);
        }
        (r, accounts)
    };
    assert_eq!(deposit_on(u64::MAX, 0, 1_000, 1).0, Err(ValidationError::ArithmeticOverflow));
    assert_eq!(deposit_on(0, u64::MAX, 1_000, 1).0, Err(ValidationError::ArithmeticOverflow));
    assert_eq!(deposit_on(0, 0, 1_000, 1_001).0, Err(ValidationError::ArithmeticUnderflow));
    assert_eq!(deposit_on(0, 0, 1_000, 900).0, Err(ValidationError::NotStorageViable));
    let (r, after) = deposit_on(5, 10, 1_000, 800);
    assert_eq!(r, Ok(()));
    assert_eq!(after, vec![owned(61, 810, config(62, 805, 1)), wallet(63, 200, true)]);
}

// ---- user data ----

fn user_data(owner: u8) -> TypedRecord {
    TypedRecord::UserData(rent_exemption::UserData {
        owner: address(owner),
        balance: 0,
        metadata: [0u8; 32],
    })
}

#[test]
fn user_data_is_set_up_only_with_a_viable_balance() {
    let before = vec![blank(71, 207, 80), wallet(72, 0, true)];
    let mut accounts = before.clone();
    assert_eq!(
        rent_exemption::initialize(&program(), &mut accounts, &[], &host()),
        Err(ValidationError::NotStorageViable)
    );
    assert_eq!(accounts, before);
    accounts[0].lamport_balance = 208;
    assert_eq!(rent_exemption::initialize(&program(), &mut accounts, &[], &host()), Ok(()));
    assert_eq!(accounts, vec![owned(71, 208, user_data(72)), wallet(72, 0, true)]);
    assert_eq!(
        rent_exemption::initialize(&program(), &mut accounts, &[], &host()),
        Err(ValidationError::AlreadyInitialized)
    );
}

fn withdraw_accounts(balance: u64) -> Vec<AccountHandle> {
    vec![owned(71, balance, user_data(72)), wallet(72, 0, true), wallet(73, 5, false)]
}

#[test]
fn withdrawal_leaves_the_minimum_behind() {
    let mut accounts = withdraw_accounts(1_000);
    assert_eq!(rent_exemption::withdraw_all(&program(), &mut accounts, &[], &host()), Ok(()));
    let mut expected = withdraw_accounts(208);
    expected[2].lamport_balance = 797;
    assert_eq!(accounts, expected);
    assert!(accounts[0].lamport_balance >= host().cost_model.minimum_balance(80).unwrap());
    // Nothing more can leave.
    assert_eq!(
        rent_exemption::withdraw_all(&program(), &mut accounts, &[], &host()),
        Err(ValidationError::InsufficientFunds)
    );
    assert_eq!(accounts, expected);
}

#[test]
fn user_data_withdrawal_fails_without_change() {
    let mut stranger = withdraw_accounts(1_000);
    stranger[1].address = address(66);
    let mut unsigned = withdraw_accounts(1_000);
    unsigned[1].is_signer = false;
    let mut full = withdraw_accounts(1_000);
    full[2].lamport_balance = u64::MAX;
    let cases = vec![
        (stranger, ValidationError::AccountMismatch),
        (unsigned, ValidationError::MissingSignature),
        (full, ValidationError::ArithmeticOverflow),
        (withdraw_accounts(100), ValidationError::InsufficientFunds),
    ];
    for (before, reason) in cases {
        let mut accounts = before.clone();
        assert_eq!(
            rent_exemption::process_instruction(&program(), &mut accounts, &[1], &host()),
            Err(reason)
        );
        assert_eq!(accounts, before);
    }
    let mut accounts = withdraw_accounts(1_000);
    assert_eq!(
        rent_exemption::process_instruction(&program(), &mut accounts, &[7], &host()),
        Err(ValidationError::InvalidInstruction)
    );
    let mut accounts = vec![blank(71, 208, 80), wallet(72, 0, true)];
    assert_eq!(
        rent_exemption::process_instruction(&program(), &mut accounts, &[0], &host()),
        Ok(())
    );
    assert_eq!(accounts[0].data, user_data(72).encode());
}

// ---- user and admin accounts ----

fn user_account(balance: u64, rewards: u64) -> TypedRecord {
    TypedRecord::UserAccount(UserAccount { owner: address(82), balance, rewards })
}

fn admin_account(admin_level: u64) -> TypedRecord {
    TypedRecord::AdminAccount(AdminAccount { owner: address(82), balance: 100, admin_level })
}

#[test]
fn user_withdrawal_lowers_the_balance() {
    let mut accounts = vec![owned(81, 500, user_account(100, 20)), wallet(82, 0, true)];
    assert_eq!(
        type_confusion::withdraw_user(&program(), &mut accounts, &amount(30), &host()),
        Ok(())
    );
    assert_eq!(accounts, vec![owned(81, 500, user_account(70, 20)), wallet(82, 0, true)]);
    // Beyond the balance but within balance and rewards: the balance saturates.
    assert_eq!(
        type_confusion::withdraw_user(&program(), &mut accounts, &amount(90), &host()),
        Ok(())
    );
    assert_eq!(accounts[0].data, user_account(0, 20).encode());
    let before = accounts.clone();
    assert_eq!(
        type_confusion::withdraw_user(&program(), &mut accounts, &amount(21), &host()),
        Err(ValidationError::InsufficientFunds)
    );
    assert_eq!(accounts, before);
}

#[test]
fn admin_account_cannot_withdraw_as_a_user() {
    // Level 1000 would count as 1000 in rewards.
    let before = vec![owned(81, 500, admin_account(1_000)), wallet(82, 0, true)];
    let mut accounts = before.clone();
    assert_eq!(
        type_confusion::withdraw_user(&program(), &mut accounts, &amount(1_100), &host()),
        Err(ValidationError::SchemaMismatch)
    );
    assert_eq!(accounts, before);
    assert_eq!(
        type_confusion::process_instruction(
            &program(),
            &mut accounts,
            &selected(0, &amount(1_100)),
            &host()
        ),
        Err(ValidationError::SchemaMismatch)
    );
}

#[test]
fn user_withdrawal_fails_without_change() {
    let mut stranger = vec![owned(81, 500, user_account(100, 20)), wallet(66, 0, true)];
    stranger[1].is_signer = true;
    let cases = vec![
        (stranger, 1, ValidationError::AccountMismatch),
        (
            vec![owned(81, 500, user_account(u64::MAX, 1)), wallet(82, 0, true)],
            1,
            ValidationError::ArithmeticOverflow,
        ),
        (
            vec![owned(81, 500, user_account(100, 20)), wallet(82, 0, false)],
            1,
            ValidationError::MissingSignature,
        ),
    ];
    for (before, value, reason) in cases {
        let mut accounts = before.clone();
        assert_eq!(
            type_confusion::withdraw_user(&program(), &mut accounts, &amount(value), &host()),
            Err(reason)
        );
        assert_eq!(accounts, before);
    }
}

#[test]
fn admin_action_wants_an_admin_of_level_five() {
    let with_level = |level: u64| vec![owned(81, 500, admin_account(level)), wallet(82, 0, true)];
    assert_eq!(type_confusion::admin_action(&program(), &with_level(5), &[], &host()), Ok(()));
    assert_eq!(type_confusion::admin_action(&program(), &with_level(1_000), &[], &host()), Ok(()));
    assert_eq!(
        type_confusion::admin_action(&program(), &with_level(4), &[], &host()),
        Err(ValidationError::InsufficientPrivilege)
    );
    assert_eq!(
        type_confusion::admin_action(&program(), &with_level(0), &[], &host()),
        Err(ValidationError::InsufficientPrivilege)
    );
    // A user account with high rewards is no admin account.
    let user = vec![owned(81, 500, user_account(100, 1_000)), wallet(82, 0, true)];
    assert_eq!(
        type_confusion::admin_action(&program(), &user, &[], &host()),
        Err(ValidationError::SchemaMismatch)
    );
    let mut accounts = with_level(5);
    assert_eq!(type_confusion::process_instruction(&program(), &mut accounts, &[1], &host()), Ok(()));
    assert_eq!(
        type_confusion::process_instruction(&program(), &mut accounts, &[2], &host()),
        Err(ValidationError::InvalidInstruction)
    );
    accounts[1].address = address(66);
    assert_eq!(
        type_confusion::admin_action(&program(), &accounts, &[], &host()),
        Err(ValidationError::AccountMismatch)
    );
}

// ---- calls into other programs ----

#[test]
fn call_is_built_for_an_allowed_program() {
    let accounts = vec![wallet(91, 0, true), wallet(0, 0, false), wallet(93, 0, false)];
    assert_eq!(arbitrary_cpi::system_program(), address(0));
    assert_eq!(arbitrary_cpi::allowed_programs(), vec![address(0)]);
    assert!(arbitrary_cpi::is_allowed(&address(0)));
    assert!(!arbitrary_cpi::is_allowed(&address(1)));
    assert_eq!(
        arbitrary_cpi::process_instruction(&program(), &accounts, &[2, 0, 0, 0, 9], &host()),
        Ok(CrossProgramCall {
            program_id: address(0),
            accounts: vec![
                AccountMeta { address: address(91), is_signer: true, is_writable: true },
                AccountMeta { address: address(93), is_signer: false, is_writable: true },
            ],
            data: vec![2, 0, 0, 0, 9],
        })
    );
}

#[test]
fn call_into_any_other_program_is_refused() {
    let accounts = vec![wallet(91, 0, true), wallet(66, 0, false), wallet(93, 0, false)];
    assert_eq!(
        arbitrary_cpi::process_instruction(&program(), &accounts, &[1], &host()),
        Err(ValidationError::InvalidInstruction)
    );
    let unsigned = vec![wallet(91, 0, false), wallet(0, 0, false), wallet(93, 0, false)];
    assert_eq!(
        arbitrary_cpi::process_instruction(&program(), &unsigned, &[1], &host()),
        Err(ValidationError::MissingSignature)
    );
    assert_eq!(
        arbitrary_cpi::process_instruction(&program(), &unsigned[..2].to_vec(), &[1], &host()),
        Err(ValidationError::MissingAccount)
    );
}

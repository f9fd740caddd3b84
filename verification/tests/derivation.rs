use account_guard::address::Address;
use account_guard::derivation::{
    derive_with_bump, find_canonical, verify_canonical_address, verify_derivation, DerivationSpec,
};
use account_guard::error::{ValidationError, ValidationVerdict};
use solana_program::pubkey::Pubkey;

fn address(byte: u8) -> Address {
    Address::new([byte; 32])
}

fn seeds() -> Vec<Vec<u8>> {
    vec![b"vault".to_vec(), vec![1, 2, 3]]
}

fn canonical(seeds: &Vec<Vec<u8>>, program: &Address) -> (Address, u8) {
    let slices: Vec<&[u8]> = seeds.iter().map(|s| s.as_slice()).collect();
    let (key, bump) = Pubkey::find_program_address(&slices, &Pubkey::new_from_array(program.bytes));
    (Address::new(key.to_bytes()), bump)
}

/// A bump below the canonical one with which the seeds still derive an address.
fn lower_bump(seeds: &Vec<Vec<u8>>, program: &Address, below: u8) -> (Address, u8) {
    let mut bump = below;
    while bump > 0 {
        bump -= 1;
        if let Some(address) = derive_with_bump(seeds, program, bump) {
            return (address, bump);
        }
    }
    panic!("no lower bump derives an address");
}

#[test]
fn search_finds_the_canonical_derivation() {
    for program in [address(7), address(0), address(200)] {
        for seeds in [seeds(), Vec::new(), vec![b"user_data".to_vec(), vec![9; 32]]] {
            assert_eq!(find_canonical(&seeds, &program), Some(canonical(&seeds, &program)));
        }
    }
}

#[test]
fn derivation_is_deterministic() {
    let program = address(7);
    let first = find_canonical(&seeds(), &program);
    let second = find_canonical(&seeds(), &program);
    assert!(first.is_some());
    assert_eq!(first, second);
    let (_, bump) = first.unwrap();
    assert_eq!(
        derive_with_bump(&seeds(), &program, bump),
        derive_with_bump(&seeds(), &program, bump)
    );
    assert_ne!(find_canonical(&seeds(), &address(8)), first);
}

#[test]
fn derived_address_is_not_its_program() {
    // Would fail if the derivation handed an argument back.
    let program = address(7);
    let (derived, bump) = find_canonical(&seeds(), &program).unwrap();
    assert_ne!(derived, program);
    let slices: Vec<Vec<u8>> = vec![b"vault".to_vec(), vec![1, 2, 3], vec![bump]];
    let refs: Vec<&[u8]> = slices.iter().map(|s| s.as_slice()).collect();
    let expected =
        Pubkey::create_program_address(&refs, &Pubkey::new_from_array(program.bytes)).unwrap();
    assert_eq!(derived.bytes, expected.to_bytes());
}

#[test]
fn canonical_derivation_passes() {
    let program = address(7);
    let (expected_address, bump) = canonical(&seeds(), &program);
    let spec = DerivationSpec { seeds: seeds(), program_id: program, expected_address, bump };
    assert_eq!(verify_derivation(&spec), ValidationVerdict::Pass);
    assert_eq!(
        verify_canonical_address(&seeds(), &program, &expected_address),
        ValidationVerdict::Pass
    );
}

#[test]
fn another_address_is_an_invalid_derived_address() {
    let program = address(7);
    let (_, bump) = canonical(&seeds(), &program);
    let spec =
        DerivationSpec { seeds: seeds(), program_id: program, expected_address: address(1), bump };
    assert_eq!(
        verify_derivation(&spec),
        ValidationVerdict::Fail(ValidationError::InvalidDerivedAddress)
    );
    assert_eq!(
        verify_canonical_address(&seeds(), &program, &address(1)),
        ValidationVerdict::Fail(ValidationError::InvalidDerivedAddress)
    );
}

#[test]
fn another_program_is_an_invalid_derived_address() {
    let (expected_address, bump) = canonical(&seeds(), &address(7));
    let spec =
        DerivationSpec { seeds: seeds(), program_id: address(8), expected_address, bump };
    assert_ne!(verify_derivation(&spec), ValidationVerdict::Pass);
}

#[test]
fn lower_bump_is_not_canonical() {
    let program = address(7);
    let (canonical_address, canonical_bump) = canonical(&seeds(), &program);
    let (expected_address, bump) = lower_bump(&seeds(), &program, canonical_bump);
    assert_ne!(expected_address, canonical_address);
    let spec = DerivationSpec { seeds: seeds(), program_id: program, expected_address, bump };
    assert_eq!(
        verify_derivation(&spec),
        ValidationVerdict::Fail(ValidationError::NonCanonicalBump)
    );
    // The address that the lower bump derives is not the canonical address either.
    assert_eq!(
        verify_canonical_address(&seeds(), &program, &expected_address),
        ValidationVerdict::Fail(ValidationError::InvalidDerivedAddress)
    );
}

#[test]
fn bump_that_derives_nothing_is_an_invalid_derived_address() {
    let program = address(7);
    let mut bump = 255u8;
    while derive_with_bump(&seeds(), &program, bump).is_some() {
        bump -= 1;
    }
    let spec = DerivationSpec {
        seeds: seeds(),
        program_id: program,
        expected_address: address(1),
        bump,
    };
    assert_eq!(
        verify_derivation(&spec),
        ValidationVerdict::Fail(ValidationError::InvalidDerivedAddress)
    );
}

#[test]
fn too_many_or_too_long_seeds_derive_nothing() {
    let program = address(7);
    let many: Vec<Vec<u8>> = (0..16).map(|i| vec![i as u8]).collect();
    assert_eq!(find_canonical(&many, &program), None);
    assert_eq!(derive_with_bump(&many, &program, 255), None);
    let long = vec![vec![0u8; 33]];
    assert_eq!(find_canonical(&long, &program), None);
    assert_eq!(
        verify_canonical_address(&long, &program, &address(1)),
        ValidationVerdict::Fail(ValidationError::InvalidDerivedAddress)
    );
    let fifteen: Vec<Vec<u8>> = (0..15).map(|i| vec![i as u8]).collect();
    assert_eq!(find_canonical(&fifteen, &program), Some(canonical(&fifteen, &program)));
}

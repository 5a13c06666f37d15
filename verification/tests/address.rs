use anchor_lang::prelude::Pubkey;
use vesting_escrow::address::{derive_address, verify_address, Address};

fn program_id() -> Address {
    Address::new([7u8; 32])
}

#[test]
fn derive_address_agrees_with_pubkey_search() {
    let seeds: Vec<Vec<u8>> = vec![b"vault".to_vec(), vec![1u8; 32], vec![2u8; 32]];
    let (expected, expected_bump) = Pubkey::find_program_address(
        &[b"vault", &[1u8; 32], &[2u8; 32]],
        &Pubkey::new_from_array([7u8; 32]),
    );
    let (address, bump) = derive_address(&seeds, &program_id()).expect("an address exists");
    assert_eq!(address.bytes, expected.to_bytes());
    assert_eq!(bump, expected_bump);
    assert_ne!(address.bytes, [1u8; 32]);
}

#[test]
fn derived_address_verifies_with_its_bump_only() {
    let seeds: Vec<Vec<u8>> = vec![b"escrow".to_vec(), vec![9u8; 32], 7u64.to_le_bytes().to_vec()];
    let (address, bump) = derive_address(&seeds, &program_id()).expect("an address exists");
    assert!(verify_address(&address, &seeds, bump, &program_id()));
    assert!(!verify_address(&Address::new([0u8; 32]), &seeds, bump, &program_id()));
    let other: Vec<Vec<u8>> = vec![b"escrow".to_vec(), vec![9u8; 32], 8u64.to_le_bytes().to_vec()];
    assert!(!verify_address(&address, &other, bump, &program_id()));
}

#[test]
fn seed_longer_than_the_limit_has_no_address() {
    let seeds: Vec<Vec<u8>> = vec![vec![0u8; 33]];
    assert!(derive_address(&seeds, &program_id()).is_none());
    assert!(!verify_address(&Address::new([0u8; 32]), &seeds, 255, &program_id()));
}

#[test]
fn sixteen_seeds_leave_no_room_for_the_bump() {
    let seeds: Vec<Vec<u8>> = vec![vec![1u8]; 16];
    assert!(derive_address(&seeds, &program_id()).is_none());
    let fifteen: Vec<Vec<u8>> = vec![vec![1u8]; 15];
    assert!(derive_address(&fifteen, &program_id()).is_some());
}

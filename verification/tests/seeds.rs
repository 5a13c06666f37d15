use anchor_lang::prelude::Pubkey;
use vesting_escrow::address::{derive_address, signs_for, verify_address, Address};
use vesting_escrow::seeds::{
    custody_vault_seeds, escrow_seeds, listing_seeds, marketplace_seeds, rewards_seeds,
    stake_config_seeds, text_bytes, treasury_seeds, vault_state_seeds, vesting_contract_seeds,
    vesting_record_seeds, vesting_vault_seeds, with_bump,
};

fn addr(n: u8) -> Address {
    Address::new([n; 32])
}

#[test]
fn vesting_contract_seeds_are_name_creator_mint() {
    assert_eq!(
        vesting_contract_seeds(&"Acme".to_string(), &addr(1), &addr(2)),
        vec![b"Acme".to_vec(), vec![1u8; 32], vec![2u8; 32]]
    );
}

#[test]
fn vesting_vault_seeds_are_tag_mint_creator() {
    assert_eq!(
        vesting_vault_seeds(&addr(2), &addr(1)),
        vec![b"vault".to_vec(), vec![2u8; 32], vec![1u8; 32]]
    );
}

#[test]
fn vesting_record_seeds_are_contract_beneficiary_mint() {
    assert_eq!(
        vesting_record_seeds(&addr(3), &addr(6), &addr(2)),
        vec![vec![3u8; 32], vec![6u8; 32], vec![2u8; 32]]
    );
}

#[test]
fn escrow_seeds_hold_the_seed_in_little_endian() {
    assert_eq!(
        escrow_seeds(&addr(1), 7),
        vec![b"escrow".to_vec(), vec![1u8; 32], vec![7, 0, 0, 0, 0, 0, 0, 0]]
    );
    assert_eq!(
        escrow_seeds(&addr(1), 0x0102_0304_0506_0708),
        vec![b"escrow".to_vec(), vec![1u8; 32], vec![8, 7, 6, 5, 4, 3, 2, 1]]
    );
}

#[test]
fn marketplace_seeds_start_with_their_tag() {
    assert_eq!(
        marketplace_seeds(&"bazaar".to_string()),
        vec![b"marketplace".to_vec(), b"bazaar".to_vec()]
    );
    assert_eq!(treasury_seeds(&addr(4)), vec![b"treasury".to_vec(), vec![4u8; 32]]);
    assert_eq!(rewards_seeds(&addr(4)), vec![b"rewards".to_vec(), vec![4u8; 32]]);
    assert_eq!(listing_seeds(&addr(4), &addr(5)), vec![vec![4u8; 32], vec![5u8; 32]]);
}

#[test]
fn custody_and_staking_seeds() {
    assert_eq!(vault_state_seeds(&addr(9)), vec![b"state".to_vec(), vec![9u8; 32]]);
    assert_eq!(custody_vault_seeds(&addr(9)), vec![b"vault".to_vec(), vec![9u8; 32]]);
    assert_eq!(stake_config_seeds(), vec![b"config".to_vec()]);
}

#[test]
fn bump_seed_comes_last() {
    assert_eq!(
        with_bump(vec![b"vault".to_vec(), vec![9u8; 32]], 254),
        vec![b"vault".to_vec(), vec![9u8; 32], vec![254u8]]
    );
    assert_eq!(with_bump(vec![], 0), vec![vec![0u8]]);
}

#[test]
fn text_bytes_are_utf8() {
    assert_eq!(text_bytes(&"Acme".to_string()), b"Acme".to_vec());
    assert_eq!(text_bytes(&"né".to_string()), vec![0x6e, 0xc3, 0xa9]);
    assert_eq!(text_bytes(&String::new()), Vec::<u8>::new());
}

#[test]
fn contract_address_agrees_with_pubkey_search() {
    let program = [11u8; 32];
    let seeds = vesting_contract_seeds(&"Acme".to_string(), &addr(1), &addr(2));
    let (expected, bump) = Pubkey::find_program_address(
        &[b"Acme", &[1u8; 32], &[2u8; 32]],
        &Pubkey::new_from_array(program),
    );
    assert_eq!(
        derive_address(&seeds, &Address::new(program)),
        Some((Address::new(expected.to_bytes()), bump))
    );
    assert!(verify_address(
        &Address::new(expected.to_bytes()),
        &seeds,
        bump,
        &Address::new(program)
    ));
    let signer = Pubkey::create_program_address(
        &[b"Acme", &[1u8; 32], &[2u8; 32], &[bump]],
        &Pubkey::new_from_array(program),
    )
    .expect("the bump seed is valid");
    assert_eq!(signer, expected);
}

#[test]
fn company_name_longer_than_a_seed_has_no_address() {
    let name = "a name of more than thirty-two bytes".to_string();
    assert!(name.len() > 32 && name.len() <= 50);
    let seeds = vesting_contract_seeds(&name, &addr(1), &addr(2));
    assert_eq!(derive_address(&seeds, &addr(11)), None);
}

#[test]
fn seeds_with_their_bump_sign_for_the_derived_address() {
    let program = addr(11);
    let seeds = escrow_seeds(&addr(1), 7);
    let (offer, bump) = derive_address(&seeds, &program).expect("an address exists");
    let signer_seeds = with_bump(seeds, bump);
    assert!(signs_for(&offer, &signer_seeds, &program));
    assert!(!signs_for(&offer, &signer_seeds, &addr(12)));
    assert!(!signs_for(&addr(1), &signer_seeds, &program));
    assert!(!signs_for(&offer, &with_bump(escrow_seeds(&addr(1), 8), bump), &program));
}

use rwa_contract::authority::{find_authority, rederive_authority};
use rwa_contract::{Address, Derivation};

use anchor_lang::prelude::Pubkey;

fn addr(b: u8) -> Address {
    Address::new([b; 32])
}

#[test]
fn derivation_is_repeatable() {
    let d = Derivation::Escrow { depositor: addr(1), beneficiary: addr(2) };
    let a = find_authority(&addr(9), d).unwrap();
    let b = find_authority(&addr(9), d).unwrap();
    assert_eq!(a.address(), b.address());
    assert_eq!(a.bump(), b.bump());
}

#[test]
fn stored_bump_rederives_address() {
    let d = Derivation::Escrow { depositor: addr(1), beneficiary: addr(2) };
    let a = find_authority(&addr(9), d).unwrap();
    let again = rederive_authority(&addr(9), d, a.bump()).unwrap();
    assert_eq!(again.address(), a.address());
    assert_eq!(again.bump(), a.bump());
}

#[test]
fn escrow_address_matches_ledger_derivation() {
    let d = Derivation::Escrow { depositor: addr(1), beneficiary: addr(2) };
    let a = find_authority(&addr(9), d).unwrap();
    let program = Pubkey::new_from_array([9; 32]);
    let (k, bump) = Pubkey::find_program_address(&[b"escrow", &[1u8; 32], &[2u8; 32]], &program);
    assert_eq!(a.address(), Address::new(k.to_bytes()));
    assert_eq!(a.bump(), bump);
    assert_ne!(a.address(), addr(9));
}

#[test]
fn signer_seeds_hold_label_participants_and_bump() {
    let d = Derivation::Escrow { depositor: addr(1), beneficiary: addr(2) };
    let a = find_authority(&addr(9), d).unwrap();
    let seeds = a.signer_seeds();
    assert_eq!(seeds, vec![b"escrow".to_vec(), vec![1u8; 32], vec![2u8; 32], vec![a.bump()]]);
    let m = find_authority(&addr(9), Derivation::MintAuthority).unwrap();
    assert_eq!(m.signer_seeds(), vec![b"mint_authority".to_vec(), vec![m.bump()]]);
}

#[test]
fn pairs_and_order_give_distinct_addresses() {
    let ab = find_authority(&addr(9), Derivation::Escrow { depositor: addr(1), beneficiary: addr(2) }).unwrap();
    let ba = find_authority(&addr(9), Derivation::Escrow { depositor: addr(2), beneficiary: addr(1) }).unwrap();
    let m = find_authority(&addr(9), Derivation::MintAuthority).unwrap();
    assert_ne!(ab.address(), ba.address());
    assert_ne!(ab.address(), m.address());
}

#[test]
fn address_equality_and_seed() {
    let mut bytes = [5u8; 32];
    assert_eq!(Address::new(bytes), addr(5));
    bytes[31] = 6;
    assert_ne!(Address::new(bytes), addr(5));
    assert_eq!(Address::new(bytes).to_seed(), bytes.to_vec());
    assert_eq!(Address::new(bytes).to_bytes(), bytes);
}

use anchor_lang::solana_program::pubkey::Pubkey;
use solana_vault::address::vault_address;
use solana_vault::vault::Identity;

#[test]
fn derived_address_matches_host_search() {
    let tag = b"vault".to_vec();
    let owner_bytes = [7u8; 32];
    let program_bytes = [3u8; 32];
    let derived = vault_address(
        &tag,
        &Identity::new(owner_bytes.to_vec()),
        &program_bytes.to_vec(),
    )
    .expect("a bump seed should be found");
    let (expected, _bump) = Pubkey::try_find_program_address(
        &[b"vault", &owner_bytes],
        &Pubkey::new_from_array(program_bytes),
    )
    .expect("a bump seed should be found");
    assert_eq!(derived, expected.to_bytes().to_vec());
    assert_eq!(derived.len(), 32);
    assert_ne!(derived, owner_bytes.to_vec());
}

#[test]
fn derivation_is_deterministic() {
    let tag = b"vault".to_vec();
    let owner = Identity::new(vec![9u8; 32]);
    let program = vec![1u8; 32];
    let first = vault_address(&tag, &owner, &program);
    let second = vault_address(&tag, &owner, &program);
    assert!(first.is_some());
    assert_eq!(first, second);
}

#[test]
fn distinct_owners_get_distinct_addresses() {
    let tag = b"vault".to_vec();
    let program = vec![1u8; 32];
    let a = vault_address(&tag, &Identity::new(vec![1u8; 32]), &program).unwrap();
    let b = vault_address(&tag, &Identity::new(vec![2u8; 32]), &program).unwrap();
    assert_ne!(a, b);
}

#[test]
fn oversized_seed_yields_no_address() {
    let tag = b"vault".to_vec();
    let owner = Identity::new(vec![5u8; 64]);
    let program = vec![1u8; 32];
    assert!(vault_address(&tag, &owner, &program).is_none());
}

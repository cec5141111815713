use sol_factory::addressing::{
    admin_state_seeds, auth_seeds, collection_seeds, is_derived, mint_seeds, placeholder_seeds,
    protocol_seeds, text_seed, token_account_seeds, u64_le_bytes,
};
use sol_factory::key::PublicKey;
use solana_program::pubkey::Pubkey;

fn key(b: u8) -> PublicKey {
    PublicKey::new([b; 32])
}

#[test]
fn little_endian_id_bytes() {
    assert_eq!(u64_le_bytes(0x0102030405060708), vec![8, 7, 6, 5, 4, 3, 2, 1]);
    assert_eq!(u64_le_bytes(1), vec![1, 0, 0, 0, 0, 0, 0, 0]);
    assert_eq!(u64_le_bytes(u64::MAX), vec![255; 8]);
}

#[test]
fn seed_lists() {
    assert_eq!(text_seed("auth"), b"auth".to_vec());
    assert_eq!(protocol_seeds(), vec![b"protocol".to_vec()]);
    assert_eq!(auth_seeds(), vec![b"auth".to_vec()]);
    assert_eq!(admin_state_seeds(&key(1)), vec![b"admin_state".to_vec(), vec![1; 32]]);
    assert_eq!(collection_seeds(&key(2)), vec![b"collection".to_vec(), vec![2; 32]]);
    assert_eq!(
        placeholder_seeds(&key(3), 1),
        vec![b"placeholder".to_vec(), vec![3; 32], vec![1, 0, 0, 0, 0, 0, 0, 0]]
    );
    assert_eq!(mint_seeds(&key(4)), vec![b"mint".to_vec(), vec![4; 32]]);
    assert_eq!(token_account_seeds(&key(5), &key(6), &key(7)), vec![vec![5; 32], vec![6; 32], vec![7; 32]]);
}

#[test]
fn derived_placeholder_address_is_recognised() {
    let program = Pubkey::new_from_array([9; 32]);
    let collection = Pubkey::new_from_array([3; 32]);
    let (expected, _) =
        Pubkey::find_program_address(&[b"placeholder", collection.as_ref(), &7u64.to_le_bytes()], &program);
    let seeds = placeholder_seeds(&key(3), 7);
    assert!(is_derived(&PublicKey::new(expected.to_bytes()), &seeds, &key(9)));
    assert!(!is_derived(&key(3), &seeds, &key(9)));
    assert!(!is_derived(&PublicKey::new(expected.to_bytes()), &placeholder_seeds(&key(3), 8), &key(9)));
}

use sol_factory::claim::{check_balance, check_post_mint, AirdropPlaceholder, ClaimStep, InstructionView, SignaturePayload};
use sol_factory::errors::FactoryError;
use sol_factory::key::PublicKey;
use sol_factory::state::{Collection, Placeholder, Protocol, WhiteList};

fn key(b: u8) -> PublicKey {
    PublicKey::new([b; 32])
}

fn signature_program() -> PublicKey {
    PublicKey::new(solana_program::ed25519_program::id().to_bytes())
}

fn collection(max_supply: u64, total_supply: u64) -> Collection {
    Collection {
        reference: key(40),
        name: "Gems".to_string(),
        symbol: "GEM".to_string(),
        owner: key(41),
        sale_start_time: 0,
        max_supply,
        total_supply,
        price: 5,
        stable_id: "stable".to_string(),
        whitelist: WhiteList { wallets: vec![] },
        whitelist_start_time: 0,
        whitelist_price: 0,
    }
}

fn pda(seeds: &[&[u8]], program: u8) -> PublicKey {
    let (k, _) = solana_program::pubkey::Pubkey::find_program_address(seeds, &solana_program::pubkey::Pubkey::new_from_array([program; 32]));
    PublicKey::new(k.to_bytes())
}

fn accounts(max_supply: u64, total_supply: u64) -> AirdropPlaceholder {
    let placeholder_key = pda(&[b"placeholder", &[42; 32], &1u64.to_le_bytes()], 9);
    let mint = pda(&[b"mint", &placeholder_key.bytes], 9);
    AirdropPlaceholder {
        buyer: key(2),
        payer: key(1),
        collection: collection(max_supply, total_supply),
        collection_key: key(42),
        collection_owner: key(41),
        buyer_mint_ata: pda(&[&[2; 32], &[6; 32], &mint.bytes], 10),
        placeholder_key,
        placeholder: Placeholder {
            id: 1,
            collection: key(42),
            reference: "ref".to_string(),
            name: "Gems".to_string(),
            price: 5,
            time_stamp: 0,
        },
        mint,
        mint_authority: Some(pda(&[b"auth"], 9)),
        auth: pda(&[b"auth"], 9),
        protocol: Protocol { locked: false },
        protocol_key: pda(&[b"protocol"], 9),
        token_2022_program: key(6),
        associated_token_program: key(10),
        program_id: key(9),
    }
}

fn payload(signer: u8, recipient: u8, len: usize) -> Vec<u8> {
    let mut data = vec![0u8; len];
    for i in 16..48 {
        if i < len {
            data[i] = signer;
        }
    }
    for i in 112..144 {
        if i < len {
            data[i] = recipient;
        }
    }
    data
}

fn signed(signer: u8, recipient: u8) -> Option<InstructionView> {
    Some(InstructionView { program_id: signature_program(), data: payload(signer, recipient, 144) })
}

#[test]
fn claim_with_valid_signature_mints_one() {
    let mut a = accounts(100, 7);
    let (ata, mint_key, auth) = (a.buyer_mint_ata.bytes, a.mint.bytes, a.auth.bytes);
    let steps = a.airdrop(&key(1), 1, &signed(1, 2)).unwrap();
    assert_eq!(steps.len(), 3);
    match steps[0] {
        ClaimStep::CreateTokenAccount { payer, account, owner, mint } => {
            assert_eq!(payer.bytes, [1; 32]);
            assert_eq!(account.bytes, ata);
            assert_eq!(owner.bytes, [2; 32]);
            assert_eq!(mint.bytes, mint_key);
        }
        _ => panic!("expected the token account first"),
    }
    match steps[1] {
        ClaimStep::MintTo { mint, to, authority, amount } => {
            assert_eq!(mint.bytes, mint_key);
            assert_eq!(to.bytes, ata);
            assert_eq!(authority.bytes, auth);
            assert_eq!(amount, 1);
        }
        _ => panic!("expected the mint second"),
    }
    assert!(matches!(steps[2], ClaimStep::RevokeMintAuthority { .. }));
    assert_eq!(a.collection.total_supply, 8);
    assert!(a.mint_authority.is_none());
    assert_eq!(check_balance(1), Ok(()));
}

#[test]
fn claim_at_first_position_does_nothing() {
    let mut a = accounts(100, 7);
    let steps = a.airdrop(&key(1), 0, &None).unwrap();
    assert!(steps.is_empty());
    assert_eq!(a.collection.total_supply, 7);
    assert!(a.mint_authority.is_some());
}

#[test]
fn claim_when_sold_out_fails_first() {
    let mut a = accounts(10, 10);
    assert_eq!(a.airdrop(&key(1), 0, &None).unwrap_err(), FactoryError::SoldOut);
    assert_eq!(a.airdrop(&key(1), 3, &None).unwrap_err(), FactoryError::SoldOut);
    assert_eq!(a.collection.total_supply, 10);
}

#[test]
fn claim_without_preceding_instruction_fails() {
    let mut a = accounts(100, 7);
    assert_eq!(a.airdrop(&key(1), 2, &None).unwrap_err(), FactoryError::InstructionsNotCorrect);
    assert_eq!(a.collection.total_supply, 7);
    assert!(a.mint_authority.is_some());
}

#[test]
fn claim_with_other_program_fails() {
    let mut a = accounts(100, 7);
    let ix = Some(InstructionView { program_id: key(9), data: payload(1, 2, 144) });
    assert_eq!(a.airdrop(&key(1), 1, &ix).unwrap_err(), FactoryError::InstructionsNotCorrect);
    assert_eq!(a.collection.total_supply, 7);
}

#[test]
fn claim_with_short_payload_fails() {
    let mut a = accounts(100, 7);
    let ix = Some(InstructionView { program_id: signature_program(), data: payload(1, 2, 143) });
    assert_eq!(a.airdrop(&key(1), 1, &ix).unwrap_err(), FactoryError::InstructionsNotCorrect);
}

#[test]
fn claim_for_other_recipient_fails() {
    let mut a = accounts(100, 7);
    assert_eq!(a.airdrop(&key(1), 1, &signed(1, 8)).unwrap_err(), FactoryError::UnauthorizedAdmin);
    assert_eq!(a.collection.total_supply, 7);
    assert!(a.mint_authority.is_some());
}

#[test]
fn claim_signed_by_other_fails() {
    let mut a = accounts(100, 7);
    assert_eq!(a.airdrop(&key(1), 1, &signed(6, 2)).unwrap_err(), FactoryError::UnauthorizedAdmin);
}

#[test]
fn claim_by_other_payer_fails() {
    let mut a = accounts(100, 7);
    assert_eq!(a.airdrop(&key(6), 1, &signed(6, 2)).unwrap_err(), FactoryError::UnauthorizedAdmin);
}

#[test]
fn claim_when_locked_fails() {
    let mut a = accounts(100, 7);
    a.protocol.locked = true;
    assert_eq!(a.airdrop(&key(1), 1, &signed(1, 2)).unwrap_err(), FactoryError::ProtocolLocked);
}

#[test]
fn second_claim_fails() {
    let mut a = accounts(100, 7);
    assert!(a.airdrop(&key(1), 1, &signed(1, 2)).is_ok());
    assert_eq!(a.airdrop(&key(1), 1, &signed(1, 2)).unwrap_err(), FactoryError::MintAuthorityRevoked);
    assert_eq!(a.collection.total_supply, 8);
}

#[test]
fn claim_one_below_ceiling_reaches_it() {
    let mut a = accounts(8, 7);
    assert!(a.airdrop(&key(1), 1, &signed(1, 2)).is_ok());
    assert_eq!(a.collection.total_supply, 8);
}

#[test]
fn payload_decoding_reads_both_fields() {
    let p = SignaturePayload::decode(&payload(1, 2, 200)).unwrap();
    assert_eq!(p.signer.bytes, [1; 32]);
    assert_eq!(p.message.bytes, [2; 32]);
    assert!(SignaturePayload::decode(&payload(1, 2, 100)).is_none());
}

#[test]
fn balance_other_than_one_fails() {
    assert_eq!(check_balance(0), Err(FactoryError::InvalidBalancePostMint));
    assert_eq!(check_balance(2), Err(FactoryError::InvalidBalancePostMint));
}

fn token_account(amount: u64) -> Vec<u8> {
    let mut data = vec![0u8; 165];
    data[64..72].copy_from_slice(&amount.to_le_bytes());
    data[108] = 1;
    data
}

#[test]
fn post_mint_account_with_one_unit_passes() {
    assert_eq!(check_post_mint(&token_account(1)), Ok(()));
}

#[test]
fn post_mint_account_with_other_amount_fails() {
    assert_eq!(check_post_mint(&token_account(2)), Err(FactoryError::InvalidBalancePostMint));
    assert_eq!(check_post_mint(&token_account(0)), Err(FactoryError::InvalidBalancePostMint));
}

#[test]
fn post_mint_unreadable_account_fails() {
    assert_eq!(check_post_mint(&vec![0u8; 10]), Err(FactoryError::InvalidAccountData));
}

#[test]
fn key_helpers() {
    let data = payload(7, 9, 144);
    assert!(key(7).found_at(&data, 16));
    assert!(!key(7).found_at(&data, 17));
    assert!(!key(9).found_at(&data, 130));
    assert_eq!(PublicKey::read_at(&data, 112).unwrap().bytes, [9; 32]);
    assert!(PublicKey::read_at(&data, 113).is_none());
    assert!(PublicKey::new([0; 32]).is_zero());
    assert!(!key(1).is_zero());
    assert!(key(3).same_as(&key(3)));
    assert!(!key(3).same_as(&key(4)));
}

#[test]
fn claim_with_collection_of_other_placeholder_fails() {
    let mut a = accounts(100, 7);
    a.collection_key = key(43);
    assert_eq!(a.airdrop(&key(1), 1, &signed(1, 2)).unwrap_err(), FactoryError::AddressMismatch);
    assert_eq!(a.collection.total_supply, 7);
}

#[test]
fn claim_with_underived_mint_fails() {
    let mut a = accounts(100, 7);
    a.mint = key(4);
    assert_eq!(a.airdrop(&key(1), 0, &None).unwrap_err(), FactoryError::AddressMismatch);
}

#[test]
fn claim_with_other_token_account_fails() {
    let mut a = accounts(100, 7);
    a.buyer_mint_ata = key(3);
    assert_eq!(a.airdrop(&key(1), 1, &signed(1, 2)).unwrap_err(), FactoryError::AddressMismatch);
}

#[test]
fn claim_guards_before_inspection() {
    let a = accounts(10, 10);
    assert_eq!(a.check_claim_guards(&key(1)), Err(FactoryError::SoldOut));
    let b = accounts(10, 9);
    assert_eq!(b.check_claim_guards(&key(1)), Ok(()));
    assert_eq!(b.check_claim_guards(&key(7)), Err(FactoryError::UnauthorizedAdmin));
}

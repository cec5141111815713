//! Calls into the ledger's libraries that only compute: key text, layout sizes,
//! token account decoding, and integer text.

use vstd::prelude::*;
use solana_program::program_error::ProgramError;
use solana_program::pubkey::Pubkey;
use spl_token_2022::extension::ExtensionType;
use crate::key::PublicKey;
use crate::state::Attributes;
use crate::token::{
    MetadataRecord, MintExtension, account_amount, metadata_entry_len, metadata_fits, mint_account_len,
    decimal_text, signed_decimal_text, ACCOUNT_LEN,
};

verus! {

#[verifier::external_type_specification]
#[verifier::external_body]
pub struct ExProgramError(solana_program::program_error::ProgramError);

/// The key that a base58 text denotes, if it denotes one of 32 bytes.
pub uninterp spec fn base58_key_of(s: Seq<char>) -> Option<Seq<u8>>;

/// The base58 text of a 32-byte key.
pub uninterp spec fn base58_text_of(key: Seq<u8>) -> Seq<char>;

/// Relies on `Pubkey::from_str` of solana-program: it decodes base58 text
/// into a 32-byte key and fails on anything else.
#[verifier::external_body]
pub(crate) fn key_from_base58(s: &str) -> (r: Option<PublicKey>)
    ensures
        r.is_some() == base58_key_of(s@).is_some(),
        r.is_some() ==> base58_key_of(s@) == Some(r.unwrap().bytes@),
{
    <Pubkey as std::str::FromStr>::from_str(s)
        .ok()
        .map(|k| PublicKey { bytes: k.to_bytes() })
}

/// Relies on the `Display` of solana-program's `Pubkey`: the base58 text of its bytes.
#[verifier::external_body]
pub(crate) fn key_to_base58(k: &PublicKey) -> (r: String)
    ensures
        r@ == base58_text_of(k.bytes@),
{
    Pubkey::new_from_array(k.bytes).to_string()
}

/// Relies on `u64`'s `to_string`: its decimal text.
#[verifier::external_body]
pub(crate) fn u64_text(n: u64) -> (r: String)
    ensures
        r@ == decimal_text(n as nat),
{
    n.to_string()
}

/// Relies on `u128`'s `to_string`: its decimal text.
#[verifier::external_body]
pub(crate) fn u128_text(n: u128) -> (r: String)
    ensures
        r@ == decimal_text(n as nat),
{
    n.to_string()
}

/// Relies on `i64`'s `to_string`: its decimal text, signed.
#[verifier::external_body]
pub(crate) fn i64_text(n: i64) -> (r: String)
    ensures
        r@ == signed_decimal_text(n as int),
{
    n.to_string()
}

/// Relies on `ExtensionType::try_calculate_account_len::<Mint>` of spl-token-2022:
/// the base account, its type byte and one type-length-value entry per extension,
/// which never fails for fixed-size extensions.
#[verifier::external_body]
pub(crate) fn calculate_mint_len(exts: &Vec<MintExtension>) -> (r: Result<usize, ProgramError>)
    requires
        exts@.no_duplicates(),
    ensures
        r.is_ok(),
        r matches Ok(n) ==> n == mint_account_len(exts@),
{
    let types: Vec<ExtensionType> = exts.iter().map(|e| match e {
        MintExtension::MintCloseAuthority => ExtensionType::MintCloseAuthority,
        MintExtension::PermanentDelegate => ExtensionType::PermanentDelegate,
        MintExtension::MetadataPointer => ExtensionType::MetadataPointer,
    }).collect();
    ExtensionType::try_calculate_account_len::<spl_token_2022::state::Mint>(&types)
}

/// Relies on `TokenMetadata::tlv_size_of` of spl-token-metadata-interface: the
/// entry header plus the record's borsh encoding, which fails only where a
/// 4-byte length prefix cannot hold a string's or the field list's length, or
/// where the total does not fit.
#[verifier::external_body]
pub(crate) fn metadata_tlv_size(m: &MetadataRecord) -> (r: Result<usize, ProgramError>)
    ensures
        metadata_fits(*m) ==> r is Ok,
        r matches Ok(n) ==> n == metadata_entry_len(*m),
{
    spl_token_metadata_interface::state::TokenMetadata {
        update_authority: spl_pod::optional_keys::OptionalNonZeroPubkey(Pubkey::new_from_array(m.update_authority.bytes)),
        mint: Pubkey::new_from_array(m.mint.bytes),
        name: m.name.clone(),
        symbol: m.symbol.clone(),
        uri: m.uri.clone(),
        additional_metadata: m.additional_metadata.iter().map(|a: &Attributes| (a.key.clone(), a.value.clone())).collect(),
    }.tlv_size_of()
}

/// Relies on `OptionalNonZeroPubkey::try_from(Some(key))` of spl-pod: it refuses
/// the all-zero key and keeps any other.
#[verifier::external_body]
pub(crate) fn nonzero_key(k: &PublicKey) -> (r: Result<PublicKey, ProgramError>)
    ensures
        r.is_ok() == !k.spec_is_zero(),
        r matches Ok(v) ==> v.bytes@ == k.bytes@,
{
    spl_pod::optional_keys::OptionalNonZeroPubkey::try_from(Some(Pubkey::new_from_array(k.bytes)))
        .map(|o| PublicKey { bytes: o.0.to_bytes() })
}

/// The amount of a token account's bytes, where they decode as a token account.
pub uninterp spec fn token_amount_of(data: Seq<u8>) -> Option<u64>;

/// Relies on `StateWithExtensions::<Account>::unpack` of spl-token-2022: whether
/// the bytes decode depends on them alone; a token account is at least its
/// 165-byte base, whose amount is little-endian at bytes 64..72.
#[verifier::external_body]
pub(crate) fn token_account_amount(data: &Vec<u8>) -> (r: Result<u64, ProgramError>)
    ensures
        r is Ok <==> token_amount_of(data@) is Some,
        r matches Ok(a) ==> token_amount_of(data@) == Some(a),
        r matches Ok(a) ==> data@.len() >= ACCOUNT_LEN && a as nat == account_amount(data@),
{
    spl_token_2022::extension::StateWithExtensions::<spl_token_2022::state::Account>::unpack(data)
        .map(|s| s.base.amount)
}

/// The address derived from seeds under a program, with its bump, if one exists.
pub uninterp spec fn program_address_of(seeds: Seq<Seq<u8>>, program: Seq<u8>) -> Option<(Seq<u8>, u8)>;

/// Relies on `Pubkey::try_find_program_address` of solana-program: the first
/// bump, from 255 down, whose address is off the curve; a function of the
/// seeds and the program alone.
#[verifier::external_body]
pub(crate) fn find_program_address(seeds: &Vec<Vec<u8>>, program: &PublicKey) -> (r: Option<(PublicKey, u8)>)
    ensures
        program_address_of(seeds@.map_values(|s: Vec<u8>| s@), program.bytes@) == (match r {
            Some(found) => Some((found.0.bytes@, found.1)),
            None => None,
        }),
{
    let slices: Vec<&[u8]> = seeds.iter().map(|s| s.as_slice()).collect();
    Pubkey::try_find_program_address(&slices, &Pubkey::new_from_array(program.bytes))
        .map(|(k, bump)| (PublicKey { bytes: k.to_bytes() }, bump))
}

} // verus!

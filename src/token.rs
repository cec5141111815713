//! The token object behind a placeholder: its extensions, its metadata record,
//! and the byte layouts that size them.

use vstd::prelude::*;
use vstd::utf8::encode_utf8;
use crate::key::PublicKey;
use crate::state::Attributes;

verus! {

/// Size of a mint without extensions.
pub const MINT_BASE_LEN: usize = 82;

/// Size of a token account's base state plus its account-type byte: where extensions begin.
pub const BASE_ACCOUNT_AND_TYPE_LEN: usize = 166;

/// Size of a multisig account, which an extended layout never takes as its length.
pub const MULTISIG_LEN: usize = 355;

/// Offset of the amount in a token account.
pub const ACCOUNT_AMOUNT_OFFSET: usize = 64;

/// Size of a token account's base state.
pub const ACCOUNT_LEN: usize = 165;

/// Fixed-size extensions a mint can carry.
#[derive(Clone, Copy, Debug, PartialEq, Eq, Structural)]
pub enum MintExtension {
    MintCloseAuthority,
    PermanentDelegate,
    MetadataPointer,
}

/// Bytes of an extension's value.
pub open spec fn extension_value_len(e: MintExtension) -> int {
    match e {
        MintExtension::MintCloseAuthority => 32,
        MintExtension::PermanentDelegate => 32,
        MintExtension::MetadataPointer => 64,
    }
}

/// Bytes that a list of extensions takes, each with its 2-byte type and 2-byte length.
pub open spec fn extensions_tlv_len(exts: Seq<MintExtension>) -> int
    decreases exts.len(),
{
    if exts.len() == 0 {
        0
    } else {
        extensions_tlv_len(exts.drop_last()) + 4 + extension_value_len(exts.last())
    }
}

/// Storage of a mint that carries the distinct extensions `exts`.
pub open spec fn mint_account_len(exts: Seq<MintExtension>) -> int {
    if exts.len() == 0 {
        MINT_BASE_LEN as int
    } else {
        let total = BASE_ACCOUNT_AND_TYPE_LEN + extensions_tlv_len(exts);
        if total == MULTISIG_LEN {
            total + 2
        } else {
            total
        }
    }
}

/// Bytes of a string in UTF-8.
pub open spec fn utf8_len(s: Seq<char>) -> int {
    encode_utf8(s).len() as int
}

/// Key and value texts of a metadata field.
pub open spec fn attribute_texts(a: Attributes) -> (Seq<char>, Seq<char>) {
    (a.key@, a.value@)
}

/// Bytes of a metadata field list, each key and value with its 4-byte length.
pub open spec fn fields_encoded_len(fields: Seq<(Seq<char>, Seq<char>)>) -> int
    decreases fields.len(),
{
    if fields.len() == 0 {
        0
    } else {
        fields_encoded_len(fields.drop_last()) + 8 + utf8_len(fields.last().0) + utf8_len(fields.last().1)
    }
}

/// Bytes that a metadata record with these texts takes as a type-length-value
/// entry: an 8-byte discriminator, a 4-byte length, two keys, three strings and
/// the field list.
pub open spec fn record_entry_len(name: Seq<char>, symbol: Seq<char>, uri: Seq<char>, fields: Seq<(Seq<char>, Seq<char>)>) -> int {
    12 + 32 + 32 + 4 + utf8_len(name) + 4 + utf8_len(symbol) + 4 + utf8_len(uri) + 4 + fields_encoded_len(fields)
}

/// Every length prefix of the record's encoding fits in 4 bytes and the entry's
/// size fits in `usize`.
pub open spec fn record_fits(name: Seq<char>, symbol: Seq<char>, uri: Seq<char>, fields: Seq<(Seq<char>, Seq<char>)>) -> bool {
    &&& utf8_len(name) <= u32::MAX
    &&& utf8_len(symbol) <= u32::MAX
    &&& utf8_len(uri) <= u32::MAX
    &&& fields.len() <= u32::MAX
    &&& forall|i: int| 0 <= i < fields.len() ==> utf8_len(#[trigger] fields[i].0) <= u32::MAX && utf8_len(fields[i].1) <= u32::MAX
    &&& record_entry_len(name, symbol, uri, fields) <= usize::MAX
}

/// The metadata record attached to a mint.
#[derive(Clone, Debug)]
pub struct MetadataRecord {
    pub update_authority: PublicKey,
    pub mint: PublicKey,
    pub name: String,
    pub symbol: String,
    pub uri: String,
    pub additional_metadata: Vec<Attributes>,
}

/// Bytes that a metadata record takes as a type-length-value entry.
pub open spec fn metadata_entry_len(m: MetadataRecord) -> int {
    record_entry_len(m.name@, m.symbol@, m.uri@, m.additional_metadata@.map_values(|a: Attributes| attribute_texts(a)))
}

/// The record's encoding can be sized.
pub open spec fn metadata_fits(m: MetadataRecord) -> bool {
    record_fits(m.name@, m.symbol@, m.uri@, m.additional_metadata@.map_values(|a: Attributes| attribute_texts(a)))
}

/// Little-endian value of a byte sequence.
pub open spec fn le_value(b: Seq<u8>) -> nat
    decreases b.len(),
{
    if b.len() == 0 {
        0
    } else {
        b[0] as nat + 256 * le_value(b.drop_first())
    }
}

/// The amount recorded in a token account's bytes.
pub open spec fn account_amount(data: Seq<u8>) -> nat {
    le_value(data.subrange(ACCOUNT_AMOUNT_OFFSET as int, ACCOUNT_AMOUNT_OFFSET + 8))
}

/// Decimal digit `d` as a character.
pub open spec fn digit_char(d: nat) -> char {
    seq!['0', '1', '2', '3', '4', '5', '6', '7', '8', '9'][d as int]
}

/// Decimal text of a natural number, without leading zeros.
pub open spec fn decimal_text(n: nat) -> Seq<char>
    decreases n,
{
    if n < 10 {
        seq![digit_char(n)]
    } else {
        decimal_text(n / 10).push(digit_char(n % 10))
    }
}

/// Decimal text of an integer, with a leading '-' when negative.
pub open spec fn signed_decimal_text(n: int) -> Seq<char> {
    if n < 0 {
        seq!['-'] + decimal_text((-n) as nat)
    } else {
        decimal_text(n as nat)
    }
}

} // verus!

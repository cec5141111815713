//! Deterministic addresses: the seeds of each system object, and the check
//! that an address is the one derived from them.

use vstd::prelude::*;
use vstd::slice::slice_to_vec;
use vstd::utf8::encode_utf8;
use crate::interop::{find_program_address, program_address_of};
use crate::key::PublicKey;

verus! {

/// The first `len` bytes of `n` in little-endian order.
pub open spec fn le_bytes(n: nat, len: nat) -> Seq<u8>
    decreases len,
{
    if len == 0 {
        seq![]
    } else {
        seq![(n % 256) as u8] + le_bytes(n / 256, (len - 1) as nat)
    }
}

/// The views of a list of seeds.
pub open spec fn seeds_view(seeds: Seq<Vec<u8>>) -> Seq<Seq<u8>> {
    seeds.map_values(|s: Vec<u8>| s@)
}

/// `expected` is the address derived from `seeds` under `program`.
pub open spec fn derived_from(expected: Seq<u8>, seeds: Seq<Seq<u8>>, program: Seq<u8>) -> bool {
    program_address_of(seeds, program) matches Some(found) && found.0 == expected
}

/// The 8 little-endian bytes of `n`.
pub fn u64_le_bytes(n: u64) -> (r: Vec<u8>)
    ensures
        r@ == le_bytes(n as nat, 8),
{
    let mut r: Vec<u8> = Vec::new();
    let mut m: u64 = n;
    let mut i: usize = 0;
    while i < 8
        invariant
            i <= 8,
            r@ + le_bytes(m as nat, (8 - i) as nat) == le_bytes(n as nat, 8),
        decreases 8 - i,
    {
        let ghost before = r@;
        let ghost k = (8 - i) as nat;
        proof {
            assert(le_bytes(m as nat, k) == seq![(m as nat % 256) as u8] + le_bytes(m as nat / 256, (k - 1) as nat));
        }
        r.push((m % 256) as u8);
        proof {
            assert(r@ + le_bytes((m / 256) as nat, (k - 1) as nat) =~= before + le_bytes(m as nat, k));
        }
        m = m / 256;
        i = i + 1;
    }
    proof {
        assert(r@ + le_bytes(m as nat, 0) =~= r@);
    }
    r
}

/// The UTF-8 bytes of a label.
pub fn text_seed(s: &str) -> (r: Vec<u8>)
    ensures
        r@ == encode_utf8(s@),
{
    slice_to_vec(s.as_bytes())
}

/// The 32 bytes of a key, as a seed.
pub fn key_seed(k: &PublicKey) -> (r: Vec<u8>)
    ensures
        r@ == k.bytes@,
{
    let mut r: Vec<u8> = Vec::new();
    let mut i: usize = 0;
    while i < 32
        invariant
            i <= 32,
            r@ == k.bytes@.subrange(0, i as int),
        decreases 32 - i,
    {
        r.push(k.bytes[i]);
        i = i + 1;
        proof {
            assert(r@ =~= k.bytes@.subrange(0, i as int));
        }
    }
    proof {
        assert(r@ =~= k.bytes@);
    }
    r
}

/// Seeds of the protocol record.
pub fn protocol_seeds() -> (r: Vec<Vec<u8>>)
    ensures
        seeds_view(r@) == seq![encode_utf8("protocol"@)],
{
    let mut r: Vec<Vec<u8>> = Vec::new();
    r.push(text_seed("protocol"));
    proof {
        assert(seeds_view(r@) =~= seq![encode_utf8("protocol"@)]);
    }
    r
}

/// Seeds of the protocol authority.
pub fn auth_seeds() -> (r: Vec<Vec<u8>>)
    ensures
        seeds_view(r@) == seq![encode_utf8("auth"@)],
{
    let mut r: Vec<Vec<u8>> = Vec::new();
    r.push(text_seed("auth"));
    proof {
        assert(seeds_view(r@) =~= seq![encode_utf8("auth"@)]);
    }
    r
}

/// Seeds of an administrator's record.
pub fn admin_state_seeds(admin: &PublicKey) -> (r: Vec<Vec<u8>>)
    ensures
        seeds_view(r@) == seq![encode_utf8("admin_state"@), admin.bytes@],
{
    let mut r: Vec<Vec<u8>> = Vec::new();
    r.push(text_seed("admin_state"));
    r.push(key_seed(admin));
    proof {
        assert(seeds_view(r@) =~= seq![encode_utf8("admin_state"@), admin.bytes@]);
    }
    r
}

/// Seeds of the collection of `owner`.
pub fn collection_seeds(owner: &PublicKey) -> (r: Vec<Vec<u8>>)
    ensures
        seeds_view(r@) == seq![encode_utf8("collection"@), owner.bytes@],
{
    let mut r: Vec<Vec<u8>> = Vec::new();
    r.push(text_seed("collection"));
    r.push(key_seed(owner));
    proof {
        assert(seeds_view(r@) =~= seq![encode_utf8("collection"@), owner.bytes@]);
    }
    r
}

/// Seeds of placeholder `id` of the collection at `collection`.
pub fn placeholder_seeds(collection: &PublicKey, id: u64) -> (r: Vec<Vec<u8>>)
    ensures
        seeds_view(r@) == seq![encode_utf8("placeholder"@), collection.bytes@, le_bytes(id as nat, 8)],
{
    let mut r: Vec<Vec<u8>> = Vec::new();
    r.push(text_seed("placeholder"));
    r.push(key_seed(collection));
    r.push(u64_le_bytes(id));
    proof {
        assert(seeds_view(r@) =~= seq![encode_utf8("placeholder"@), collection.bytes@, le_bytes(id as nat, 8)]);
    }
    r
}

/// Seeds of the mint of the placeholder at `placeholder`.
pub fn mint_seeds(placeholder: &PublicKey) -> (r: Vec<Vec<u8>>)
    ensures
        seeds_view(r@) == seq![encode_utf8("mint"@), placeholder.bytes@],
{
    let mut r: Vec<Vec<u8>> = Vec::new();
    r.push(text_seed("mint"));
    r.push(key_seed(placeholder));
    proof {
        assert(seeds_view(r@) =~= seq![encode_utf8("mint"@), placeholder.bytes@]);
    }
    r
}

/// Seeds of the token account of `owner` for `mint` under `token_program`.
pub fn token_account_seeds(owner: &PublicKey, token_program: &PublicKey, mint: &PublicKey) -> (r: Vec<Vec<u8>>)
    ensures
        seeds_view(r@) == seq![owner.bytes@, token_program.bytes@, mint.bytes@],
{
    let mut r: Vec<Vec<u8>> = Vec::new();
    r.push(key_seed(owner));
    r.push(key_seed(token_program));
    r.push(key_seed(mint));
    proof {
        assert(seeds_view(r@) =~= seq![owner.bytes@, token_program.bytes@, mint.bytes@]);
    }
    r
}

/// Whether `expected` is the address derived from `seeds` under `program`.
pub fn is_derived(expected: &PublicKey, seeds: &Vec<Vec<u8>>, program: &PublicKey) -> (r: bool)
    ensures
        r == derived_from(expected.bytes@, seeds_view(seeds@), program.bytes@),
{
    match find_program_address(seeds, program) {
        Some((found, _bump)) => found.same_as(expected),
        None => false,
    }
}

} // verus!

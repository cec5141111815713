//! Account addresses and public keys as 32 plain bytes.

use vstd::prelude::*;

verus! {

/// Length of an address or public key in bytes.
pub const KEY_LEN: usize = 32;

/// An account address or signer identity.
#[derive(Clone, Copy, Debug)]
pub struct PublicKey {
    pub bytes: [u8; 32],
}

/// True when `data` holds `key` at `start..start + 32`.
pub open spec fn holds_key_at(data: Seq<u8>, start: int, key: Seq<u8>) -> bool {
    &&& 0 <= start
    &&& start + 32 <= data.len()
    &&& data.subrange(start, start + 32) == key
}

impl PublicKey {
    /// The all-zero key, which the ledger treats as "no key".
    pub open spec fn spec_is_zero(&self) -> bool {
        forall|i: int| 0 <= i < 32 ==> #[trigger] self.bytes@[i] == 0u8
    }

    pub fn new(bytes: [u8; 32]) -> (r: PublicKey)
        ensures
            r.bytes@ == bytes@,
    {
        PublicKey { bytes }
    }

    /// Byte-wise equality of two keys.
    pub fn same_as(&self, other: &PublicKey) -> (r: bool)
        ensures
            r == (self.bytes@ == other.bytes@),
    {
        let mut i: usize = 0;
        while i < KEY_LEN
            invariant
                i <= 32,
                forall|j: int| 0 <= j < i ==> self.bytes@[j] == other.bytes@[j],
            decreases 32 - i,
        {
            if self.bytes[i] != other.bytes[i] {
                return false;
            }
            i = i + 1;
        }
        proof {
            assert(self.bytes@ =~= other.bytes@);
        }
        true
    }

    /// Whether `data` holds this key at `start..start + 32`; false when `data` is too short.
    pub fn found_at(&self, data: &Vec<u8>, start: usize) -> (r: bool)
        ensures
            r == holds_key_at(data@, start as int, self.bytes@),
    {
        if start > data.len() || data.len() - start < KEY_LEN {
            return false;
        }
        let mut i: usize = 0;
        while i < KEY_LEN
            invariant
                i <= 32,
                start + 32 <= data.len(),
                forall|j: int| 0 <= j < i ==> data@[start + j] == self.bytes@[j],
            decreases 32 - i,
        {
            if data[start + i] != self.bytes[i] {
                proof {
                    assert(data@.subrange(start as int, start + 32)[i as int] != self.bytes@[i as int]);
                }
                return false;
            }
            i = i + 1;
        }
        proof {
            assert(data@.subrange(start as int, start + 32) =~= self.bytes@);
        }
        true
    }

    /// Reads the key stored at `start..start + 32` of `data`.
    pub fn read_at(data: &Vec<u8>, start: usize) -> (r: Option<PublicKey>)
        ensures
            r.is_some() == (start as int + 32 <= data@.len()),
            r.is_some() ==> holds_key_at(data@, start as int, r.unwrap().bytes@),
    {
        if start > data.len() || data.len() - start < KEY_LEN {
            return None;
        }
        let mut bytes: [u8; 32] = [0u8; 32];
        let mut i: usize = 0;
        while i < KEY_LEN
            invariant
                i <= 32,
                start + 32 <= data.len(),
                forall|j: int| 0 <= j < i ==> bytes@[j] == data@[start + j],
            decreases 32 - i,
        {
            bytes[i] = data[start + i];
            i = i + 1;
        }
        proof {
            assert(data@.subrange(start as int, start + 32) =~= bytes@);
        }
        Some(PublicKey { bytes })
    }

    /// Whether every byte is zero.
    pub fn is_zero(&self) -> (r: bool)
        ensures
            r == self.spec_is_zero(),
    {
        let mut i: usize = 0;
        while i < KEY_LEN
            invariant
                i <= 32,
                forall|j: int| 0 <= j < i ==> self.bytes@[j] == 0u8,
            decreases 32 - i,
        {
            if self.bytes[i] != 0 {
                return false;
            }
            i = i + 1;
        }
        true
    }
}

} // verus!

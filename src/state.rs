//! Persisted records of the protocol.

use vstd::prelude::*;
use crate::key::PublicKey;

verus! {

/// Storage of a `Protocol` record: tag and flag.
pub const PROTOCOL_SPACE: usize = 9;

/// Fixed part of an `Admin` record's storage.
pub const ADMIN_SPACE: usize = 52;

/// Fixed part of a `Collection` record's storage.
pub const COLLECTION_SPACE: usize = 136;

/// Fixed part of a `WhiteList`'s storage.
pub const WHITELIST_SPACE: usize = 16;

/// Fixed part of a `Placeholder` record's storage, its 8-byte tag included.
pub const PLACEHOLDER_SPACE: usize = 72;

/// Fixed part of an `AiNft` record's storage.
pub const AI_NFT_SPACE: usize = 96;

/// Process-wide switch that suspends issuance and claims.
#[derive(Clone, Copy, Debug)]
pub struct Protocol {
    pub locked: bool,
}

/// A registered administrator.
#[derive(Clone, Debug)]
pub struct Admin {
    pub publickey: PublicKey,
    pub username: String,
    pub initialized: i64,
}

/// Wallets admitted to a collection's early sale.
#[derive(Clone, Debug)]
pub struct WhiteList {
    pub wallets: Vec<PublicKey>,
}

/// A collection of placeholders and its sale terms.
#[derive(Clone, Debug)]
pub struct Collection {
    pub reference: PublicKey,
    pub name: String,
    pub symbol: String,
    pub owner: PublicKey,
    pub sale_start_time: i64,
    pub max_supply: u64,
    pub total_supply: u64,
    pub price: u64,
    pub stable_id: String,
    pub whitelist: WhiteList,
    pub whitelist_start_time: i64,
    pub whitelist_price: u64,
}

/// One issued placeholder of a collection.
#[derive(Clone, Debug)]
pub struct Placeholder {
    pub id: u64,
    pub collection: PublicKey,
    pub reference: String,
    pub name: String,
    pub price: u64,
    pub time_stamp: i64,
}

/// A key/value pair of descriptive metadata.
#[derive(Clone, Debug)]
pub struct Attributes {
    pub key: String,
    pub value: String,
}

/// A generated collectible of a collection.
#[derive(Clone, Debug)]
pub struct AiNft {
    pub id: u64,
    pub collection: PublicKey,
    pub reference: String,
    pub price: u64,
    pub time_stamp: i64,
    pub inscription: String,
    pub rank: u16,
}

impl Collection {
    /// The supply ceiling holds.
    pub open spec fn within_supply(&self) -> bool {
        self.total_supply <= self.max_supply
    }
}

} // verus!

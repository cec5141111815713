//! Placeholder collectibles: issuance planning and the signature-gated claim,
//! with the ledger's token program and transaction introspection left to the host.

pub mod key;
pub mod errors;
pub mod state;
pub mod token;
pub mod interop;
pub mod issuance;
pub mod claim;
pub mod addressing;

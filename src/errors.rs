//! Failure kinds of issuance and claim.

use vstd::prelude::*;

verus! {

/// Why an issuance or a claim was refused.
#[derive(Clone, Copy, Debug, PartialEq, Eq, Structural)]
pub enum FactoryError {
    /// An account is not at the address derived for it, or not the one its records name.
    AddressMismatch,
    /// The protocol is suspended.
    ProtocolLocked,
    /// The signer, or the signer or recipient inside the signature instruction, is not the expected one.
    UnauthorizedAdmin,
    /// The collection's supply ceiling forbids the operation.
    SoldOut,
    /// The preceding instruction is missing or is not a signature verification.
    InstructionsNotCorrect,
    /// The recipient does not hold exactly one unit after minting.
    InvalidBalancePostMint,
    /// The mint has no mint authority left, so nothing more can be minted.
    MintAuthorityRevoked,
    /// The authority key is the all-zero key, which metadata cannot name as its updater.
    InvalidAuthority,
    /// A size computation of the token layout failed.
    InvalidAccountLayout,
    /// A token account's data could not be read.
    InvalidAccountData,
}

} // verus!

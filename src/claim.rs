//! The signature-gated claim: a placeholder's unit goes to a recipient only
//! when the instruction just before the claim verifies the administrator's
//! signature over that recipient.

use vstd::prelude::*;
use vstd::utf8::encode_utf8;
use crate::addressing::{
    auth_seeds, derived_from, is_derived, le_bytes, mint_seeds, placeholder_seeds, protocol_seeds,
    token_account_seeds,
};
use crate::errors::FactoryError;
use crate::interop::{base58_key_of, key_from_base58, token_account_amount, token_amount_of};
use crate::key::{holds_key_at, PublicKey};
use crate::state::{Collection, Placeholder, Protocol};

verus! {

/// Where the signer's public key starts in a signature-verification payload.
pub const SIGNER_OFFSET: usize = 16;

/// Where the signed 32-byte message starts in a signature-verification payload.
pub const MESSAGE_OFFSET: usize = 112;

/// Bytes a signature-verification payload needs to hold both fields.
pub const PAYLOAD_MIN_LEN: usize = 144;

/// Base58 text of the signature-verification program's identity.
pub open spec fn signature_program_text() -> Seq<char> {
    "Ed25519SigVerify111111111111111111111111111"@
}

/// An instruction of the enclosing transaction: its program and its payload.
#[derive(Clone, Debug)]
pub struct InstructionView {
    pub program_id: PublicKey,
    pub data: Vec<u8>,
}

/// The two fields of a signature-verification payload that a claim reads.
#[derive(Clone, Copy, Debug)]
pub struct SignaturePayload {
    /// Who produced the signature.
    pub signer: PublicKey,
    /// The signed message: the recipient's public key.
    pub message: PublicKey,
}

/// One operation of the token service that hands out a claimed unit, in the order given.
#[derive(Clone, Copy, Debug)]
pub enum ClaimStep {
    /// Create `account`, the token account of `owner` for `mint`, unless it exists.
    CreateTokenAccount { payer: PublicKey, account: PublicKey, owner: PublicKey, mint: PublicKey },
    /// Mint `amount` units of `mint` to `to`, signed by `authority`.
    MintTo { mint: PublicKey, to: PublicKey, authority: PublicKey, amount: u64 },
    /// Clear the mint authority of `mint`, signed by `authority`.
    RevokeMintAuthority { mint: PublicKey, authority: PublicKey },
}

/// The accounts a claim reads and changes, as plain values.
#[derive(Clone, Debug)]
pub struct AirdropPlaceholder {
    /// The recipient.
    pub buyer: PublicKey,
    /// The fee payer, which must be the administrator.
    pub payer: PublicKey,
    pub collection: Collection,
    /// Address of the collection record.
    pub collection_key: PublicKey,
    pub collection_owner: PublicKey,
    /// Derived address of the recipient's token account for the mint.
    pub buyer_mint_ata: PublicKey,
    pub placeholder: Placeholder,
    /// Address of the placeholder record.
    pub placeholder_key: PublicKey,
    /// Derived address of the placeholder's mint.
    pub mint: PublicKey,
    /// The mint's current mint authority; none once the placeholder was claimed.
    pub mint_authority: Option<PublicKey>,
    /// Derived address of the protocol authority.
    pub auth: PublicKey,
    pub protocol: Protocol,
    /// Address of the protocol record.
    pub protocol_key: PublicKey,
    /// Identity of the token program that owns the mint.
    pub token_2022_program: PublicKey,
    /// Identity of the program that derives token account addresses.
    pub associated_token_program: PublicKey,
    /// Identity of this program, under which its addresses are derived.
    pub program_id: PublicKey,
}

/// The bytes of a key, if there is one.
pub open spec fn key_bytes(k: Option<PublicKey>) -> Option<Seq<u8>> {
    match k {
        Some(k) => Some(k.bytes@),
        None => None,
    }
}

/// The payload's fields, when it is long enough to hold them.
pub open spec fn payload_fields(data: Seq<u8>) -> Option<(Seq<u8>, Seq<u8>)> {
    if data.len() < PAYLOAD_MIN_LEN {
        None
    } else {
        Some((
            data.subrange(SIGNER_OFFSET as int, SIGNER_OFFSET + 32),
            data.subrange(MESSAGE_OFFSET as int, MESSAGE_OFFSET + 32),
        ))
    }
}

/// Why the instruction before a claim does not authorize `buyer`, if it does not.
/// `sig_program` is the signature-verification program's key, when known.
pub open spec fn signature_refusal(
    admin: Seq<u8>,
    buyer: Seq<u8>,
    sig_program: Option<Seq<u8>>,
    ix: Option<InstructionView>,
) -> Option<FactoryError> {
    match ix {
        None => Some(FactoryError::InstructionsNotCorrect),
        Some(ix) => {
            if sig_program != Some(ix.program_id.bytes@) {
                Some(FactoryError::InstructionsNotCorrect)
            } else {
                match payload_fields(ix.data@) {
                    None => Some(FactoryError::InstructionsNotCorrect),
                    Some(fields) => {
                        if fields.0 != admin {
                            Some(FactoryError::UnauthorizedAdmin)
                        } else if fields.1 != buyer {
                            Some(FactoryError::UnauthorizedAdmin)
                        } else {
                            None
                        }
                    },
                }
            }
        },
    }
}

/// Every account of a claim sits at the address derived for it, and the
/// collection is the one the placeholder belongs to.
pub open spec fn claim_addresses_ok(s: AirdropPlaceholder) -> bool {
    let program = s.program_id.bytes@;
    &&& s.collection_key.bytes@ == s.placeholder.collection.bytes@
    &&& derived_from(
        s.placeholder_key.bytes@,
        seq![encode_utf8("placeholder"@), s.placeholder.collection.bytes@, le_bytes(s.placeholder.id as nat, 8)],
        program,
    )
    &&& derived_from(s.mint.bytes@, seq![encode_utf8("mint"@), s.placeholder_key.bytes@], program)
    &&& derived_from(s.auth.bytes@, seq![encode_utf8("auth"@)], program)
    &&& derived_from(s.protocol_key.bytes@, seq![encode_utf8("protocol"@)], program)
    &&& derived_from(
        s.buyer_mint_ata.bytes@,
        seq![s.buyer.bytes@, s.token_2022_program.bytes@, s.mint.bytes@],
        s.associated_token_program.bytes@,
    )
}

/// The refusal of a claim that comes before its transaction is inspected:
/// addresses, lock, administrator, supply.
pub open spec fn claim_guard_refusal(s: AirdropPlaceholder, admin: Seq<u8>) -> Option<FactoryError> {
    if !claim_addresses_ok(s) {
        Some(FactoryError::AddressMismatch)
    } else if s.protocol.locked {
        Some(FactoryError::ProtocolLocked)
    } else if s.payer.bytes@ != admin {
        Some(FactoryError::UnauthorizedAdmin)
    } else if !(s.collection.max_supply > s.collection.total_supply) {
        Some(FactoryError::SoldOut)
    } else {
        None
    }
}

/// Why a claim is refused, if it is. `index` is the claim's position in its
/// transaction and `ix` the instruction before it, if it could be read.
pub open spec fn claim_refusal(
    s: AirdropPlaceholder,
    admin: Seq<u8>,
    sig_program: Option<Seq<u8>>,
    index: int,
    ix: Option<InstructionView>,
) -> Option<FactoryError> {
    if let Some(e) = claim_guard_refusal(s, admin) {
        Some(e)
    } else if index == 0 {
        None
    } else if let Some(e) = signature_refusal(admin, s.buyer.bytes@, sig_program, ix) {
        Some(e)
    } else if key_bytes(s.mint_authority) != Some(s.auth.bytes@) {
        Some(FactoryError::MintAuthorityRevoked)
    } else {
        None
    }
}

/// A claim that is accepted and hands out a unit.
pub open spec fn claim_mints(
    s: AirdropPlaceholder,
    admin: Seq<u8>,
    sig_program: Option<Seq<u8>>,
    index: int,
    ix: Option<InstructionView>,
) -> bool {
    claim_refusal(s, admin, sig_program, index, ix) is None && index > 0
}

/// The accounts after a claim that hands out a unit.
pub open spec fn claimed_state(s: AirdropPlaceholder) -> AirdropPlaceholder {
    AirdropPlaceholder {
        collection: Collection { total_supply: (s.collection.total_supply + 1) as u64, ..s.collection },
        mint_authority: None,
        ..s
    }
}

/// The operations of a claim that hands out a unit.
pub open spec fn claim_steps(s: AirdropPlaceholder) -> Seq<ClaimStep> {
    seq![
        (ClaimStep::CreateTokenAccount { payer: s.payer, account: s.buyer_mint_ata, owner: s.buyer, mint: s.mint }),
        (ClaimStep::MintTo { mint: s.mint, to: s.buyer_mint_ata, authority: s.auth, amount: 1 }),
        (ClaimStep::RevokeMintAuthority { mint: s.mint, authority: s.auth }),
    ]
}

impl SignaturePayload {
    /// Reads the signer and the message out of a signature-verification payload;
    /// none when the payload is too short to hold them.
    pub fn decode(data: &Vec<u8>) -> (r: Option<SignaturePayload>)
        ensures
            r is Some <==> payload_fields(data@) is Some,
            r matches Some(p) ==> payload_fields(data@) == Some((p.signer.bytes@, p.message.bytes@)),
    {
        if data.len() < PAYLOAD_MIN_LEN {
            return None;
        }
        let signer = PublicKey::read_at(data, SIGNER_OFFSET);
        let message = PublicKey::read_at(data, MESSAGE_OFFSET);
        match (signer, message) {
            (Some(signer), Some(message)) => Some(SignaturePayload { signer, message }),
            _ => None,
        }
    }
}

/// Whether `ix` carries the administrator's signature over `buyer`, given the
/// signature-verification program's key `sig_program` when it is known.
pub fn check_signature_instruction(
    admin: &PublicKey,
    buyer: &PublicKey,
    sig_program: &Option<PublicKey>,
    ix: &Option<InstructionView>,
) -> (r: Result<(), FactoryError>)
    ensures
        r is Ok <==> signature_refusal(admin.bytes@, buyer.bytes@, key_bytes(*sig_program), *ix) is None,
        r matches Err(e) ==> signature_refusal(admin.bytes@, buyer.bytes@, key_bytes(*sig_program), *ix) == Some(e),
{
    let ix = match ix {
        Some(ix) => ix,
        None => return Err(FactoryError::InstructionsNotCorrect),
    };
    match sig_program {
        Some(p) => {
            if !p.same_as(&ix.program_id) {
                return Err(FactoryError::InstructionsNotCorrect);
            }
        },
        None => return Err(FactoryError::InstructionsNotCorrect),
    }
    let payload = match SignaturePayload::decode(&ix.data) {
        Some(p) => p,
        None => return Err(FactoryError::InstructionsNotCorrect),
    };
    if !payload.signer.same_as(admin) {
        return Err(FactoryError::UnauthorizedAdmin);
    }
    if !payload.message.same_as(buyer) {
        return Err(FactoryError::UnauthorizedAdmin);
    }
    Ok(())
}

/// Whether the recipient's balance after minting is the single claimed unit.
pub fn check_balance(amount: u64) -> (r: Result<(), FactoryError>)
    ensures
        r == (if amount == 1 {
            Ok::<(), FactoryError>(())
        } else {
            Err(FactoryError::InvalidBalancePostMint)
        }),
{
    if amount == 1 {
        Ok(())
    } else {
        Err(FactoryError::InvalidBalancePostMint)
    }
}

/// The verdict on a recipient's token account, as stored after minting.
pub open spec fn post_mint_verdict(data: Seq<u8>) -> Result<(), FactoryError> {
    match token_amount_of(data) {
        Some(a) => if a == 1 {
            Ok(())
        } else {
            Err(FactoryError::InvalidBalancePostMint)
        },
        None => Err(FactoryError::InvalidAccountData),
    }
}

/// Checks the recipient's token account, as stored after minting, for the single claimed unit.
pub fn check_post_mint(data: &Vec<u8>) -> (r: Result<(), FactoryError>)
    ensures
        r == post_mint_verdict(data@),
{
    match token_account_amount(data) {
        Ok(amount) => check_balance(amount),
        Err(_) => Err(FactoryError::InvalidAccountData),
    }
}

impl AirdropPlaceholder {
    /// Whether every account sits at its derived address and the collection
    /// is the placeholder's.
    pub fn check_addresses(&self) -> (r: bool)
        ensures
            r == claim_addresses_ok(*self),
    {
        let program = &self.program_id;
        self.collection_key.same_as(&self.placeholder.collection)
            && is_derived(&self.placeholder_key, &placeholder_seeds(&self.placeholder.collection, self.placeholder.id), program)
            && is_derived(&self.mint, &mint_seeds(&self.placeholder_key), program)
            && is_derived(&self.auth, &auth_seeds(), program)
            && is_derived(&self.protocol_key, &protocol_seeds(), program)
            && is_derived(
                &self.buyer_mint_ata,
                &token_account_seeds(&self.buyer, &self.token_2022_program, &self.mint),
                &self.associated_token_program,
            )
    }

    /// The guards of a claim that need no look at its transaction, in order:
    /// addresses, lock, administrator `admin`, supply.
    pub fn check_claim_guards(&self, admin: &PublicKey) -> (r: Result<(), FactoryError>)
        ensures
            r is Ok <==> claim_guard_refusal(*self, admin.bytes@) is None,
            r matches Err(e) ==> claim_guard_refusal(*self, admin.bytes@) == Some(e),
    {
        if !self.check_addresses() {
            return Err(FactoryError::AddressMismatch);
        }
        if self.protocol.locked {
            return Err(FactoryError::ProtocolLocked);
        }
        if !self.payer.same_as(admin) {
            return Err(FactoryError::UnauthorizedAdmin);
        }
        if !(self.collection.max_supply > self.collection.total_supply) {
            return Err(FactoryError::SoldOut);
        }
        Ok(())
    }

    /// Decides a claim and applies it to the accounts. `admin` is the
    /// administrator's key, `current_index` the claim's position in its
    /// transaction, and `preceding` the instruction just before it, if it
    /// could be read. At position 0 the claim is accepted and does nothing.
    /// An accepted claim that hands out a unit counts it against the
    /// collection's supply, clears the mint authority, and returns the
    /// operations for the token service; a refused claim changes nothing.
    pub fn airdrop(
        &mut self,
        admin: &PublicKey,
        current_index: usize,
        preceding: &Option<InstructionView>,
    ) -> (r: Result<Vec<ClaimStep>, FactoryError>)
        ensures
            ({
                let sig = base58_key_of(signature_program_text());
                &&& r is Ok <==> claim_refusal(*old(self), admin.bytes@, sig, current_index as int, *preceding) is None
                &&& r matches Err(e) ==> claim_refusal(*old(self), admin.bytes@, sig, current_index as int, *preceding) == Some(e)
                &&& r is Err ==> *final(self) == *old(self)
                &&& r is Ok && current_index == 0 ==> r->Ok_0@.len() == 0 && *final(self) == *old(self)
                &&& r is Ok && current_index > 0 ==> r->Ok_0@ == claim_steps(*old(self)) && *final(self) == claimed_state(*old(self))
            }),
    {
        self.check_claim_guards(admin)?;
        if current_index == 0 {
            return Ok(Vec::new());
        }
        let sig_program = key_from_base58("Ed25519SigVerify111111111111111111111111111");
        proof {
            assert(key_bytes(sig_program) == base58_key_of(signature_program_text()));
        }
        check_signature_instruction(admin, &self.buyer, &sig_program, preceding)?;
        let authorized = match self.mint_authority {
            Some(a) => a.same_as(&self.auth),
            None => false,
        };
        if !authorized {
            return Err(FactoryError::MintAuthorityRevoked);
        }
        let mut steps: Vec<ClaimStep> = Vec::new();
        steps.push(ClaimStep::CreateTokenAccount {
            payer: self.payer,
            account: self.buyer_mint_ata,
            owner: self.buyer,
            mint: self.mint,
        });
        steps.push(ClaimStep::MintTo { mint: self.mint, to: self.buyer_mint_ata, authority: self.auth, amount: 1 });
        self.collection.total_supply = self.collection.total_supply + 1;
        steps.push(ClaimStep::RevokeMintAuthority { mint: self.mint, authority: self.auth });
        self.mint_authority = None;
        proof {
            assert(steps@ =~= claim_steps(*old(self)));
        }
        Ok(steps)
    }
}

/// A claim that passes the address, lock, administrator and supply guards at a
/// position after the first, but whose preceding instruction is missing or
/// belongs to another program than signature verification, is refused with
/// `InstructionsNotCorrect` (and a refused claim changes nothing).
pub proof fn lemma_claim_needs_signature_instruction(
    s: AirdropPlaceholder,
    admin: Seq<u8>,
    sig_program: Option<Seq<u8>>,
    index: int,
    ix: Option<InstructionView>,
)
    requires
        claim_addresses_ok(s),
        !s.protocol.locked,
        s.payer.bytes@ == admin,
        s.collection.max_supply > s.collection.total_supply,
        index > 0,
        ix is None || sig_program != Some(ix.unwrap().program_id.bytes@),
    ensures
        claim_refusal(s, admin, sig_program, index, ix) == Some(FactoryError::InstructionsNotCorrect),
{
}

/// A claim that passes the guards, whose preceding instruction is a
/// signature verification by the administrator, but whose signed message
/// names another recipient than the buyer, is refused with
/// `UnauthorizedAdmin`, so the collection's supply stays as it was.
pub proof fn lemma_claim_rejects_other_recipient(
    s: AirdropPlaceholder,
    admin: Seq<u8>,
    sig_program: Option<Seq<u8>>,
    index: int,
    ix: InstructionView,
)
    requires
        claim_addresses_ok(s),
        !s.protocol.locked,
        s.payer.bytes@ == admin,
        s.collection.max_supply > s.collection.total_supply,
        index > 0,
        sig_program == Some(ix.program_id.bytes@),
        ix.data@.len() >= PAYLOAD_MIN_LEN,
        holds_key_at(ix.data@, SIGNER_OFFSET as int, admin),
        !holds_key_at(ix.data@, MESSAGE_OFFSET as int, s.buyer.bytes@),
    ensures
        claim_refusal(s, admin, sig_program, index, Some(ix)) == Some(FactoryError::UnauthorizedAdmin),
{
}

/// Once a claim has handed out a placeholder's unit, no later claim on the
/// resulting accounts hands out another, whatever instruction accompanies it:
/// past the first position of a transaction every such claim is refused.
pub proof fn lemma_claim_not_repeatable(
    s: AirdropPlaceholder,
    admin: Seq<u8>,
    sig_program: Option<Seq<u8>>,
    index: int,
    ix: Option<InstructionView>,
    admin2: Seq<u8>,
    sig_program2: Option<Seq<u8>>,
    index2: int,
    ix2: Option<InstructionView>,
)
    requires
        claim_mints(s, admin, sig_program, index, ix),
    ensures
        !claim_mints(claimed_state(s), admin2, sig_program2, index2, ix2),
        index2 > 0 ==> claim_refusal(claimed_state(s), admin2, sig_program2, index2, ix2) is Some,
{
}

/// A claim that hands out a unit counts exactly one more against the
/// collection's supply and keeps the collection within its supply ceiling.
pub proof fn lemma_claim_keeps_supply_ceiling(
    s: AirdropPlaceholder,
    admin: Seq<u8>,
    sig_program: Option<Seq<u8>>,
    index: int,
    ix: Option<InstructionView>,
)
    requires
        claim_mints(s, admin, sig_program, index, ix),
    ensures
        claimed_state(s).collection.total_supply == s.collection.total_supply + 1,
        claimed_state(s).collection.within_supply(),
{
}

} // verus!

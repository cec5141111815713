//! Issuing a placeholder: the guards, the placeholder record, the metadata
//! record, and the ordered steps that build its token object.

use vstd::prelude::*;
use vstd::string::*;
use vstd::utf8::encode_utf8;
use crate::addressing::{
    admin_state_seeds, auth_seeds, collection_seeds, derived_from, is_derived, le_bytes, mint_seeds,
    placeholder_seeds, protocol_seeds,
};
use crate::errors::FactoryError;
use crate::interop::{
    base58_text_of, calculate_mint_len, i64_text, key_to_base58, metadata_tlv_size, nonzero_key,
    u128_text, u64_text,
};
use crate::key::PublicKey;
use crate::state::{Admin, Attributes, Collection, Placeholder, Protocol, PLACEHOLDER_SPACE};
use crate::token::{
    attribute_texts, decimal_text, metadata_entry_len, mint_account_len, record_entry_len, record_fits,
    signed_decimal_text, utf8_len, MetadataRecord, MintExtension,
};

verus! {

/// One operation of the token service that builds a placeholder's mint, in the order given.
#[derive(Clone, Copy, Debug)]
pub enum SetupStep {
    /// Create `account` with `space` bytes, funded for `funded_len` bytes, owned by `owner`.
    CreateAccount { payer: PublicKey, account: PublicKey, space: usize, funded_len: usize, owner: PublicKey },
    InitPermanentDelegate { mint: PublicKey, delegate: PublicKey },
    InitCloseAuthority { mint: PublicKey, close_authority: PublicKey },
    InitMetadataPointer { mint: PublicKey, authority: PublicKey, metadata_address: PublicKey },
    /// Base mint parameters; no freeze authority.
    InitMint { mint: PublicKey, mint_authority: PublicKey, decimals: u8 },
    /// The metadata record's name, symbol and uri.
    InitMetadata { mint: PublicKey, update_authority: PublicKey },
    /// Append the metadata record's additional field at `index`.
    UpdateField { mint: PublicKey, index: usize },
}

/// What an accepted issuance asks of the token service.
#[derive(Clone, Debug)]
pub struct IssuancePlan {
    pub metadata: MetadataRecord,
    pub steps: Vec<SetupStep>,
}

/// The accounts an issuance reads, as plain values.
#[derive(Clone, Debug)]
pub struct CreatePlaceholder {
    /// The signing administrator.
    pub admin: PublicKey,
    /// The registered administrator record.
    pub admin_state: Admin,
    /// Address of the administrator record.
    pub admin_state_key: PublicKey,
    pub collection: Collection,
    /// Address of the collection record.
    pub collection_key: PublicKey,
    /// The placeholder record, written by a successful issuance.
    pub placeholder: Placeholder,
    /// Address of the placeholder record.
    pub placeholder_key: PublicKey,
    /// Derived address of the placeholder's mint.
    pub mint: PublicKey,
    /// Derived address of the protocol authority.
    pub auth: PublicKey,
    /// Identity of the token program that owns the mint.
    pub token_2022_program: PublicKey,
    pub protocol: Protocol,
    /// Address of the protocol record.
    pub protocol_key: PublicKey,
    /// Identity of this program, under which its addresses are derived.
    pub program_id: PublicKey,
}

/// The extensions a placeholder's mint carries.
pub open spec fn placeholder_extensions() -> Seq<MintExtension> {
    seq![MintExtension::MintCloseAuthority, MintExtension::PermanentDelegate, MintExtension::MetadataPointer]
}

/// Storage of a placeholder's mint.
pub open spec fn placeholder_mint_len() -> int {
    mint_account_len(placeholder_extensions())
}

/// Number of additional metadata fields of a placeholder.
pub const PLACEHOLDER_FIELD_COUNT: usize = 6;

/// Text that precedes the collection's name in a placeholder's name.
pub open spec fn name_prefix() -> Seq<char> {
    "Placeholder for "@
}

/// Every account of issuing placeholder `id` sits at the address derived for it.
pub open spec fn issuance_addresses_ok(s: CreatePlaceholder, id: u64) -> bool {
    let program = s.program_id.bytes@;
    &&& derived_from(s.admin_state_key.bytes@, seq![encode_utf8("admin_state"@), s.admin.bytes@], program)
    &&& derived_from(s.collection_key.bytes@, seq![encode_utf8("collection"@), s.collection.owner.bytes@], program)
    &&& derived_from(
        s.placeholder_key.bytes@,
        seq![encode_utf8("placeholder"@), s.collection_key.bytes@, le_bytes(id as nat, 8)],
        program,
    )
    &&& derived_from(s.mint.bytes@, seq![encode_utf8("mint"@), s.placeholder_key.bytes@], program)
    &&& derived_from(s.auth.bytes@, seq![encode_utf8("auth"@)], program)
    &&& derived_from(s.protocol_key.bytes@, seq![encode_utf8("protocol"@)], program)
}

/// The first refusal of issuing placeholder `id`, if any.
pub open spec fn issuance_refusal(s: CreatePlaceholder, id: u64) -> Option<FactoryError> {
    if !issuance_addresses_ok(s, id) {
        Some(FactoryError::AddressMismatch)
    } else if s.protocol.locked {
        Some(FactoryError::ProtocolLocked)
    } else if s.admin_state.publickey.bytes@ != s.admin.bytes@ {
        Some(FactoryError::UnauthorizedAdmin)
    } else if s.collection.total_supply > s.collection.max_supply {
        Some(FactoryError::SoldOut)
    } else if s.auth.spec_is_zero() {
        Some(FactoryError::InvalidAuthority)
    } else {
        None
    }
}

/// The additional metadata fields of placeholder `id`, as key/value texts.
pub open spec fn placeholder_fields(s: CreatePlaceholder, id: u64, now: i64) -> Seq<(Seq<char>, Seq<char>)> {
    seq![
        ("id"@, decimal_text(id as nat)),
        ("count"@, decimal_text((s.collection.total_supply + 1) as nat)),
        ("timestamp"@, signed_decimal_text(now as int)),
        ("price"@, decimal_text(s.collection.price as nat)),
        ("collection"@, s.collection.name@),
        ("collection key"@, base58_text_of(s.collection_key.bytes@)),
    ]
}

/// `m` is the metadata record of placeholder `id` with address text `uri`.
pub open spec fn is_placeholder_metadata(m: MetadataRecord, s: CreatePlaceholder, id: u64, uri: Seq<char>, now: i64) -> bool {
    &&& m.update_authority == s.auth
    &&& m.mint == s.mint
    &&& m.name@ == name_prefix() + s.collection.name@
    &&& m.symbol@ == s.collection.symbol@
    &&& m.uri@ == uri
    &&& m.additional_metadata@.map_values(|a: Attributes| attribute_texts(a)) == placeholder_fields(s, id, now)
}

/// The metadata record of placeholder `id` and its mint can be sized.
pub open spec fn placeholder_layout_fits(s: CreatePlaceholder, id: u64, uri: Seq<char>, now: i64) -> bool {
    let name = name_prefix() + s.collection.name@;
    let fields = placeholder_fields(s, id, now);
    &&& record_fits(name, s.collection.symbol@, uri, fields)
    &&& placeholder_mint_len() + record_entry_len(name, s.collection.symbol@, uri, fields) <= usize::MAX
}

/// `p` is the placeholder record of placeholder `id` issued at `now`.
pub open spec fn is_issued_placeholder(p: Placeholder, s: CreatePlaceholder, id: u64, now: i64) -> bool {
    &&& p.id == id
    &&& p.collection == s.collection_key
    &&& p.reference@ == base58_text_of(s.collection.reference.bytes@)
    &&& p.name@ == s.collection.name@
    &&& p.price == s.collection.price
    &&& p.time_stamp == now
}

/// The steps that build a mint of `space` bytes funded for `funded_len` bytes
/// and then append `n_fields` metadata fields.
pub open spec fn setup_steps(s: CreatePlaceholder, space: int, funded_len: int, n_fields: int) -> Seq<SetupStep> {
    seq![
        (SetupStep::CreateAccount { payer: s.admin, account: s.mint, space: space as usize, funded_len: funded_len as usize, owner: s.token_2022_program }),
        (SetupStep::InitPermanentDelegate { mint: s.mint, delegate: s.auth }),
        (SetupStep::InitCloseAuthority { mint: s.mint, close_authority: s.auth }),
        (SetupStep::InitMetadataPointer { mint: s.mint, authority: s.auth, metadata_address: s.mint }),
        (SetupStep::InitMint { mint: s.mint, mint_authority: s.auth, decimals: 0 }),
        (SetupStep::InitMetadata { mint: s.mint, update_authority: s.auth }),
    ] + Seq::new(n_fields as nat, |i: int| (SetupStep::UpdateField { mint: s.mint, index: i as usize }))
}

impl CreatePlaceholder {
    /// Storage of the placeholder record: its fixed part, the collection key,
    /// the collection's name and symbol, price and timestamp.
    pub fn placeholder_space(&self) -> (r: usize)
        requires
            PLACEHOLDER_SPACE + 48 + utf8_len(self.collection.name@) + utf8_len(self.collection.symbol@) <= usize::MAX,
        ensures
            r == PLACEHOLDER_SPACE + 48 + utf8_len(self.collection.name@) + utf8_len(self.collection.symbol@),
    {
        PLACEHOLDER_SPACE + 32 + self.collection.name.as_str().len() + self.collection.symbol.as_str().len() + 8 + 8
    }

    /// Whether every account of issuing placeholder `id` sits at its derived address.
    pub fn check_addresses(&self, id: u64) -> (r: bool)
        ensures
            r == issuance_addresses_ok(*self, id),
    {
        let program = &self.program_id;
        is_derived(&self.admin_state_key, &admin_state_seeds(&self.admin), program)
            && is_derived(&self.collection_key, &collection_seeds(&self.collection.owner), program)
            && is_derived(&self.placeholder_key, &placeholder_seeds(&self.collection_key, id), program)
            && is_derived(&self.mint, &mint_seeds(&self.placeholder_key), program)
            && is_derived(&self.auth, &auth_seeds(), program)
            && is_derived(&self.protocol_key, &protocol_seeds(), program)
    }

    /// The guards of issuing placeholder `id`, in order: addresses, lock,
    /// administrator, supply, authority.
    pub fn check_issuance(&self, id: u64) -> (r: Result<(), FactoryError>)
        ensures
            r is Ok <==> issuance_refusal(*self, id) is None,
            r matches Err(e) ==> issuance_refusal(*self, id) == Some(e),
    {
        if !self.check_addresses(id) {
            return Err(FactoryError::AddressMismatch);
        }
        if self.protocol.locked {
            return Err(FactoryError::ProtocolLocked);
        }
        if !self.admin_state.publickey.same_as(&self.admin) {
            return Err(FactoryError::UnauthorizedAdmin);
        }
        if self.collection.total_supply > self.collection.max_supply {
            return Err(FactoryError::SoldOut);
        }
        match nonzero_key(&self.auth) {
            Ok(_) => Ok(()),
            Err(_) => Err(FactoryError::InvalidAuthority),
        }
    }

    /// The metadata record of placeholder `id`, issued at `now` with address text `uri`.
    pub fn metadata_record(&self, id: u64, uri: String, now: i64) -> (r: MetadataRecord)
        ensures
            is_placeholder_metadata(r, *self, id, uri@, now),
    {
        let name = String::from_str("Placeholder for ").concat(self.collection.name.as_str());
        let mut fields: Vec<Attributes> = Vec::new();
        fields.push(Attributes { key: String::from_str("id"), value: u64_text(id) });
        fields.push(Attributes { key: String::from_str("count"), value: u128_text(self.collection.total_supply as u128 + 1) });
        fields.push(Attributes { key: String::from_str("timestamp"), value: i64_text(now) });
        fields.push(Attributes { key: String::from_str("price"), value: u64_text(self.collection.price) });
        fields.push(Attributes { key: String::from_str("collection"), value: self.collection.name.clone() });
        fields.push(Attributes { key: String::from_str("collection key"), value: key_to_base58(&self.collection_key) });
        let r = MetadataRecord {
            update_authority: self.auth,
            mint: self.mint,
            name,
            symbol: self.collection.symbol.clone(),
            uri,
            additional_metadata: fields,
        };
        proof {
            assert(r.additional_metadata@.map_values(|a: Attributes| attribute_texts(a)) =~= placeholder_fields(*self, id, now));
        }
        r
    }

    /// The steps that build a mint of `space` bytes whose metadata entry takes
    /// `entry_len` bytes, then append `n_fields` metadata fields; fails when the
    /// funded length does not fit.
    pub fn issuance_steps(&self, space: usize, entry_len: usize, n_fields: usize) -> (r: Result<Vec<SetupStep>, FactoryError>)
        ensures
            r is Err <==> space + entry_len > usize::MAX,
            r matches Err(e) ==> e == FactoryError::InvalidAccountLayout,
            r matches Ok(steps) ==> steps@ == setup_steps(*self, space as int, space + entry_len, n_fields as int),
    {
        if space > usize::MAX - entry_len {
            return Err(FactoryError::InvalidAccountLayout);
        }
        let mut steps: Vec<SetupStep> = Vec::new();
        steps.push(SetupStep::CreateAccount {
            payer: self.admin,
            account: self.mint,
            space,
            funded_len: space + entry_len,
            owner: self.token_2022_program,
        });
        steps.push(SetupStep::InitPermanentDelegate { mint: self.mint, delegate: self.auth });
        steps.push(SetupStep::InitCloseAuthority { mint: self.mint, close_authority: self.auth });
        steps.push(SetupStep::InitMetadataPointer { mint: self.mint, authority: self.auth, metadata_address: self.mint });
        steps.push(SetupStep::InitMint { mint: self.mint, mint_authority: self.auth, decimals: 0 });
        steps.push(SetupStep::InitMetadata { mint: self.mint, update_authority: self.auth });
        let ghost head = steps@;
        let mut i: usize = 0;
        while i < n_fields
            invariant
                i <= n_fields,
                head.len() == 6,
                steps@ == head + Seq::new(i as nat, |j: int| (SetupStep::UpdateField { mint: self.mint, index: j as usize })),
            decreases n_fields - i,
        {
            steps.push(SetupStep::UpdateField { mint: self.mint, index: i });
            i = i + 1;
            proof {
                assert(steps@ =~= head + Seq::new(i as nat, |j: int| (SetupStep::UpdateField { mint: self.mint, index: j as usize })));
            }
        }
        proof {
            assert(steps@ =~= setup_steps(*self, space as int, space + entry_len, n_fields as int));
        }
        Ok(steps)
    }

    /// Issues placeholder `id` at time `now`: after the guards, writes the
    /// placeholder record and returns its metadata record and the steps that
    /// build its mint. A refused issuance changes nothing.
    pub fn create(&mut self, id: u64, uri: String, now: i64) -> (r: Result<IssuancePlan, FactoryError>)
        ensures
            r is Err ==> *final(self) == *old(self),
            issuance_refusal(*old(self), id) matches Some(e) ==> r == Err::<IssuancePlan, FactoryError>(e),
            issuance_refusal(*old(self), id) is None && placeholder_layout_fits(*old(self), id, uri@, now) ==> r is Ok,
            r matches Err(e) ==> issuance_refusal(*old(self), id) == Some(e) || (e == FactoryError::InvalidAccountLayout
                && issuance_refusal(*old(self), id) is None && !placeholder_layout_fits(*old(self), id, uri@, now)),
            r is Ok ==> issuance_refusal(*old(self), id) is None,
            r matches Ok(plan) ==> {
                &&& is_issued_placeholder(final(self).placeholder, *old(self), id, now)
                &&& *final(self) == (CreatePlaceholder { placeholder: final(self).placeholder, ..*old(self) })
                &&& is_placeholder_metadata(plan.metadata, *old(self), id, uri@, now)
                &&& plan.steps@ == setup_steps(
                    *old(self),
                    placeholder_mint_len(),
                    placeholder_mint_len() + metadata_entry_len(plan.metadata),
                    PLACEHOLDER_FIELD_COUNT as int,
                )
            },
    {
        self.check_issuance(id)?;
        let exts: Vec<MintExtension> = vec![
            MintExtension::MintCloseAuthority,
            MintExtension::PermanentDelegate,
            MintExtension::MetadataPointer,
        ];
        proof {
            assert(exts@ == placeholder_extensions());
            assert(exts@.no_duplicates());
        }
        let space = match calculate_mint_len(&exts) {
            Ok(n) => n,
            Err(_) => return Err(FactoryError::InvalidAccountLayout),
        };
        let metadata = self.metadata_record(id, uri, now);
        let entry_len = match metadata_tlv_size(&metadata) {
            Ok(n) => n,
            Err(_) => return Err(FactoryError::InvalidAccountLayout),
        };
        let steps = self.issuance_steps(space, entry_len, PLACEHOLDER_FIELD_COUNT)?;
        self.placeholder = Placeholder {
            id,
            collection: self.collection_key,
            reference: key_to_base58(&self.collection.reference),
            name: self.collection.name.clone(),
            price: self.collection.price,
            time_stamp: now,
        };
        Ok(IssuancePlan { metadata, steps })
    }
}

/// An issuance by the registered administrator, with every account at its
/// derived address, the protocol open, the supply not exceeded and a usable
/// authority, passes every guard (so `create` succeeds where its layout fits); among its
/// steps the one initialization of the mint makes the protocol authority its
/// mint authority with no decimals, and no step mints a unit.
pub proof fn lemma_issuance_accepted(s: CreatePlaceholder, id: u64, space: int, funded_len: int, n_fields: int)
    requires
        issuance_addresses_ok(s, id),
        !s.protocol.locked,
        s.admin_state.publickey.bytes@ == s.admin.bytes@,
        !(s.collection.total_supply > s.collection.max_supply),
        !s.auth.spec_is_zero(),
        n_fields >= 0,
    ensures
        issuance_refusal(s, id) is None,
        setup_steps(s, space, funded_len, n_fields)[4] == (SetupStep::InitMint { mint: s.mint, mint_authority: s.auth, decimals: 0 }),
        forall|i: int| 0 <= i < setup_steps(s, space, funded_len, n_fields).len() && i != 4
            ==> !(#[trigger] setup_steps(s, space, funded_len, n_fields)[i] is InitMint),
{
    let steps = setup_steps(s, space, funded_len, n_fields);
    assert forall|i: int| 0 <= i < steps.len() && i != 4 implies !(#[trigger] steps[i] is InitMint) by {
        if i >= 6 {
            assert(steps[i] == (SetupStep::UpdateField { mint: s.mint, index: (i - 6) as usize }));
        }
    }
}

} // verus!

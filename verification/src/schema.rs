//! The schema validator. Every record is stored behind a discriminant that
//! names its schema, and the bytes of an account are read as a record of a
//! schema only where the discriminant says so: two schemas of one layout
//! stay two schemas.
use crate::account::AccountHandle;
use crate::address::Address;
use crate::codec::write_u64;
use crate::error::ValidationError;
use crate::lifecycle::{
    is_initialized_spec, stored_discriminant, stored_discriminant_spec, DISCRIMINANT_BYTES,
};
use crate::relationship::ReferenceField;
use vstd::bytes::{lemma_auto_spec_u64_to_from_le_bytes, spec_u64_to_le_bytes};
use vstd::prelude::*;
use vstd::slice::slice_subrange;

verus! {

/// The schemas of the records that accounts hold.
#[derive(Clone, Copy, Debug, PartialEq, Eq, Structural)]
pub enum SchemaKind {
    /// A user's profile.
    UserProfile,
    /// An escrow account.
    EscrowAccount,
    /// A vault over a token account.
    TokenVault,
    /// A staking pool.
    StakingPool,
    /// A user's stake.
    UserStake,
    /// A vault.
    VaultData,
    /// A user's balance at a derived address.
    DerivedUserData,
    /// The configuration of a vault.
    VaultConfig,
    /// A user's data.
    UserData,
    /// A user's account.
    UserAccount,
    /// An administrator's account.
    AdminAccount,
}

/// A decoded record, tagged with its schema.
#[derive(Clone, Copy, Debug, PartialEq, Eq)]
pub enum TypedRecord {
    UserProfile(crate::account_data_matching::UserProfile),
    EscrowAccount(crate::account_data_matching::EscrowAccount),
    TokenVault(crate::account_data_matching::TokenVault),
    StakingPool(crate::arithmetic_errors::StakingPool),
    UserStake(crate::arithmetic_errors::UserStake),
    VaultData(crate::missing_owner_check::VaultData),
    DerivedUserData(crate::pda_issues::UserData),
    VaultConfig(crate::reinitialization::VaultConfig),
    UserData(crate::rent_exemption::UserData),
    UserAccount(crate::type_confusion::UserAccount),
    AdminAccount(crate::type_confusion::AdminAccount),
}

impl SchemaKind {
    /// The value that marks account data as a record of this schema. No
    /// schema has zero, which marks data that was never initialized, and no
    /// two schemas share a value.
    pub open spec fn discriminant_spec(self) -> u64 {
        match self {
            SchemaKind::UserProfile => 0x3333_3333_3333_3333,
            SchemaKind::EscrowAccount => 0x4444_4444_4444_4444,
            SchemaKind::TokenVault => 0x5555_5555_5555_5555,
            SchemaKind::StakingPool => 0x6666_6666_6666_6666,
            SchemaKind::UserStake => 0x7777_7777_7777_7777,
            SchemaKind::VaultData => 0x8888_8888_8888_8888,
            SchemaKind::DerivedUserData => 0x9999_9999_9999_9999,
            SchemaKind::VaultConfig => 0xAAAA_AAAA_AAAA_AAAA,
            SchemaKind::UserData => 0xBBBB_BBBB_BBBB_BBBB,
            SchemaKind::UserAccount => 0x1111_1111_1111_1111,
            SchemaKind::AdminAccount => 0x2222_2222_2222_2222,
        }
    }

    /// The discriminant of the schema.
    pub fn discriminant(&self) -> (r: u64)
        ensures
            r == self.discriminant_spec(),
            r != 0,
    {
        match self {
            SchemaKind::UserProfile => 0x3333_3333_3333_3333,
            SchemaKind::EscrowAccount => 0x4444_4444_4444_4444,
            SchemaKind::TokenVault => 0x5555_5555_5555_5555,
            SchemaKind::StakingPool => 0x6666_6666_6666_6666,
            SchemaKind::UserStake => 0x7777_7777_7777_7777,
            SchemaKind::VaultData => 0x8888_8888_8888_8888,
            SchemaKind::DerivedUserData => 0x9999_9999_9999_9999,
            SchemaKind::VaultConfig => 0xAAAA_AAAA_AAAA_AAAA,
            SchemaKind::UserData => 0xBBBB_BBBB_BBBB_BBBB,
            SchemaKind::UserAccount => 0x1111_1111_1111_1111,
            SchemaKind::AdminAccount => 0x2222_2222_2222_2222,
        }
    }

    /// The record of this schema that `payload` encodes, where it encodes one.
    pub open spec fn parse_spec(self, payload: Seq<u8>) -> Option<TypedRecord> {
        match self {
            SchemaKind::UserProfile => match crate::account_data_matching::UserProfile::parse_spec(
                payload,
            ) {
                Some(record) => Some(TypedRecord::UserProfile(record)),
                None => None,
            },
            SchemaKind::EscrowAccount => match crate::account_data_matching::EscrowAccount::parse_spec(
                payload,
            ) {
                Some(record) => Some(TypedRecord::EscrowAccount(record)),
                None => None,
            },
            SchemaKind::TokenVault => match crate::account_data_matching::TokenVault::parse_spec(
                payload,
            ) {
                Some(record) => Some(TypedRecord::TokenVault(record)),
                None => None,
            },
            SchemaKind::StakingPool => match crate::arithmetic_errors::StakingPool::parse_spec(
                payload,
            ) {
                Some(record) => Some(TypedRecord::StakingPool(record)),
                None => None,
            },
            SchemaKind::UserStake => match crate::arithmetic_errors::UserStake::parse_spec(
                payload,
            ) {
                Some(record) => Some(TypedRecord::UserStake(record)),
                None => None,
            },
            SchemaKind::VaultData => match crate::missing_owner_check::VaultData::parse_spec(
                payload,
            ) {
                Some(record) => Some(TypedRecord::VaultData(record)),
                None => None,
            },
            SchemaKind::DerivedUserData => match crate::pda_issues::UserData::parse_spec(payload) {
                Some(record) => Some(TypedRecord::DerivedUserData(record)),
                None => None,
            },
            SchemaKind::VaultConfig => match crate::reinitialization::VaultConfig::parse_spec(
                payload,
            ) {
                Some(record) => Some(TypedRecord::VaultConfig(record)),
                None => None,
            },
            SchemaKind::UserData => match crate::rent_exemption::UserData::parse_spec(payload) {
                Some(record) => Some(TypedRecord::UserData(record)),
                None => None,
            },
            SchemaKind::UserAccount => match crate::type_confusion::UserAccount::parse_spec(
                payload,
            ) {
                Some(record) => Some(TypedRecord::UserAccount(record)),
                None => None,
            },
            SchemaKind::AdminAccount => match crate::type_confusion::AdminAccount::parse_spec(
                payload,
            ) {
                Some(record) => Some(TypedRecord::AdminAccount(record)),
                None => None,
            },
        }
    }

    /// Decodes a record of this schema from `payload`.
    pub fn parse(&self, payload: &[u8]) -> (r: Option<TypedRecord>)
        ensures
            r == self.parse_spec(payload@),
    {
        match self {
            SchemaKind::UserProfile => match crate::account_data_matching::UserProfile::parse(
                payload,
            ) {
                Some(record) => Some(TypedRecord::UserProfile(record)),
                None => None,
            },
            SchemaKind::EscrowAccount => match crate::account_data_matching::EscrowAccount::parse(
                payload,
            ) {
                Some(record) => Some(TypedRecord::EscrowAccount(record)),
                None => None,
            },
            SchemaKind::TokenVault => match crate::account_data_matching::TokenVault::parse(
                payload,
            ) {
                Some(record) => Some(TypedRecord::TokenVault(record)),
                None => None,
            },
            SchemaKind::StakingPool => match crate::arithmetic_errors::StakingPool::parse(payload) {
                Some(record) => Some(TypedRecord::StakingPool(record)),
                None => None,
            },
            SchemaKind::UserStake => match crate::arithmetic_errors::UserStake::parse(payload) {
                Some(record) => Some(TypedRecord::UserStake(record)),
                None => None,
            },
            SchemaKind::VaultData => match crate::missing_owner_check::VaultData::parse(payload) {
                Some(record) => Some(TypedRecord::VaultData(record)),
                None => None,
            },
            SchemaKind::DerivedUserData => match crate::pda_issues::UserData::parse(payload) {
                Some(record) => Some(TypedRecord::DerivedUserData(record)),
                None => None,
            },
            SchemaKind::VaultConfig => match crate::reinitialization::VaultConfig::parse(payload) {
                Some(record) => Some(TypedRecord::VaultConfig(record)),
                None => None,
            },
            SchemaKind::UserData => match crate::rent_exemption::UserData::parse(payload) {
                Some(record) => Some(TypedRecord::UserData(record)),
                None => None,
            },
            SchemaKind::UserAccount => match crate::type_confusion::UserAccount::parse(payload) {
                Some(record) => Some(TypedRecord::UserAccount(record)),
                None => None,
            },
            SchemaKind::AdminAccount => match crate::type_confusion::AdminAccount::parse(payload) {
                Some(record) => Some(TypedRecord::AdminAccount(record)),
                None => None,
            },
        }
    }
}

impl TypedRecord {
    /// The schema of the record.
    pub open spec fn kind_spec(self) -> SchemaKind {
        match self {
            TypedRecord::UserProfile(_) => SchemaKind::UserProfile,
            TypedRecord::EscrowAccount(_) => SchemaKind::EscrowAccount,
            TypedRecord::TokenVault(_) => SchemaKind::TokenVault,
            TypedRecord::StakingPool(_) => SchemaKind::StakingPool,
            TypedRecord::UserStake(_) => SchemaKind::UserStake,
            TypedRecord::VaultData(_) => SchemaKind::VaultData,
            TypedRecord::DerivedUserData(_) => SchemaKind::DerivedUserData,
            TypedRecord::VaultConfig(_) => SchemaKind::VaultConfig,
            TypedRecord::UserData(_) => SchemaKind::UserData,
            TypedRecord::UserAccount(_) => SchemaKind::UserAccount,
            TypedRecord::AdminAccount(_) => SchemaKind::AdminAccount,
        }
    }

    /// The schema of the record.
    pub fn kind(&self) -> (r: SchemaKind)
        ensures
            r == self.kind_spec(),
    {
        match self {
            TypedRecord::UserProfile(_) => SchemaKind::UserProfile,
            TypedRecord::EscrowAccount(_) => SchemaKind::EscrowAccount,
            TypedRecord::TokenVault(_) => SchemaKind::TokenVault,
            TypedRecord::StakingPool(_) => SchemaKind::StakingPool,
            TypedRecord::UserStake(_) => SchemaKind::UserStake,
            TypedRecord::VaultData(_) => SchemaKind::VaultData,
            TypedRecord::DerivedUserData(_) => SchemaKind::DerivedUserData,
            TypedRecord::VaultConfig(_) => SchemaKind::VaultConfig,
            TypedRecord::UserData(_) => SchemaKind::UserData,
            TypedRecord::UserAccount(_) => SchemaKind::UserAccount,
            TypedRecord::AdminAccount(_) => SchemaKind::AdminAccount,
        }
    }

    /// The encoded fields of the record.
    pub open spec fn payload_spec(self) -> Seq<u8> {
        match self {
            TypedRecord::UserProfile(record) => record.payload_spec(),
            TypedRecord::EscrowAccount(record) => record.payload_spec(),
            TypedRecord::TokenVault(record) => record.payload_spec(),
            TypedRecord::StakingPool(record) => record.payload_spec(),
            TypedRecord::UserStake(record) => record.payload_spec(),
            TypedRecord::VaultData(record) => record.payload_spec(),
            TypedRecord::DerivedUserData(record) => record.payload_spec(),
            TypedRecord::VaultConfig(record) => record.payload_spec(),
            TypedRecord::UserData(record) => record.payload_spec(),
            TypedRecord::UserAccount(record) => record.payload_spec(),
            TypedRecord::AdminAccount(record) => record.payload_spec(),
        }
    }

    /// The bytes an account holds for the record: the discriminant of its
    /// schema, then its encoded fields.
    pub open spec fn encode_spec(self) -> Seq<u8> {
        spec_u64_to_le_bytes(self.kind_spec().discriminant_spec()) + self.payload_spec()
    }

    /// Encodes the record, discriminant first.
    pub fn encode(&self) -> (r: Vec<u8>)
        ensures
            r@ == self.encode_spec(),
    {
        let mut out: Vec<u8> = Vec::new();
        write_u64(&mut out, self.kind().discriminant());
        match self {
            TypedRecord::UserProfile(record) => record.write_payload(&mut out),
            TypedRecord::EscrowAccount(record) => record.write_payload(&mut out),
            TypedRecord::TokenVault(record) => record.write_payload(&mut out),
            TypedRecord::StakingPool(record) => record.write_payload(&mut out),
            TypedRecord::UserStake(record) => record.write_payload(&mut out),
            TypedRecord::VaultData(record) => record.write_payload(&mut out),
            TypedRecord::DerivedUserData(record) => record.write_payload(&mut out),
            TypedRecord::VaultConfig(record) => record.write_payload(&mut out),
            TypedRecord::UserData(record) => record.write_payload(&mut out),
            TypedRecord::UserAccount(record) => record.write_payload(&mut out),
            TypedRecord::AdminAccount(record) => record.write_payload(&mut out),
        }
        assert(out@ =~= self.encode_spec());
        out
    }

    /// The address that the record stores in `field`, where its schema has
    /// that field.
    pub open spec fn reference_spec(self, field: ReferenceField) -> Option<Address> {
        match (self, field) {
            (TypedRecord::UserProfile(record), ReferenceField::Owner) => Some(record.owner),
            (TypedRecord::UserProfile(record), ReferenceField::EscrowAccount) => Some(
                record.escrow_account,
            ),
            (TypedRecord::EscrowAccount(record), ReferenceField::Beneficiary) => Some(
                record.beneficiary,
            ),
            (TypedRecord::TokenVault(record), ReferenceField::Authority) => Some(record.authority),
            (TypedRecord::TokenVault(record), ReferenceField::TokenAccount) => Some(
                record.token_account,
            ),
            (TypedRecord::VaultData(record), ReferenceField::Authority) => Some(record.authority),
            (TypedRecord::DerivedUserData(record), ReferenceField::Owner) => Some(record.owner),
            (TypedRecord::VaultConfig(record), ReferenceField::Authority) => Some(record.authority),
            (TypedRecord::UserData(record), ReferenceField::Owner) => Some(record.owner),
            (TypedRecord::UserAccount(record), ReferenceField::Owner) => Some(record.owner),
            (TypedRecord::AdminAccount(record), ReferenceField::Owner) => Some(record.owner),
            _ => None,
        }
    }

    /// Reads the address that the record stores in `field`.
    pub fn reference(&self, field: ReferenceField) -> (r: Option<Address>)
        ensures
            r == self.reference_spec(field),
    {
        match (self, field) {
            (TypedRecord::UserProfile(record), ReferenceField::Owner) => Some(record.owner),
            (TypedRecord::UserProfile(record), ReferenceField::EscrowAccount) => Some(
                record.escrow_account,
            ),
            (TypedRecord::EscrowAccount(record), ReferenceField::Beneficiary) => Some(
                record.beneficiary,
            ),
            (TypedRecord::TokenVault(record), ReferenceField::Authority) => Some(record.authority),
            (TypedRecord::TokenVault(record), ReferenceField::TokenAccount) => Some(
                record.token_account,
            ),
            (TypedRecord::VaultData(record), ReferenceField::Authority) => Some(record.authority),
            (TypedRecord::DerivedUserData(record), ReferenceField::Owner) => Some(record.owner),
            (TypedRecord::VaultConfig(record), ReferenceField::Authority) => Some(record.authority),
            (TypedRecord::UserData(record), ReferenceField::Owner) => Some(record.owner),
            (TypedRecord::UserAccount(record), ReferenceField::Owner) => Some(record.owner),
            (TypedRecord::AdminAccount(record), ReferenceField::Owner) => Some(record.owner),
            _ => None,
        }
    }
}

/// What account data decodes to as a record of `schema`: `SchemaMismatch`
/// where the data is too short to hold a discriminant, where the discriminant
/// is not that of `schema`, or where what follows the discriminant is not the
/// encoding of a record of `schema`.
pub open spec fn decode_spec(data: Seq<u8>, schema: SchemaKind) -> Result<
    TypedRecord,
    ValidationError,
> {
    match stored_discriminant_spec(data) {
        None => Err(ValidationError::SchemaMismatch),
        Some(discriminant) => if discriminant != schema.discriminant_spec() {
            Err(ValidationError::SchemaMismatch)
        } else {
            match schema.parse_spec(data.subrange(8, data.len() as int)) {
                Some(record) => Ok(record),
                None => Err(ValidationError::SchemaMismatch),
            }
        },
    }
}

/// Decodes the handle's data as a record of `schema`. The discriminant is
/// read and compared first; only where it is that of `schema` are the bytes
/// after it parsed.
pub fn decode_as(handle: &AccountHandle, schema: SchemaKind) -> (r: Result<
    TypedRecord,
    ValidationError,
>)
    ensures
        r == decode_spec(handle@.data, schema),
{
    let data = handle.data.as_slice();
    match stored_discriminant(data) {
        None => Err(ValidationError::SchemaMismatch),
        Some(discriminant) => {
            if discriminant != schema.discriminant() {
                return Err(ValidationError::SchemaMismatch);
            }
            match schema.parse(slice_subrange(data, DISCRIMINANT_BYTES, data.len())) {
                Some(record) => Ok(record),
                None => Err(ValidationError::SchemaMismatch),
            }
        },
    }
}

/// A record's fields parse back from their encoding.
pub proof fn lemma_parse_payload(record: TypedRecord)
    ensures
        record.kind_spec().parse_spec(record.payload_spec()) == Some(record),
{
    match record {
        TypedRecord::UserProfile(inner) => inner.lemma_round_trip(),
        TypedRecord::EscrowAccount(inner) => inner.lemma_round_trip(),
        TypedRecord::TokenVault(inner) => inner.lemma_round_trip(),
        TypedRecord::StakingPool(inner) => inner.lemma_round_trip(),
        TypedRecord::UserStake(inner) => inner.lemma_round_trip(),
        TypedRecord::VaultData(inner) => inner.lemma_round_trip(),
        TypedRecord::DerivedUserData(inner) => inner.lemma_round_trip(),
        TypedRecord::VaultConfig(inner) => inner.lemma_round_trip(),
        TypedRecord::UserData(inner) => inner.lemma_round_trip(),
        TypedRecord::UserAccount(inner) => inner.lemma_round_trip(),
        TypedRecord::AdminAccount(inner) => inner.lemma_round_trip(),
    }
}

/// The encoding of a record starts with the discriminant of its schema, and
/// so marks the account initialized.
pub proof fn lemma_encoded_discriminant(record: TypedRecord)
    ensures
        stored_discriminant_spec(record.encode_spec()) == Some(
            record.kind_spec().discriminant_spec(),
        ),
        is_initialized_spec(record.encode_spec()),
        record.encode_spec().subrange(8, record.encode_spec().len() as int)
            == record.payload_spec(),
{
    lemma_auto_spec_u64_to_from_le_bytes();
    let encoded = record.encode_spec();
    let lead = spec_u64_to_le_bytes(record.kind_spec().discriminant_spec());
    assert(encoded.subrange(0, 8) =~= lead);
    assert(encoded.subrange(8, encoded.len() as int) =~= record.payload_spec());
}

/// Decoding undoes encoding: the bytes written for a record decode, as a
/// record of its own schema, to that record.
pub proof fn lemma_decode_encode(record: TypedRecord)
    ensures
        decode_spec(record.encode_spec(), record.kind_spec()) == Ok::<
            TypedRecord,
            ValidationError,
        >(record),
{
    lemma_encoded_discriminant(record);
    lemma_parse_payload(record);
}

/// No type confusion: the bytes written for a record of one schema never
/// decode as a record of another, whatever the two layouts are.
pub proof fn lemma_decode_other_schema(record: TypedRecord, schema: SchemaKind)
    requires
        schema != record.kind_spec(),
    ensures
        decode_spec(record.encode_spec(), schema) == Err::<TypedRecord, ValidationError>(
            ValidationError::SchemaMismatch,
        ),
{
    lemma_encoded_discriminant(record);
}

} // verus!

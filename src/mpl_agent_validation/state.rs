//! The records of the agent validation registry.

use vstd::prelude::*;
use crate::address::{seeds_view, verification, verify_derivation, with_bump, seeds_with_bump, Address};
use crate::plan::{creates, AccountCreation};
use crate::record::{append_address, bound_image, decode_bound, encode_bound, zero_padding};
use super::error::MplAgentValidationError;
use super::instruction::RegisterValidationV1Accounts;

verus! {

/// The kind of a record, stored as its leading byte; 0 marks storage that
/// holds no record yet.
#[derive(Clone, Copy, Debug, PartialEq, Eq, Structural)]
pub enum Key {
    Uninitialized,
    AgentValidationV1,
    CollectionValidationConfigV1,
}

impl Key {
    /// The byte that stands for the kind.
    pub open spec fn spec_to_u8(self) -> u8 {
        match self {
            Key::Uninitialized => 0,
            Key::AgentValidationV1 => 1,
            Key::CollectionValidationConfigV1 => 2,
        }
    }

    /// The kind that a byte stands for; unknown bytes read as uninitialized.
    pub open spec fn spec_from_u8(v: u8) -> Key {
        match v {
            0 => Key::Uninitialized,
            1 => Key::AgentValidationV1,
            2 => Key::CollectionValidationConfigV1,
            _ => Key::Uninitialized,
        }
    }
}

impl From<u8> for Key {
    fn from(value: u8) -> (r: Key) {
        match value {
            0 => Key::Uninitialized,
            1 => Key::AgentValidationV1,
            2 => Key::CollectionValidationConfigV1,
            _ => Key::Uninitialized,
        }
    }
}

impl vstd::std_specs::convert::FromSpecImpl<u8> for Key {
    open spec fn obeys_from_spec() -> bool {
        true
    }

    open spec fn from_spec(v: u8) -> Key {
        Key::spec_from_u8(v)
    }
}

impl From<Key> for u8 {
    fn from(value: Key) -> (r: u8) {
        match value {
            Key::Uninitialized => 0,
            Key::AgentValidationV1 => 1,
            Key::CollectionValidationConfigV1 => 2,
        }
    }
}

impl vstd::std_specs::convert::FromSpecImpl<Key> for u8 {
    open spec fn obeys_from_spec() -> bool {
        true
    }

    open spec fn from_spec(v: Key) -> u8 {
        v.spec_to_u8()
    }
}

/// The seed prefix of an agent validation record addresses: `agent_validation`.
pub open spec fn agent_validation_prefix() -> Seq<u8> {
    seq![97u8, 103, 101, 110, 116, 95, 118, 97, 108, 105, 100, 97, 116, 105, 111, 110]
}

/// An agent validation record, bound to an asset at an address derived from it.
///
/// Layout: the kind byte, the bump, six bytes of padding and the asset's
/// address; 40 bytes.
#[derive(Clone, Copy, Debug)]
pub struct AgentValidationV1 {
    /// The record's kind.
    pub key: u8,
    /// The bump of the record's derived address.
    pub bump: u8,
    /// Padding for 8-byte alignment.
    pub _padding: [u8; 6],
    /// The address of the asset.
    pub asset: Address,
}

impl AgentValidationV1 {
    /// The record's byte length.
    pub const LEN: usize = 40;

    /// The record's bytes.
    pub open spec fn image(&self) -> Seq<u8> {
        bound_image(self.key, self.bump, self._padding@, self.asset@)
    }

    /// The bytes of a freshly initialized record.
    pub open spec fn initialized_image(bump: u8, asset: Seq<u8>) -> Seq<u8> {
        bound_image(1, bump, zero_padding(), asset)
    }

    /// The seeds of the record's address, before the bump.
    pub open spec fn spec_seeds(asset: Seq<u8>) -> Seq<Seq<u8>> {
        seq![agent_validation_prefix(), asset]
    }

    /// The seed prefix.
    pub fn prefix() -> (r: Vec<u8>)
        ensures
            r@ == agent_validation_prefix(),
    {
        let r: Vec<u8> = vec![97u8, 103, 101, 110, 116, 95, 118, 97, 108, 105, 100, 97, 116, 105, 111, 110];
        assert(r@ =~= agent_validation_prefix());
        r
    }

    /// The seeds of the record's address for the given asset, before the bump.
    pub fn seeds(asset: &Address) -> (r: Vec<Vec<u8>>)
        ensures
            seeds_view(r@) == Self::spec_seeds(asset@),
    {
        let mut r: Vec<Vec<u8>> = Vec::new();
        r.push(Self::prefix());
        let mut e: Vec<u8> = Vec::new();
        append_address(&mut e, asset);
        assert(e@ =~= asset@);
        r.push(e);
        assert(seeds_view(r@) =~= Self::spec_seeds(asset@));
        r
    }

    /// A record of zero bytes, as newly allocated storage holds it.
    pub fn zeroed() -> (r: AgentValidationV1)
        ensures
            r.image() == Seq::new(40, |i: int| 0u8),
    {
        let r = AgentValidationV1 { key: 0, bump: 0, _padding: [0u8; 6], asset: Address { bytes: [0u8; 32] } };
        assert(r.image() =~= Seq::new(40, |i: int| 0u8));
        r
    }

    /// Writes the initial record: its kind, the verified bump, zero padding
    /// and the bound asset.
    pub fn initialize(&mut self, bump: u8, asset: &Address)
        ensures
            final(self).key == 1,
            final(self).bump == bump,
            final(self)._padding@ == zero_padding(),
            final(self).asset@ == asset@,
            final(self).image() == Self::initialized_image(bump, asset@),
    {
        self.key = u8::from(Key::AgentValidationV1);
        self.bump = bump;
        self._padding = [0u8; 6];
        self.asset = *asset;
        assert(self._padding@ =~= zero_padding());
    }

    /// The record in its byte layout.
    pub fn to_bytes(&self) -> (r: Vec<u8>)
        ensures
            r@ == self.image(),
            r@.len() == Self::LEN,
    {
        encode_bound(self.key, self.bump, &self._padding, &self.asset)
    }

    /// Reads the record from the head of a buffer; `None` where the buffer is
    /// shorter than the record.
    pub fn from_bytes(data: &[u8]) -> (r: Option<AgentValidationV1>)
        ensures
            r is None <==> data@.len() < Self::LEN,
            r matches Some(v) ==> v.image() == data@.subrange(0, Self::LEN as int),
    {
        match decode_bound(data) {
            Some((key, bump, padding, asset)) => Some(AgentValidationV1 { key, bump, _padding: padding, asset }),
            None => None,
        }
    }

    /// Verifies that `address` is the record's canonical address for the
    /// asset, and returns its bump.
    pub fn check_pda_derivation(address: &Address, asset: &Address, program_id: &Address) -> (r: Result<u8, MplAgentValidationError>)
        ensures
            match verification(address@, program_id@, Self::spec_seeds(asset@)) {
                Some(b) => r == Ok::<u8, MplAgentValidationError>(b),
                None => r == Err::<u8, MplAgentValidationError>(MplAgentValidationError::InvalidAccountData),
            },
    {
        let seeds = Self::seeds(asset);
        match verify_derivation(address, program_id, &seeds) {
            Some(b) => Ok(b),
            None => Err(MplAgentValidationError::InvalidAccountData),
        }
    }

    /// The request to create the record's account at its derived address,
    /// owned by the program, with the initialized record as its image.
    pub fn create_account(accounts: &RegisterValidationV1Accounts, bump: u8, program_id: &Address) -> (r: AccountCreation)
        ensures
            creates(
                r,
                accounts.agent_validation@,
                accounts.payer@,
                40,
                program_id@,
                with_bump(Self::spec_seeds(accounts.asset@), bump),
                Self::initialized_image(bump, accounts.asset@),
            ),
    {
        let mut record = AgentValidationV1::zeroed();
        record.initialize(bump, &accounts.asset);
        let seeds = Self::seeds(&accounts.asset);
        AccountCreation {
            address: accounts.agent_validation,
            payer: accounts.payer,
            space: 40,
            owner: *program_id,
            signer_seeds: seeds_with_bump(&seeds, bump),
            image: record.to_bytes(),
        }
    }
}

/// The seed prefix of a collection validation config addresses: `collection_validation_config`.
pub open spec fn collection_validation_config_prefix() -> Seq<u8> {
    seq![99u8, 111, 108, 108, 101, 99, 116, 105, 111, 110, 95, 118, 97, 108, 105, 100, 97, 116, 105, 111, 110, 95, 99, 111, 110, 102, 105, 103]
}

/// A collection validation config, bound to a collection at an address derived from it.
///
/// Layout: the kind byte, the bump, six bytes of padding and the collection's
/// address; 40 bytes.
#[derive(Clone, Copy, Debug)]
pub struct CollectionValidationConfigV1 {
    /// The record's kind.
    pub key: u8,
    /// The bump of the record's derived address.
    pub bump: u8,
    /// Padding for 8-byte alignment.
    pub _padding: [u8; 6],
    /// The address of the collection.
    pub collection: Address,
}

impl CollectionValidationConfigV1 {
    /// The record's byte length.
    pub const LEN: usize = 40;

    /// The record's bytes.
    pub open spec fn image(&self) -> Seq<u8> {
        bound_image(self.key, self.bump, self._padding@, self.collection@)
    }

    /// The bytes of a freshly initialized record.
    pub open spec fn initialized_image(bump: u8, collection: Seq<u8>) -> Seq<u8> {
        bound_image(2, bump, zero_padding(), collection)
    }

    /// The seeds of the record's address, before the bump.
    pub open spec fn spec_seeds(collection: Seq<u8>) -> Seq<Seq<u8>> {
        seq![collection_validation_config_prefix(), collection]
    }

    /// The seed prefix.
    pub fn prefix() -> (r: Vec<u8>)
        ensures
            r@ == collection_validation_config_prefix(),
    {
        let r: Vec<u8> = vec![99u8, 111, 108, 108, 101, 99, 116, 105, 111, 110, 95, 118, 97, 108, 105, 100, 97, 116, 105, 111, 110, 95, 99, 111, 110, 102, 105, 103];
        assert(r@ =~= collection_validation_config_prefix());
        r
    }

    /// The seeds of the record's address for the given collection, before the bump.
    pub fn seeds(collection: &Address) -> (r: Vec<Vec<u8>>)
        ensures
            seeds_view(r@) == Self::spec_seeds(collection@),
    {
        let mut r: Vec<Vec<u8>> = Vec::new();
        r.push(Self::prefix());
        let mut e: Vec<u8> = Vec::new();
        append_address(&mut e, collection);
        assert(e@ =~= collection@);
        r.push(e);
        assert(seeds_view(r@) =~= Self::spec_seeds(collection@));
        r
    }

    /// A record of zero bytes, as newly allocated storage holds it.
    pub fn zeroed() -> (r: CollectionValidationConfigV1)
        ensures
            r.image() == Seq::new(40, |i: int| 0u8),
    {
        let r = CollectionValidationConfigV1 { key: 0, bump: 0, _padding: [0u8; 6], collection: Address { bytes: [0u8; 32] } };
        assert(r.image() =~= Seq::new(40, |i: int| 0u8));
        r
    }

    /// Writes the initial record: its kind, the verified bump, zero padding
    /// and the bound collection.
    pub fn initialize(&mut self, bump: u8, collection: &Address)
        ensures
            final(self).key == 2,
            final(self).bump == bump,
            final(self)._padding@ == zero_padding(),
            final(self).collection@ == collection@,
            final(self).image() == Self::initialized_image(bump, collection@),
    {
        self.key = u8::from(Key::CollectionValidationConfigV1);
        self.bump = bump;
        self._padding = [0u8; 6];
        self.collection = *collection;
        assert(self._padding@ =~= zero_padding());
    }

    /// The record in its byte layout.
    pub fn to_bytes(&self) -> (r: Vec<u8>)
        ensures
            r@ == self.image(),
            r@.len() == Self::LEN,
    {
        encode_bound(self.key, self.bump, &self._padding, &self.collection)
    }

    /// Reads the record from the head of a buffer; `None` where the buffer is
    /// shorter than the record.
    pub fn from_bytes(data: &[u8]) -> (r: Option<CollectionValidationConfigV1>)
        ensures
            r is None <==> data@.len() < Self::LEN,
            r matches Some(v) ==> v.image() == data@.subrange(0, Self::LEN as int),
    {
        match decode_bound(data) {
            Some((key, bump, padding, collection)) => Some(CollectionValidationConfigV1 { key, bump, _padding: padding, collection }),
            None => None,
        }
    }

    /// Verifies that `address` is the record's canonical address for the
    /// collection, and returns its bump.
    pub fn check_pda_derivation(address: &Address, collection: &Address, program_id: &Address) -> (r: Result<u8, MplAgentValidationError>)
        ensures
            match verification(address@, program_id@, Self::spec_seeds(collection@)) {
                Some(b) => r == Ok::<u8, MplAgentValidationError>(b),
                None => r == Err::<u8, MplAgentValidationError>(MplAgentValidationError::InvalidAccountData),
            },
    {
        let seeds = Self::seeds(collection);
        match verify_derivation(address, program_id, &seeds) {
            Some(b) => Ok(b),
            None => Err(MplAgentValidationError::InvalidAccountData),
        }
    }

    /// The request to create the record's account at its derived address,
    /// owned by the program, with the initialized record as its image.
    pub fn create_account(accounts: &RegisterValidationV1Accounts, bump: u8, program_id: &Address) -> (r: AccountCreation)
        ensures
            creates(
                r,
                accounts.collection_validation_config@,
                accounts.payer@,
                40,
                program_id@,
                with_bump(Self::spec_seeds(accounts.collection@), bump),
                Self::initialized_image(bump, accounts.collection@),
            ),
    {
        let mut record = CollectionValidationConfigV1::zeroed();
        record.initialize(bump, &accounts.collection);
        let seeds = Self::seeds(&accounts.collection);
        AccountCreation {
            address: accounts.collection_validation_config,
            payer: accounts.payer,
            space: 40,
            owner: *program_id,
            signer_seeds: seeds_with_bump(&seeds, bump),
            image: record.to_bytes(),
        }
    }
}

} // verus!

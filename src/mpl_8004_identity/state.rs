//! The records of the 8004 identity registry.

use vstd::prelude::*;
use crate::address::{seeds_view, verification, verify_derivation, with_bump, seeds_with_bump, Address};
use crate::plan::{creates, AccountCreation};
use crate::record::{append_address, bound_image, decode_bound, encode_bound, zero_padding};
use super::error::Mpl8004IdentityError;
use super::instruction::RegisterV1Accounts;
use crate::record::{le_bytes_u16, le_bytes_u32, read_address, read_padding, read_u16_le, read_u32_le, u16_le, u32_le};

verus! {

/// The kind of a record, stored as its leading byte; 0 marks storage that
/// holds no record yet.
#[derive(Clone, Copy, Debug, PartialEq, Eq, Structural)]
pub enum Key {
    Uninitialized,
    AgentIdentityV1,
    CollectionConfigV1,
    MyAccount,
    MyPdaAccount,
}

impl Key {
    /// The byte that stands for the kind.
    pub open spec fn spec_to_u8(self) -> u8 {
        match self {
            Key::Uninitialized => 0,
            Key::AgentIdentityV1 => 1,
            Key::CollectionConfigV1 => 2,
            Key::MyAccount => 3,
            Key::MyPdaAccount => 4,
        }
    }

    /// The kind that a byte stands for; unknown bytes read as uninitialized.
    pub open spec fn spec_from_u8(v: u8) -> Key {
        match v {
            0 => Key::Uninitialized,
            1 => Key::AgentIdentityV1,
            2 => Key::CollectionConfigV1,
            3 => Key::MyAccount,
            4 => Key::MyPdaAccount,
            _ => Key::Uninitialized,
        }
    }
}

impl From<u8> for Key {
    fn from(value: u8) -> (r: Key) {
        match value {
            0 => Key::Uninitialized,
            1 => Key::AgentIdentityV1,
            2 => Key::CollectionConfigV1,
            3 => Key::MyAccount,
            4 => Key::MyPdaAccount,
            _ => Key::Uninitialized,
        }
    }
}

impl vstd::std_specs::convert::FromSpecImpl<u8> for Key {
    open spec fn obeys_from_spec() -> bool {
        true
    }

    open spec fn from_spec(v: u8) -> Key {
        Key::spec_from_u8(v)
    }
}

impl From<Key> for u8 {
    fn from(value: Key) -> (r: u8) {
        match value {
            Key::Uninitialized => 0,
            Key::AgentIdentityV1 => 1,
            Key::CollectionConfigV1 => 2,
            Key::MyAccount => 3,
            Key::MyPdaAccount => 4,
        }
    }
}

impl vstd::std_specs::convert::FromSpecImpl<Key> for u8 {
    open spec fn obeys_from_spec() -> bool {
        true
    }

    open spec fn from_spec(v: Key) -> u8 {
        v.spec_to_u8()
    }
}

/// The seed prefix of an agent identity record addresses: `agent_identity`.
pub open spec fn agent_identity_prefix() -> Seq<u8> {
    seq![97u8, 103, 101, 110, 116, 95, 105, 100, 101, 110, 116, 105, 116, 121]
}

/// An agent identity record, bound to an asset at an address derived from it.
///
/// Layout: the kind byte, the bump, six bytes of padding and the asset's
/// address; 40 bytes.
#[derive(Clone, Copy, Debug)]
pub struct AgentIdentityV1 {
    /// The record's kind.
    pub key: u8,
    /// The bump of the record's derived address.
    pub bump: u8,
    /// Padding for 8-byte alignment.
    pub _padding: [u8; 6],
    /// The address of the asset.
    pub asset: Address,
}

impl AgentIdentityV1 {
    /// The record's byte length.
    pub const LEN: usize = 40;

    /// The record's bytes.
    pub open spec fn image(&self) -> Seq<u8> {
        bound_image(self.key, self.bump, self._padding@, self.asset@)
    }

    /// The bytes of a freshly initialized record.
    pub open spec fn initialized_image(bump: u8, asset: Seq<u8>) -> Seq<u8> {
        bound_image(1, bump, zero_padding(), asset)
    }

    /// The seeds of the record's address, before the bump.
    pub open spec fn spec_seeds(asset: Seq<u8>) -> Seq<Seq<u8>> {
        seq![agent_identity_prefix(), asset]
    }

    /// The seed prefix.
    pub fn prefix() -> (r: Vec<u8>)
        ensures
            r@ == agent_identity_prefix(),
    {
        let r: Vec<u8> = vec![97u8, 103, 101, 110, 116, 95, 105, 100, 101, 110, 116, 105, 116, 121];
        assert(r@ =~= agent_identity_prefix());
        r
    }

    /// The seeds of the record's address for the given asset, before the bump.
    pub fn seeds(asset: &Address) -> (r: Vec<Vec<u8>>)
        ensures
            seeds_view(r@) == Self::spec_seeds(asset@),
    {
        let mut r: Vec<Vec<u8>> = Vec::new();
        r.push(Self::prefix());
        let mut e: Vec<u8> = Vec::new();
        append_address(&mut e, asset);
        assert(e@ =~= asset@);
        r.push(e);
        assert(seeds_view(r@) =~= Self::spec_seeds(asset@));
        r
    }

    /// A record of zero bytes, as newly allocated storage holds it.
    pub fn zeroed() -> (r: AgentIdentityV1)
        ensures
            r.image() == Seq::new(40, |i: int| 0u8),
    {
        let r = AgentIdentityV1 { key: 0, bump: 0, _padding: [0u8; 6], asset: Address { bytes: [0u8; 32] } };
        assert(r.image() =~= Seq::new(40, |i: int| 0u8));
        r
    }

    /// Writes the initial record: its kind, the verified bump, zero padding
    /// and the bound asset.
    pub fn initialize(&mut self, bump: u8, asset: &Address)
        ensures
            final(self).key == 1,
            final(self).bump == bump,
            final(self)._padding@ == zero_padding(),
            final(self).asset@ == asset@,
            final(self).image() == Self::initialized_image(bump, asset@),
    {
        self.key = u8::from(Key::AgentIdentityV1);
        self.bump = bump;
        self._padding = [0u8; 6];
        self.asset = *asset;
        assert(self._padding@ =~= zero_padding());
    }

    /// The record in its byte layout.
    pub fn to_bytes(&self) -> (r: Vec<u8>)
        ensures
            r@ == self.image(),
            r@.len() == Self::LEN,
    {
        encode_bound(self.key, self.bump, &self._padding, &self.asset)
    }

    /// Reads the record from the head of a buffer; `None` where the buffer is
    /// shorter than the record.
    pub fn from_bytes(data: &[u8]) -> (r: Option<AgentIdentityV1>)
        ensures
            r is None <==> data@.len() < Self::LEN,
            r matches Some(v) ==> v.image() == data@.subrange(0, Self::LEN as int),
    {
        match decode_bound(data) {
            Some((key, bump, padding, asset)) => Some(AgentIdentityV1 { key, bump, _padding: padding, asset }),
            None => None,
        }
    }

    /// Verifies that `address` is the record's canonical address for the
    /// asset, and returns its bump.
    pub fn check_pda_derivation(address: &Address, asset: &Address, program_id: &Address) -> (r: Result<u8, Mpl8004IdentityError>)
        ensures
            match verification(address@, program_id@, Self::spec_seeds(asset@)) {
                Some(b) => r == Ok::<u8, Mpl8004IdentityError>(b),
                None => r == Err::<u8, Mpl8004IdentityError>(Mpl8004IdentityError::InvalidAccountData),
            },
    {
        let seeds = Self::seeds(asset);
        match verify_derivation(address, program_id, &seeds) {
            Some(b) => Ok(b),
            None => Err(Mpl8004IdentityError::InvalidAccountData),
        }
    }

    /// The request to create the record's account at its derived address,
    /// owned by the program, with the initialized record as its image.
    pub fn create_account(accounts: &RegisterV1Accounts, bump: u8, program_id: &Address) -> (r: AccountCreation)
        ensures
            creates(
                r,
                accounts.agent_identity@,
                accounts.payer@,
                40,
                program_id@,
                with_bump(Self::spec_seeds(accounts.asset@), bump),
                Self::initialized_image(bump, accounts.asset@),
            ),
    {
        let mut record = AgentIdentityV1::zeroed();
        record.initialize(bump, &accounts.asset);
        let seeds = Self::seeds(&accounts.asset);
        AccountCreation {
            address: accounts.agent_identity,
            payer: accounts.payer,
            space: 40,
            owner: *program_id,
            signer_seeds: seeds_with_bump(&seeds, bump),
            image: record.to_bytes(),
        }
    }
}

/// The seed prefix of a collection config addresses: `collection_config`.
pub open spec fn collection_config_prefix() -> Seq<u8> {
    seq![99u8, 111, 108, 108, 101, 99, 116, 105, 111, 110, 95, 99, 111, 110, 102, 105, 103]
}

/// A collection config, bound to a collection at an address derived from it.
///
/// Layout: the kind byte, the bump, six bytes of padding and the collection's
/// address; 40 bytes.
#[derive(Clone, Copy, Debug)]
pub struct CollectionConfigV1 {
    /// The record's kind.
    pub key: u8,
    /// The bump of the record's derived address.
    pub bump: u8,
    /// Padding for 8-byte alignment.
    pub _padding: [u8; 6],
    /// The address of the collection.
    pub collection: Address,
}

impl CollectionConfigV1 {
    /// The record's byte length.
    pub const LEN: usize = 40;

    /// The record's bytes.
    pub open spec fn image(&self) -> Seq<u8> {
        bound_image(self.key, self.bump, self._padding@, self.collection@)
    }

    /// The bytes of a freshly initialized record.
    pub open spec fn initialized_image(bump: u8, collection: Seq<u8>) -> Seq<u8> {
        bound_image(2, bump, zero_padding(), collection)
    }

    /// The seeds of the record's address, before the bump.
    pub open spec fn spec_seeds(collection: Seq<u8>) -> Seq<Seq<u8>> {
        seq![collection_config_prefix(), collection]
    }

    /// The seed prefix.
    pub fn prefix() -> (r: Vec<u8>)
        ensures
            r@ == collection_config_prefix(),
    {
        let r: Vec<u8> = vec![99u8, 111, 108, 108, 101, 99, 116, 105, 111, 110, 95, 99, 111, 110, 102, 105, 103];
        assert(r@ =~= collection_config_prefix());
        r
    }

    /// The seeds of the record's address for the given collection, before the bump.
    pub fn seeds(collection: &Address) -> (r: Vec<Vec<u8>>)
        ensures
            seeds_view(r@) == Self::spec_seeds(collection@),
    {
        let mut r: Vec<Vec<u8>> = Vec::new();
        r.push(Self::prefix());
        let mut e: Vec<u8> = Vec::new();
        append_address(&mut e, collection);
        assert(e@ =~= collection@);
        r.push(e);
        assert(seeds_view(r@) =~= Self::spec_seeds(collection@));
        r
    }

    /// A record of zero bytes, as newly allocated storage holds it.
    pub fn zeroed() -> (r: CollectionConfigV1)
        ensures
            r.image() == Seq::new(40, |i: int| 0u8),
    {
        let r = CollectionConfigV1 { key: 0, bump: 0, _padding: [0u8; 6], collection: Address { bytes: [0u8; 32] } };
        assert(r.image() =~= Seq::new(40, |i: int| 0u8));
        r
    }

    /// Writes the initial record: its kind, the verified bump, zero padding
    /// and the bound collection.
    pub fn initialize(&mut self, bump: u8, collection: &Address)
        ensures
            final(self).key == 2,
            final(self).bump == bump,
            final(self)._padding@ == zero_padding(),
            final(self).collection@ == collection@,
            final(self).image() == Self::initialized_image(bump, collection@),
    {
        self.key = u8::from(Key::CollectionConfigV1);
        self.bump = bump;
        self._padding = [0u8; 6];
        self.collection = *collection;
        assert(self._padding@ =~= zero_padding());
    }

    /// The record in its byte layout.
    pub fn to_bytes(&self) -> (r: Vec<u8>)
        ensures
            r@ == self.image(),
            r@.len() == Self::LEN,
    {
        encode_bound(self.key, self.bump, &self._padding, &self.collection)
    }

    /// Reads the record from the head of a buffer; `None` where the buffer is
    /// shorter than the record.
    pub fn from_bytes(data: &[u8]) -> (r: Option<CollectionConfigV1>)
        ensures
            r is None <==> data@.len() < Self::LEN,
            r matches Some(v) ==> v.image() == data@.subrange(0, Self::LEN as int),
    {
        match decode_bound(data) {
            Some((key, bump, padding, collection)) => Some(CollectionConfigV1 { key, bump, _padding: padding, collection }),
            None => None,
        }
    }

    /// Verifies that `address` is the record's canonical address for the
    /// collection, and returns its bump.
    pub fn check_pda_derivation(address: &Address, collection: &Address, program_id: &Address) -> (r: Result<u8, Mpl8004IdentityError>)
        ensures
            match verification(address@, program_id@, Self::spec_seeds(collection@)) {
                Some(b) => r == Ok::<u8, Mpl8004IdentityError>(b),
                None => r == Err::<u8, Mpl8004IdentityError>(Mpl8004IdentityError::InvalidAccountData),
            },
    {
        let seeds = Self::seeds(collection);
        match verify_derivation(address, program_id, &seeds) {
            Some(b) => Ok(b),
            None => Err(Mpl8004IdentityError::InvalidAccountData),
        }
    }

    /// The request to create the record's account at its derived address,
    /// owned by the program, with the initialized record as its image.
    pub fn create_account(accounts: &RegisterV1Accounts, bump: u8, program_id: &Address) -> (r: AccountCreation)
        ensures
            creates(
                r,
                accounts.collection_config@,
                accounts.payer@,
                40,
                program_id@,
                with_bump(Self::spec_seeds(accounts.collection@), bump),
                Self::initialized_image(bump, accounts.collection@),
            ),
    {
        let mut record = CollectionConfigV1::zeroed();
        record.initialize(bump, &accounts.collection);
        let seeds = Self::seeds(&accounts.collection);
        AccountCreation {
            address: accounts.collection_config,
            payer: accounts.payer,
            space: 40,
            owner: *program_id,
            signer_seeds: seeds_with_bump(&seeds, bump),
            image: record.to_bytes(),
        }
    }
}

/// The seed prefix of addresses of derived accounts of the generic kind:
/// `my_pda_account`.
pub open spec fn my_pda_account_prefix() -> Seq<u8> {
    seq![109u8, 121, 95, 112, 100, 97, 95, 97, 99, 99, 111, 117, 110, 116]
}

/// The seed prefix of generic accounts, where one is derived: `my_account`.
pub open spec fn my_account_prefix() -> Seq<u8> {
    seq![109u8, 121, 95, 97, 99, 99, 111, 117, 110, 116]
}

/// The payload of a generic account: a 16-bit and a 32-bit field, with two
/// bytes of padding between them; 8 bytes.
#[derive(Clone, Copy, Debug)]
pub struct MyData {
    /// The first field.
    pub field1: u16,
    /// Padding for alignment.
    pub _padding: [u8; 2],
    /// The second field.
    pub field2: u32,
}

impl MyData {
    /// The payload's byte length.
    pub const LEN: usize = 8;

    /// The payload's bytes.
    pub open spec fn image(&self) -> Seq<u8> {
        le_bytes_u16(self.field1) + self._padding@ + le_bytes_u32(self.field2)
    }

    /// A payload with the two fields and zero padding.
    pub fn new(field1: u16, field2: u32) -> (r: MyData)
        ensures
            r.field1 == field1,
            r.field2 == field2,
            r._padding@ == seq![0u8, 0],
    {
        let r = MyData { field1, _padding: [0u8; 2], field2 };
        assert(r._padding@ =~= seq![0u8, 0]);
        r
    }

    /// Appends the payload in its byte layout.
    pub fn write_to(&self, out: &mut Vec<u8>)
        ensures
            final(out)@ == old(out)@ + self.image(),
    {
        out.push((self.field1 % 256) as u8);
        out.push((self.field1 / 256) as u8);
        out.push(self._padding[0]);
        out.push(self._padding[1]);
        out.push((self.field2 % 256) as u8);
        out.push(((self.field2 / 256) % 256) as u8);
        out.push(((self.field2 / 65536) % 256) as u8);
        out.push((self.field2 / 16777216) as u8);
        assert(final(out)@ =~= old(out)@ + self.image());
    }

    /// The payload in its byte layout.
    pub fn to_bytes(&self) -> (r: Vec<u8>)
        ensures
            r@ == self.image(),
            r@.len() == Self::LEN,
    {
        let mut r: Vec<u8> = Vec::new();
        self.write_to(&mut r);
        assert(r@ =~= self.image());
        r
    }

    /// Reads the payload at `start`; `None` where the buffer ends before it.
    pub fn read_at(data: &[u8], start: usize) -> (r: Option<MyData>)
        ensures
            r is None <==> data@.len() < start + Self::LEN,
            r matches Some(v) ==> v.field1 == u16_le(data@, start as int)
                && v._padding@ == data@.subrange(start + 2, start + 4)
                && v.field2 == u32_le(data@, start + 4),
    {
        if data.len() < 8 || data.len() - 8 < start {
            return None;
        }
        let field1 = read_u16_le(data, start);
        let field2 = read_u32_le(data, start + 4);
        let padding: [u8; 2] = [data[start + 2], data[start + 3]];
        assert(padding@ =~= data@.subrange(start + 2, start + 4));
        Some(MyData { field1, _padding: padding, field2 })
    }

    /// Reads the payload from the head of a buffer; `None` where the buffer is
    /// shorter than the payload.
    pub fn from_bytes(data: &[u8]) -> (r: Option<MyData>)
        ensures
            r is None <==> data@.len() < Self::LEN,
            r matches Some(v) ==> v.field1 == u16_le(data@, 0)
                && v._padding@ == data@.subrange(2, 4)
                && v.field2 == u32_le(data@, 4),
    {
        Self::read_at(data, 0)
    }
}

/// A generic account: its kind, seven bytes of padding, its authority and a
/// payload; 48 bytes.
#[derive(Clone, Copy, Debug)]
pub struct MyAccount {
    /// The record's kind.
    pub key: u8,
    /// Padding for 8-byte alignment.
    pub _padding: [u8; 7],
    /// The authority of the account.
    pub authority: Address,
    /// The account's payload.
    pub data: MyData,
}

impl MyAccount {
    /// The account's byte length.
    pub const BASE_LEN: usize = 48;

    /// The account's bytes.
    pub open spec fn image(&self) -> Seq<u8> {
        seq![self.key] + self._padding@ + self.authority@ + self.data.image()
    }

    /// The seed prefix, where the account is derived.
    pub fn prefix() -> (r: Vec<u8>)
        ensures
            r@ == my_account_prefix(),
    {
        let r: Vec<u8> = vec![109u8, 121, 95, 97, 99, 99, 111, 117, 110, 116];
        assert(r@ =~= my_account_prefix());
        r
    }

    /// An account of zero bytes, as newly allocated storage holds it.
    pub fn zeroed() -> (r: MyAccount)
        ensures
            r.image() == Seq::new(48, |i: int| 0u8),
    {
        let r = MyAccount {
            key: 0,
            _padding: [0u8; 7],
            authority: Address { bytes: [0u8; 32] },
            data: MyData { field1: 0, _padding: [0u8; 2], field2: 0 },
        };
        assert(r.image() =~= Seq::new(48, |i: int| 0u8));
        r
    }

    /// Writes the initial account: its kind, zero padding, the authority and
    /// the payload.
    pub fn initialize(&mut self, authority: Address, data: MyData)
        ensures
            final(self).key == 3,
            final(self)._padding@ == Seq::new(7, |i: int| 0u8),
            final(self).authority == authority,
            final(self).data == data,
    {
        self.key = u8::from(Key::MyAccount);
        self._padding = [0u8; 7];
        self.authority = authority;
        self.data = data;
        assert(self._padding@ =~= Seq::new(7, |i: int| 0u8));
    }

    /// The account in its byte layout.
    pub fn to_bytes(&self) -> (r: Vec<u8>)
        ensures
            r@ == self.image(),
            r@.len() == Self::BASE_LEN,
    {
        let mut r: Vec<u8> = Vec::new();
        r.push(self.key);
        let mut i: usize = 0;
        while i < 7
            invariant
                i <= 7,
                r@ == seq![self.key] + self._padding@.subrange(0, i as int),
            decreases 7 - i,
        {
            r.push(self._padding[i]);
            assert(self._padding@.subrange(0, i + 1) =~= self._padding@.subrange(0, i as int).push(self._padding@[i as int]));
            i = i + 1;
        }
        assert(self._padding@.subrange(0, 7) =~= self._padding@);
        append_address(&mut r, &self.authority);
        self.data.write_to(&mut r);
        assert(r@ =~= self.image());
        r
    }

    /// Reads the account from the head of a buffer; `None` where the buffer
    /// is shorter than the account.
    pub fn from_bytes(data: &[u8]) -> (r: Option<MyAccount>)
        ensures
            r is None <==> data@.len() < Self::BASE_LEN,
            r matches Some(v) ==> v.key == data@[0]
                && v._padding@ == data@.subrange(1, 8)
                && v.authority@ == data@.subrange(8, 40)
                && v.data.field1 == u16_le(data@, 40)
                && v.data._padding@ == data@.subrange(42, 44)
                && v.data.field2 == u32_le(data@, 44),
    {
        if data.len() < 48 {
            return None;
        }
        let mut padding: [u8; 7] = [0u8; 7];
        let mut i: usize = 0;
        while i < 7
            invariant
                i <= 7,
                data@.len() >= 48,
                padding@.len() == 7,
                forall|j: int| 0 <= j < i ==> padding@[j] == data@[1 + j],
            decreases 7 - i,
        {
            padding[i] = data[1 + i];
            i = i + 1;
        }
        assert(padding@ =~= data@.subrange(1, 8));
        let authority = read_address(data, 8);
        match MyData::read_at(data, 40) {
            Some(payload) => Some(MyAccount { key: data[0], _padding: padding, authority, data: payload }),
            None => None,
        }
    }
}

/// A generic derived account: its kind, its bump and six bytes of padding;
/// 8 bytes.
#[derive(Clone, Copy, Debug)]
pub struct MyPdaAccount {
    /// The record's kind.
    pub key: u8,
    /// The bump of the account's derived address.
    pub bump: u8,
    /// Padding for 8-byte alignment.
    pub _padding: [u8; 6],
}

impl MyPdaAccount {
    /// The account's byte length.
    pub const BASE_LEN: usize = 8;

    /// The account's bytes.
    pub open spec fn image(&self) -> Seq<u8> {
        seq![self.key, self.bump] + self._padding@
    }

    /// The seed prefix.
    pub fn prefix() -> (r: Vec<u8>)
        ensures
            r@ == my_pda_account_prefix(),
    {
        let r: Vec<u8> = vec![109u8, 121, 95, 112, 100, 97, 95, 97, 99, 99, 111, 117, 110, 116];
        assert(r@ =~= my_pda_account_prefix());
        r
    }

    /// Writes the initial account: its kind, the bump and zero padding.
    pub fn initialize(&mut self, bump: u8)
        ensures
            final(self).key == 4,
            final(self).bump == bump,
            final(self)._padding@ == zero_padding(),
    {
        self.key = u8::from(Key::MyPdaAccount);
        self.bump = bump;
        self._padding = [0u8; 6];
        assert(self._padding@ =~= zero_padding());
    }

    /// The account in its byte layout.
    pub fn to_bytes(&self) -> (r: Vec<u8>)
        ensures
            r@ == self.image(),
            r@.len() == Self::BASE_LEN,
    {
        let mut r: Vec<u8> = Vec::new();
        r.push(self.key);
        r.push(self.bump);
        let mut i: usize = 0;
        while i < 6
            invariant
                i <= 6,
                r@ == seq![self.key, self.bump] + self._padding@.subrange(0, i as int),
            decreases 6 - i,
        {
            r.push(self._padding[i]);
            assert(self._padding@.subrange(0, i + 1) =~= self._padding@.subrange(0, i as int).push(self._padding@[i as int]));
            i = i + 1;
        }
        assert(self._padding@.subrange(0, 6) =~= self._padding@);
        r
    }

    /// Reads the account from the head of a buffer; `None` where the buffer
    /// is shorter than the account.
    pub fn from_bytes(data: &[u8]) -> (r: Option<MyPdaAccount>)
        ensures
            r is None <==> data@.len() < Self::BASE_LEN,
            r matches Some(v) ==> v.image() == data@.subrange(0, 8),
    {
        if data.len() < 8 {
            return None;
        }
        let padding = read_padding(data, 2);
        let r = MyPdaAccount { key: data[0], bump: data[1], _padding: padding };
        assert(r.image() =~= data@.subrange(0, 8));
        Some(r)
    }
}

} // verus!

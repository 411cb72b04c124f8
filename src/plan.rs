//! What a registration asks the host to do once every check has passed: the
//! records to create and write, and the adapter to link to the entity.

use vstd::prelude::*;
use crate::address::{seeds_view, Address};

verus! {

/// An account to create at a verified derived address, and the record image
/// to write into it.
pub struct AccountCreation {
    /// The derived address of the new account.
    pub address: Address,
    /// The account that funds the new account.
    pub payer: Address,
    /// The byte length of the new account: the record's fixed length.
    pub space: u64,
    /// The program that is to own the new account.
    pub owner: Address,
    /// The seeds, bump included, that sign for the derived address.
    pub signer_seeds: Vec<Vec<u8>>,
    /// The initial record image, `space` bytes long.
    pub image: Vec<u8>,
}

/// The kind of adapter that a registry links to an entity.
#[derive(Clone, Copy, Debug, PartialEq, Eq, Structural)]
pub enum AdapterKind {
    /// Adapter data held on an asset.
    AppData,
    /// Adapter data held on a collection, linked to its assets.
    LinkedAppData,
}

/// The adapter that a registration makes sure the entity has.
#[derive(Clone, Copy, Debug)]
pub struct LinkRequest {
    pub kind: AdapterKind,
    /// The asset (for `AppData`) or collection (for `LinkedAppData`) that
    /// carries the adapter.
    pub entity: Address,
    /// The asset's collection, where the attach call needs it.
    pub collection: Option<Address>,
    pub payer: Address,
    /// The authority of the attach call; the payer acts where it is absent.
    pub authority: Option<Address>,
    /// The record whose address keys the adapter as its data authority.
    pub data_authority: Address,
}

/// The attach call to the asset registry: an adapter of the given kind with
/// a binary schema, whose data authority is the registry record.
#[derive(Clone, Copy, Debug)]
pub struct AdapterAttachment {
    pub kind: AdapterKind,
    pub entity: Address,
    pub collection: Option<Address>,
    pub payer: Address,
    pub authority: Option<Address>,
    pub data_authority: Address,
}

/// All that one registration asks of the host, in order: create and write
/// each record, then link the adapter.
pub struct Registration {
    pub creations: Vec<AccountCreation>,
    pub link: LinkRequest,
}

/// Whether a creation request is the one described: its address, payer,
/// length, owner, signer seeds and initial image.
pub open spec fn creates(
    c: AccountCreation,
    address: Seq<u8>,
    payer: Seq<u8>,
    space: u64,
    owner: Seq<u8>,
    signer_seeds: Seq<Seq<u8>>,
    image: Seq<u8>,
) -> bool {
    &&& c.address@ == address
    &&& c.payer@ == payer
    &&& c.space == space
    &&& c.owner@ == owner
    &&& seeds_view(c.signer_seeds@) == signer_seeds
    &&& c.image@ == image
}

/// The key that identifies a linked adapter on an entity: its kind and its
/// data authority.
pub open spec fn adapter_key(kind: AdapterKind, data_authority: Seq<u8>) -> (AdapterKind, Seq<u8>) {
    (kind, data_authority)
}

/// Whether an attachment carries out a link request.
pub open spec fn attaches(a: AdapterAttachment, req: LinkRequest) -> bool {
    &&& a.kind == req.kind
    &&& a.entity == req.entity
    &&& a.collection == req.collection
    &&& a.payer == req.payer
    &&& a.authority == req.authority
    &&& a.data_authority == req.data_authority
}

impl LinkRequest {
    /// The account that authorises the attach call: the authority where one
    /// was supplied, else the payer.
    pub fn acting_authority(&self) -> (r: Address)
        ensures
            r == (match self.authority {
                Some(a) => a,
                None => self.payer,
            }),
    {
        match self.authority {
            Some(a) => a,
            None => self.payer,
        }
    }

    /// The key of the adapter that this request links.
    pub open spec fn key(&self) -> (AdapterKind, Seq<u8>) {
        adapter_key(self.kind, self.data_authority@)
    }

    /// Decides the link step from what the lookup of this request's adapter
    /// found: nothing where the entity has it already, else the attach call.
    pub fn attachment(&self, adapter_found: bool) -> (r: Option<AdapterAttachment>)
        ensures
            r is None <==> adapter_found,
            r matches Some(a) ==> attaches(a, *self),
    {
        if adapter_found {
            None
        } else {
            Some(AdapterAttachment {
                kind: self.kind,
                entity: self.entity,
                collection: self.collection,
                payer: self.payer,
                authority: self.authority,
                data_authority: self.data_authority,
            })
        }
    }
}

/// The adapters that an entity carries after a link step.
pub open spec fn adapters_after(
    adapters: Set<(AdapterKind, Seq<u8>)>,
    attachment: Option<AdapterAttachment>,
) -> Set<(AdapterKind, Seq<u8>)> {
    match attachment {
        Some(a) => adapters.insert(adapter_key(a.kind, a.data_authority@)),
        None => adapters,
    }
}

/// Linking is idempotent: after one link step the entity carries the
/// adapter, so a second step for the same request attaches nothing and
/// leaves the adapters as they were.
pub proof fn lemma_linking_idempotent(
    req: LinkRequest,
    adapters: Set<(AdapterKind, Seq<u8>)>,
    first: Option<AdapterAttachment>,
    second: Option<AdapterAttachment>,
)
    requires
        first is None <==> adapters.contains(req.key()),
        first matches Some(a) ==> attaches(a, req),
        second is None <==> adapters_after(adapters, first).contains(req.key()),
    ensures
        adapters_after(adapters, first).contains(req.key()),
        second is None,
        adapters_after(adapters_after(adapters, first), second) == adapters_after(adapters, first),
{
}

} // verus!

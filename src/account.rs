//! The accounts that an instruction is handed, and the checks that every
//! registration makes on them before anything is changed.

use vstd::prelude::*;
use crate::address::{opt_view, Address};

verus! {

/// What a handler reads of one account that the instruction names.
pub struct AccountView {
    /// The account's address.
    pub key: Address,
    /// The program that owns the account.
    pub owner: Address,
    /// Whether the account signed the transaction.
    pub is_signer: bool,
    /// Whether the instruction may change the account.
    pub is_writable: bool,
    /// The account's balance.
    pub lamports: u64,
    /// The account's stored bytes.
    pub data: Vec<u8>,
}

/// Why the accounts of an instruction were refused before any check of
/// their contents.
#[derive(Clone, Copy, Debug, PartialEq, Eq, Structural)]
pub enum AccountsError {
    /// Fewer accounts than the instruction names.
    NotEnoughAccountKeys,
}

/// The first failing check of the guard sequence shared by the registration
/// handlers, after the derived addresses have been verified.
#[derive(Clone, Copy, Debug, PartialEq, Eq, Structural)]
pub enum GuardFailure {
    /// The entity is not owned by the asset registry or is not of the kind
    /// expected.
    CoreAsset,
    /// The asset-registry program account is not that program.
    MplCoreProgram,
    /// The account-creation program account is not the system program.
    SystemProgram,
}

/// The address of the asset-registry program.
pub open spec fn core_program_address() -> Seq<u8> {
    seq![
        175u8, 84, 171, 16, 189, 151, 165, 66, 160, 158, 247, 179, 152, 137, 221, 12,
        211, 148, 164, 204, 233, 223, 166, 205, 201, 126, 190, 45, 35, 91, 167, 72,
    ]
}

/// The address of the system program: 32 zero bytes.
pub open spec fn system_program_address() -> Seq<u8> {
    Seq::new(32, |i: int| 0u8)
}

/// The leading byte of an asset account of the asset registry.
pub open spec fn asset_kind() -> u8 {
    1
}

/// Relies on `mpl_core::ID`, the address of the asset-registry program.
#[verifier::external_body]
pub(crate) fn mpl_core_program_id() -> (r: Address)
    ensures
        r@ == core_program_address(),
{
    Address { bytes: mpl_core::ID.to_bytes() }
}

/// Relies on `solana_system_interface::program::ID`, the address of the
/// system program.
#[verifier::external_body]
pub(crate) fn system_program_id() -> (r: Address)
    ensures
        r@ == system_program_address(),
{
    Address { bytes: solana_system_interface::program::ID.to_bytes() }
}

/// Relies on `mpl_core::types::Key::AssetV1`, the leading byte of an asset
/// account.
#[verifier::external_body]
fn asset_v1_kind() -> (r: u8)
    ensures
        r == asset_kind(),
{
    mpl_core::types::Key::AssetV1 as u8
}

/// Whether an account is an asset of the asset registry: owned by it, with
/// the asset kind as its leading byte.
pub open spec fn is_core_asset(account: AccountView) -> bool {
    &&& account.owner@ == core_program_address()
    &&& account.data@.len() > 0
    &&& account.data@[0] == asset_kind()
}

/// The outcome of the guard sequence: the entity first, then the
/// asset-registry program, then the system program; the first failure wins.
pub open spec fn guard_outcome(asset: AccountView, mpl_core_program: Seq<u8>, system_program: Seq<u8>)
    -> Result<(), GuardFailure>
{
    if !is_core_asset(asset) {
        Err(GuardFailure::CoreAsset)
    } else if mpl_core_program != core_program_address() {
        Err(GuardFailure::MplCoreProgram)
    } else if system_program != system_program_address() {
        Err(GuardFailure::SystemProgram)
    } else {
        Ok(())
    }
}

/// The guards run in a fixed order: with a valid asset and the expected
/// asset-registry program, a wrong system program is what fails, and a wrong
/// asset-registry program fails before the system program is looked at.
pub proof fn lemma_guard_order(asset: AccountView, mpl_core_program: Seq<u8>, system_program: Seq<u8>)
    requires
        is_core_asset(asset),
    ensures
        mpl_core_program == core_program_address() && system_program != system_program_address()
            ==> guard_outcome(asset, mpl_core_program, system_program) == Err::<(), GuardFailure>(GuardFailure::SystemProgram),
        mpl_core_program != core_program_address()
            ==> guard_outcome(asset, mpl_core_program, system_program) == Err::<(), GuardFailure>(GuardFailure::MplCoreProgram),
{
}

/// Checks, in order, that the asset belongs to the asset registry and is an
/// asset, that the asset-registry program is the expected one, and that the
/// system program is the expected one.
pub fn check_guards(asset: &AccountView, mpl_core_program: &Address, system_program: &Address) -> (r: Result<(), GuardFailure>)
    ensures
        r == guard_outcome(*asset, mpl_core_program@, system_program@),
{
    let core = mpl_core_program_id();
    if !asset.owner.same_as(&core) || asset.data.len() == 0 || asset.data[0] != asset_v1_kind() {
        return Err(GuardFailure::CoreAsset);
    }
    if !mpl_core_program.same_as(&core) {
        return Err(GuardFailure::MplCoreProgram);
    }
    let system = system_program_id();
    if !system_program.same_as(&system) {
        return Err(GuardFailure::SystemProgram);
    }
    Ok(())
}

/// The key of an optional account: absent where the caller put the program's
/// own address in its place.
pub open spec fn optional_key(key: Seq<u8>, program: Seq<u8>) -> Option<Seq<u8>> {
    if key == program { None } else { Some(key) }
}

/// Reads an optional account's key: `None` where it holds the program's own
/// address as a placeholder.
pub fn optional_account(account: &AccountView, program_id: &Address) -> (r: Option<Address>)
    ensures
        opt_view(r) == optional_key(account.key@, program_id@),
{
    if account.key.same_as(program_id) {
        None
    } else {
        Some(account.key)
    }
}

} // verus!

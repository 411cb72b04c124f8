//! The instructions of the 8004 identity registry and the accounts they name.

use vstd::prelude::*;
use crate::account::{optional_account, optional_key, AccountView, AccountsError};
use crate::address::{opt_view, Address};
use super::error::Mpl8004IdentityError;
use super::processor::RegisterV1Args;

verus! {

/// The opcodes of the 8004 identity registry: the first byte of instruction data.
#[derive(Clone, Copy, Debug, PartialEq, Eq, Structural)]
pub enum Mpl8004IdentityInstructionDiscriminant {
    /// The registration.
    RegisterV1,
}

impl TryFrom<u8> for Mpl8004IdentityInstructionDiscriminant {
    type Error = ();

    fn try_from(value: u8) -> (r: Result<Mpl8004IdentityInstructionDiscriminant, ()>) {
        match value {
            0 => Ok(Mpl8004IdentityInstructionDiscriminant::RegisterV1),
            _ => Err(()),
        }
    }
}

impl vstd::std_specs::convert::TryFromSpecImpl<u8> for Mpl8004IdentityInstructionDiscriminant {
    open spec fn obeys_try_from_spec() -> bool {
        true
    }

    open spec fn try_from_spec(v: u8) -> Result<Mpl8004IdentityInstructionDiscriminant, ()> {
        if v == 0 {
            Ok(Mpl8004IdentityInstructionDiscriminant::RegisterV1)
        } else {
            Err(())
        }
    }
}

/// The instructions of the 8004 identity registry, with their arguments.
#[derive(Clone, Copy, Debug)]
pub enum Mpl8004IdentityInstruction {
    /// Register a record for an asset.
    RegisterV1(RegisterV1Args),
}

impl Mpl8004IdentityInstruction {
    /// Decodes instruction data: its opcode, then the arguments, which must
    /// fill the data exactly.
    pub fn unpack(data: &[u8]) -> (r: Result<Mpl8004IdentityInstruction, Mpl8004IdentityError>)
        ensures
            r is Err <==> (data@.len() != 8 || data@[0] != 0),
            r matches Err(e) ==> e == Mpl8004IdentityError::InvalidInstructionData,
            r matches Ok(Mpl8004IdentityInstruction::RegisterV1(a)) ==> a.discriminator == data@[0] && a._padding@ == data@.subrange(1, 8),
    {
        if data.len() == 0 {
            return Err(Mpl8004IdentityError::InvalidInstructionData);
        }
        match Mpl8004IdentityInstructionDiscriminant::try_from(data[0]) {
            Ok(Mpl8004IdentityInstructionDiscriminant::RegisterV1) => match RegisterV1Args::from_bytes(data) {
                Some(a) => Ok(Mpl8004IdentityInstruction::RegisterV1(a)),
                None => Err(Mpl8004IdentityError::InvalidInstructionData),
            },
            Err(_) => Err(Mpl8004IdentityError::InvalidInstructionData),
        }
    }
}

/// The accounts of the registration, in their fixed order.
#[derive(Clone, Copy, Debug)]
pub struct RegisterV1Accounts {
    /// The record account to create.
    pub agent_identity: Address,
    /// The collection's config account to create.
    pub collection_config: Address,
    /// The asset that the record binds.
    pub asset: Address,
    /// The asset's collection.
    pub collection: Address,
    /// The account that pays for the new accounts.
    pub payer: Address,
    /// The authority of the attach call; the payer acts where it is absent.
    pub authority: Option<Address>,
    /// The asset-registry program.
    pub mpl_core_program: Address,
    /// The system program.
    pub system_program: Address,
}

impl RegisterV1Accounts {
    /// The number of accounts that the registration names.
    pub const LEN: usize = 8;

    /// Whether these are the accounts read from the list: optional ones are
    /// absent where the program's own address stands in their place.
    pub open spec fn reads(&self, accounts: Seq<AccountView>, program: Seq<u8>) -> bool {
        &&& accounts.len() >= 8
        &&& self.agent_identity@ == accounts[0].key@
        &&& self.collection_config@ == accounts[1].key@
        &&& self.asset@ == accounts[2].key@
        &&& self.collection@ == accounts[3].key@
        &&& self.payer@ == accounts[4].key@
        &&& opt_view(self.authority) == optional_key(accounts[5].key@, program)
        &&& self.mpl_core_program@ == accounts[6].key@
        &&& self.system_program@ == accounts[7].key@
    }

    /// Reads the accounts from the list that the instruction names.
    pub fn context(accounts: &[AccountView], program_id: &Address) -> (r: Result<RegisterV1Accounts, AccountsError>)
        ensures
            r is Err <==> accounts@.len() < 8,
            r matches Ok(c) ==> c.reads(accounts@, program_id@),
    {
        if accounts.len() < 8 {
            return Err(AccountsError::NotEnoughAccountKeys);
        }
        Ok(RegisterV1Accounts {
            agent_identity: accounts[0].key,
            collection_config: accounts[1].key,
            asset: accounts[2].key,
            collection: accounts[3].key,
            payer: accounts[4].key,
            authority: optional_account(&accounts[5], program_id),
            mpl_core_program: accounts[6].key,
            system_program: accounts[7].key,
        })
    }
}

} // verus!

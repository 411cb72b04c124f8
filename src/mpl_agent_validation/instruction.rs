//! The instructions of the agent validation registry and the accounts they name.

use vstd::prelude::*;
use crate::account::{optional_account, optional_key, AccountView, AccountsError};
use crate::address::{opt_view, Address};
use super::error::MplAgentValidationError;
use super::processor::RegisterValidationV1Args;

verus! {

/// The opcodes of the agent validation registry: the first byte of instruction data.
#[derive(Clone, Copy, Debug, PartialEq, Eq, Structural)]
pub enum MplAgentValidationInstructionDiscriminant {
    /// The registration.
    RegisterValidationV1,
}

impl TryFrom<u8> for MplAgentValidationInstructionDiscriminant {
    type Error = ();

    fn try_from(value: u8) -> (r: Result<MplAgentValidationInstructionDiscriminant, ()>) {
        match value {
            0 => Ok(MplAgentValidationInstructionDiscriminant::RegisterValidationV1),
            _ => Err(()),
        }
    }
}

impl vstd::std_specs::convert::TryFromSpecImpl<u8> for MplAgentValidationInstructionDiscriminant {
    open spec fn obeys_try_from_spec() -> bool {
        true
    }

    open spec fn try_from_spec(v: u8) -> Result<MplAgentValidationInstructionDiscriminant, ()> {
        if v == 0 {
            Ok(MplAgentValidationInstructionDiscriminant::RegisterValidationV1)
        } else {
            Err(())
        }
    }
}

/// The instructions of the agent validation registry, with their arguments.
#[derive(Clone, Copy, Debug)]
pub enum MplAgentValidationInstruction {
    /// Register a record for an asset.
    RegisterValidationV1(RegisterValidationV1Args),
}

impl MplAgentValidationInstruction {
    /// Decodes instruction data: its opcode, then the arguments, which must
    /// fill the data exactly.
    pub fn unpack(data: &[u8]) -> (r: Result<MplAgentValidationInstruction, MplAgentValidationError>)
        ensures
            r is Err <==> (data@.len() != 8 || data@[0] != 0),
            r matches Err(e) ==> e == MplAgentValidationError::InvalidInstructionData,
            r matches Ok(MplAgentValidationInstruction::RegisterValidationV1(a)) ==> a.discriminator == data@[0] && a._padding@ == data@.subrange(1, 8),
    {
        if data.len() == 0 {
            return Err(MplAgentValidationError::InvalidInstructionData);
        }
        match MplAgentValidationInstructionDiscriminant::try_from(data[0]) {
            Ok(MplAgentValidationInstructionDiscriminant::RegisterValidationV1) => match RegisterValidationV1Args::from_bytes(data) {
                Some(a) => Ok(MplAgentValidationInstruction::RegisterValidationV1(a)),
                None => Err(MplAgentValidationError::InvalidInstructionData),
            },
            Err(_) => Err(MplAgentValidationError::InvalidInstructionData),
        }
    }
}

/// The accounts of the registration, in their fixed order.
#[derive(Clone, Copy, Debug)]
pub struct RegisterValidationV1Accounts {
    /// The record account to create.
    pub agent_validation: Address,
    /// The collection's config account to create.
    pub collection_validation_config: Address,
    /// The asset that the record binds.
    pub asset: Address,
    /// The asset's collection.
    pub collection: Address,
    /// The account that pays for the new accounts.
    pub payer: Address,
    /// The authority of the attach call; the payer acts where it is absent.
    pub authority: Option<Address>,
    /// The asset-registry program.
    pub mpl_core_program: Address,
    /// The system program.
    pub system_program: Address,
}

impl RegisterValidationV1Accounts {
    /// The number of accounts that the registration names.
    pub const LEN: usize = 8;

    /// Whether these are the accounts read from the list: optional ones are
    /// absent where the program's own address stands in their place.
    pub open spec fn reads(&self, accounts: Seq<AccountView>, program: Seq<u8>) -> bool {
        &&& accounts.len() >= 8
        &&& self.agent_validation@ == accounts[0].key@
        &&& self.collection_validation_config@ == accounts[1].key@
        &&& self.asset@ == accounts[2].key@
        &&& self.collection@ == accounts[3].key@
        &&& self.payer@ == accounts[4].key@
        &&& opt_view(self.authority) == optional_key(accounts[5].key@, program)
        &&& self.mpl_core_program@ == accounts[6].key@
        &&& self.system_program@ == accounts[7].key@
    }

    /// Reads the accounts from the list that the instruction names.
    pub fn context(accounts: &[AccountView], program_id: &Address) -> (r: Result<RegisterValidationV1Accounts, AccountsError>)
        ensures
            r is Err <==> accounts@.len() < 8,
            r matches Ok(c) ==> c.reads(accounts@, program_id@),
    {
        if accounts.len() < 8 {
            return Err(AccountsError::NotEnoughAccountKeys);
        }
        Ok(RegisterValidationV1Accounts {
            agent_validation: accounts[0].key,
            collection_validation_config: accounts[1].key,
            asset: accounts[2].key,
            collection: accounts[3].key,
            payer: accounts[4].key,
            authority: optional_account(&accounts[5], program_id),
            mpl_core_program: accounts[6].key,
            system_program: accounts[7].key,
        })
    }
}

} // verus!

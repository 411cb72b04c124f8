//! The instructions of the agent reputation registry and the accounts they name.

use vstd::prelude::*;
use crate::account::{optional_account, optional_key, AccountView, AccountsError};
use crate::address::{opt_view, Address};
use super::error::MplAgentReputationError;
use super::processor::RegisterReputationV1Args;

verus! {

/// The opcodes of the agent reputation registry: the first byte of instruction data.
#[derive(Clone, Copy, Debug, PartialEq, Eq, Structural)]
pub enum MplAgentReputationInstructionDiscriminant {
    /// The registration.
    RegisterReputationV1,
}

impl TryFrom<u8> for MplAgentReputationInstructionDiscriminant {
    type Error = ();

    fn try_from(value: u8) -> (r: Result<MplAgentReputationInstructionDiscriminant, ()>) {
        match value {
            0 => Ok(MplAgentReputationInstructionDiscriminant::RegisterReputationV1),
            _ => Err(()),
        }
    }
}

impl vstd::std_specs::convert::TryFromSpecImpl<u8> for MplAgentReputationInstructionDiscriminant {
    open spec fn obeys_try_from_spec() -> bool {
        true
    }

    open spec fn try_from_spec(v: u8) -> Result<MplAgentReputationInstructionDiscriminant, ()> {
        if v == 0 {
            Ok(MplAgentReputationInstructionDiscriminant::RegisterReputationV1)
        } else {
            Err(())
        }
    }
}

/// The instructions of the agent reputation registry, with their arguments.
#[derive(Clone, Copy, Debug)]
pub enum MplAgentReputationInstruction {
    /// Register a record for an asset.
    RegisterReputationV1(RegisterReputationV1Args),
}

impl MplAgentReputationInstruction {
    /// Decodes instruction data: its opcode, then the arguments, which must
    /// fill the data exactly.
    pub fn unpack(data: &[u8]) -> (r: Result<MplAgentReputationInstruction, MplAgentReputationError>)
        ensures
            r is Err <==> (data@.len() != 8 || data@[0] != 0),
            r matches Err(e) ==> e == MplAgentReputationError::InvalidInstructionData,
            r matches Ok(MplAgentReputationInstruction::RegisterReputationV1(a)) ==> a.discriminator == data@[0] && a._padding@ == data@.subrange(1, 8),
    {
        if data.len() == 0 {
            return Err(MplAgentReputationError::InvalidInstructionData);
        }
        match MplAgentReputationInstructionDiscriminant::try_from(data[0]) {
            Ok(MplAgentReputationInstructionDiscriminant::RegisterReputationV1) => match RegisterReputationV1Args::from_bytes(data) {
                Some(a) => Ok(MplAgentReputationInstruction::RegisterReputationV1(a)),
                None => Err(MplAgentReputationError::InvalidInstructionData),
            },
            Err(_) => Err(MplAgentReputationError::InvalidInstructionData),
        }
    }
}

/// The accounts of the registration, in their fixed order.
#[derive(Clone, Copy, Debug)]
pub struct RegisterReputationV1Accounts {
    /// The record account to create.
    pub agent_reputation: Address,
    /// The asset that the record binds.
    pub asset: Address,
    /// The asset's collection, where it has one.
    pub collection: Option<Address>,
    /// The account that pays for the new account.
    pub payer: Address,
    /// The authority of the attach call; the payer acts where it is absent.
    pub authority: Option<Address>,
    /// The asset-registry program.
    pub mpl_core_program: Address,
    /// The system program.
    pub system_program: Address,
}

impl RegisterReputationV1Accounts {
    /// The number of accounts that the registration names.
    pub const LEN: usize = 7;

    /// Whether these are the accounts read from the list: optional ones are
    /// absent where the program's own address stands in their place.
    pub open spec fn reads(&self, accounts: Seq<AccountView>, program: Seq<u8>) -> bool {
        &&& accounts.len() >= 7
        &&& self.agent_reputation@ == accounts[0].key@
        &&& self.asset@ == accounts[1].key@
        &&& opt_view(self.collection) == optional_key(accounts[2].key@, program)
        &&& self.payer@ == accounts[3].key@
        &&& opt_view(self.authority) == optional_key(accounts[4].key@, program)
        &&& self.mpl_core_program@ == accounts[5].key@
        &&& self.system_program@ == accounts[6].key@
    }

    /// Reads the accounts from the list that the instruction names.
    pub fn context(accounts: &[AccountView], program_id: &Address) -> (r: Result<RegisterReputationV1Accounts, AccountsError>)
        ensures
            r is Err <==> accounts@.len() < 7,
            r matches Ok(c) ==> c.reads(accounts@, program_id@),
    {
        if accounts.len() < 7 {
            return Err(AccountsError::NotEnoughAccountKeys);
        }
        Ok(RegisterReputationV1Accounts {
            agent_reputation: accounts[0].key,
            asset: accounts[1].key,
            collection: optional_account(&accounts[2], program_id),
            payer: accounts[3].key,
            authority: optional_account(&accounts[4], program_id),
            mpl_core_program: accounts[5].key,
            system_program: accounts[6].key,
        })
    }
}

} // verus!

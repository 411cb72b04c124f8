//! The registration instruction of the agent identity registry, and the dispatcher
//! that routes instruction data to it.

use vstd::prelude::*;
use crate::account::{check_guards, guard_outcome, optional_key, AccountView};
use crate::address::{opt_view, verification, with_bump, Address};
use crate::error::ProgramError;
use crate::plan::{creates, AccountCreation, AdapterKind, LinkRequest, Registration};
use super::error::MplAgentIdentityError;
use super::instruction::{MplAgentIdentityInstructionDiscriminant, RegisterIdentityV1Accounts};
use super::state::AgentIdentityV1;
use crate::record::{read_u32_le, u32_le};
use crate::text::{utf8_decode, utf8_text};

verus! {

/// The URI of the agent registration file, carried after the 8-byte header
/// as a 4-byte little-endian length and that many bytes of UTF-8; `None`
/// where the data is too short for either or the bytes are not UTF-8.
pub open spec fn agent_registration_uri(data: Seq<u8>) -> Option<Seq<char>> {
    if data.len() < 12 {
        None
    } else if 12 + u32_le(data, 8) as int > data.len() {
        None
    } else {
        utf8_decode(data.subrange(12, 12 + u32_le(data, 8) as int))
    }
}

/// The fixed header of the identity registration's arguments: the opcode
/// byte and seven bytes of padding. The URI follows it.
#[derive(Clone, Copy, Debug)]
pub struct RegisterIdentityV1Args {
    /// The instruction's opcode.
    pub discriminator: u8,
    /// Padding for alignment.
    pub _padding: [u8; 7],
}

impl RegisterIdentityV1Args {
    /// The byte length of the fixed header.
    pub const LEN: usize = 8;

    /// Reads the URI that follows the header of the instruction data.
    pub fn agent_registration_uri(data: &[u8]) -> (r: Result<String, MplAgentIdentityError>)
        ensures
            match agent_registration_uri(data@) {
                Some(s) => r matches Ok(t) && t@ == s,
                None => r == Err::<String, MplAgentIdentityError>(MplAgentIdentityError::InvalidInstructionData),
            },
    {
        if data.len() < 12 {
            return Err(MplAgentIdentityError::InvalidInstructionData);
        }
        let n = read_u32_le(data, 8) as usize;
        if n > data.len() - 12 {
            return Err(MplAgentIdentityError::InvalidInstructionData);
        }
        let bytes = vstd::slice::slice_subrange(data, 12, 12 + n);
        match utf8_text(bytes) {
            Some(s) => Ok(s),
            None => Err(MplAgentIdentityError::InvalidInstructionData),
        }
    }
}

/// What refuses the registration, in the order the checks run: the URI,
/// too few accounts, the record's derived address, then the guard
/// sequence; `None` where it goes through.
pub open spec fn register_error(program: Seq<u8>, accounts: Seq<AccountView>, data: Seq<u8>) -> Option<ProgramError> {
    if agent_registration_uri(data) is None {
        Some(ProgramError::Custom(MplAgentIdentityError::InvalidInstructionData.spec_code()))
    } else if accounts.len() < 7 {
        Some(ProgramError::NotEnoughAccountKeys)
    } else if verification(accounts[0].key@, program, AgentIdentityV1::spec_seeds(accounts[1].key@)) is None {
        Some(ProgramError::Custom(MplAgentIdentityError::InvalidAccountData.spec_code()))
    } else {
        match guard_outcome(accounts[1], accounts[5].key@, accounts[6].key@) {
            Err(g) => Some(ProgramError::Custom(MplAgentIdentityError::spec_from_guard(g).spec_code())),
            Ok(_) => None,
        }
    }
}

/// What a registration that goes through asks of the host: create the record
/// at its verified address with its initial image, then link the
/// adapter keyed by the record to the asset.
pub open spec fn register_plan(reg: Registration, program: Seq<u8>, accounts: Seq<AccountView>) -> bool {
    let asset = accounts[1].key@;
    let rb = verification(accounts[0].key@, program, AgentIdentityV1::spec_seeds(asset))->Some_0;
    &&& reg.creations@.len() == 1
    &&& creates(
        reg.creations@[0],
        accounts[0].key@,
        accounts[3].key@,
        40,
        program,
        with_bump(AgentIdentityV1::spec_seeds(asset), rb),
        AgentIdentityV1::initialized_image(rb, asset),
    )
    &&& reg.link.kind == AdapterKind::AppData
    &&& reg.link.entity@ == asset
    &&& opt_view(reg.link.collection) == optional_key(accounts[2].key@, program)
    &&& reg.link.data_authority@ == accounts[0].key@
    &&& reg.link.payer@ == accounts[3].key@
    &&& opt_view(reg.link.authority) == optional_key(accounts[4].key@, program)
}

/// Registers an agent identity record for an asset.
///
/// Verifies the derived address of each record, checks the asset and the
/// two programs, and returns what the host is to create and link.
pub fn register_identity_v1(
    program_id: &Address,
    accounts: &[AccountView],
    instruction_data: &[u8],
) -> (r: Result<Registration, ProgramError>)
    ensures
        r is Err <==> register_error(program_id@, accounts@, instruction_data@) is Some,
        r matches Err(e) ==> register_error(program_id@, accounts@, instruction_data@) == Some(e),
        r matches Ok(reg) ==> register_plan(reg, program_id@, accounts@),
{
    match RegisterIdentityV1Args::agent_registration_uri(instruction_data) {
        Ok(_) => {},
        Err(e) => return Err(ProgramError::from(e)),
    }
    let ctx = match RegisterIdentityV1Accounts::context(accounts, program_id) {
        Ok(c) => c,
        Err(e) => return Err(ProgramError::from(e)),
    };
    let rb = match AgentIdentityV1::check_pda_derivation(&ctx.agent_identity, &ctx.asset, program_id) {
        Ok(b) => b,
        Err(e) => return Err(ProgramError::from(e)),
    };
    match check_guards(&accounts[1], &ctx.mpl_core_program, &ctx.system_program) {
        Ok(()) => {},
        Err(g) => return Err(ProgramError::from(MplAgentIdentityError::from_guard(g))),
    }
    let mut creations: Vec<AccountCreation> = Vec::new();
    creations.push(AgentIdentityV1::create_account(&ctx, rb, program_id));
    let link = LinkRequest {
        kind: AdapterKind::AppData,
        entity: ctx.asset,
        collection: ctx.collection,
        payer: ctx.payer,
        authority: ctx.authority,
        data_authority: ctx.agent_identity,
    };
    Ok(Registration { creations, link })
}

/// What refuses an instruction: empty data or an unknown opcode, then what
/// refuses the registration.
pub open spec fn instruction_error(
    program: Seq<u8>,
    accounts: Seq<AccountView>,
    data: Seq<u8>,
) -> Option<ProgramError> {
    if data.len() == 0 || data[0] != 0 {
        Some(ProgramError::Custom(MplAgentIdentityError::InvalidInstructionData.spec_code()))
    } else {
        register_error(program, accounts, data)
    }
}

/// Routes instruction data by its opcode to the registration handler.
pub fn process_instruction(
    program_id: &Address,
    accounts: &[AccountView],
    instruction_data: &[u8],
) -> (r: Result<Registration, ProgramError>)
    ensures
        r is Err <==> instruction_error(program_id@, accounts@, instruction_data@) is Some,
        r matches Err(e) ==> instruction_error(program_id@, accounts@, instruction_data@) == Some(e),
        r matches Ok(reg) ==> register_plan(reg, program_id@, accounts@),
{
    if instruction_data.len() == 0 {
        return Err(ProgramError::from(MplAgentIdentityError::InvalidInstructionData));
    }
    match MplAgentIdentityInstructionDiscriminant::try_from(instruction_data[0]) {
        Ok(MplAgentIdentityInstructionDiscriminant::RegisterIdentityV1) => register_identity_v1(program_id, accounts, instruction_data),
        Err(_) => Err(ProgramError::from(MplAgentIdentityError::InvalidInstructionData)),
    }
}

} // verus!

//! The registration instruction of the agent reputation registry, and the dispatcher
//! that routes instruction data to it.

use vstd::prelude::*;
use crate::account::{check_guards, guard_outcome, optional_key, AccountView};
use crate::address::{opt_view, verification, with_bump, Address};
use crate::error::ProgramError;
use crate::plan::{creates, AccountCreation, AdapterKind, LinkRequest, Registration};
use super::error::MplAgentReputationError;
use super::instruction::{RegisterReputationV1Accounts, MplAgentReputationInstruction};
use super::state::AgentReputationV1;

verus! {

/// The arguments of the reputation registration: the opcode byte and seven bytes of padding, 8
/// bytes in all.
#[derive(Clone, Copy, Debug)]
pub struct RegisterReputationV1Args {
    /// The instruction's opcode.
    pub discriminator: u8,
    /// Padding for alignment.
    pub _padding: [u8; 7],
}

impl RegisterReputationV1Args {
    /// The byte length of the arguments.
    pub const LEN: usize = 8;

    /// Reads the arguments from instruction data that holds exactly them;
    /// `None` for data of any other length.
    pub fn from_bytes(data: &[u8]) -> (r: Option<RegisterReputationV1Args>)
        ensures
            r is None <==> data@.len() != 8,
            r matches Some(a) ==> a.discriminator == data@[0] && a._padding@ == data@.subrange(1, 8),
    {
        if data.len() != 8 {
            return None;
        }
        let mut padding: [u8; 7] = [0u8; 7];
        let mut i: usize = 0;
        while i < 7
            invariant
                i <= 7,
                data@.len() == 8,
                padding@.len() == 7,
                forall|j: int| 0 <= j < i ==> padding@[j] == data@[1 + j],
            decreases 7 - i,
        {
            padding[i] = data[1 + i];
            i = i + 1;
        }
        assert(padding@ =~= data@.subrange(1, 8));
        Some(RegisterReputationV1Args { discriminator: data[0], _padding: padding })
    }
}

/// What refuses the registration, in the order the checks run: too few
/// accounts, the record's derived address, then the guard sequence; `None`
/// where it goes through.
pub open spec fn register_error(program: Seq<u8>, accounts: Seq<AccountView>) -> Option<ProgramError> {
    if accounts.len() < 7 {
        Some(ProgramError::NotEnoughAccountKeys)
    } else if verification(accounts[0].key@, program, AgentReputationV1::spec_seeds(accounts[1].key@)) is None {
        Some(ProgramError::Custom(MplAgentReputationError::InvalidAccountData.spec_code()))
    } else {
        match guard_outcome(accounts[1], accounts[5].key@, accounts[6].key@) {
            Err(g) => Some(ProgramError::Custom(MplAgentReputationError::spec_from_guard(g).spec_code())),
            Ok(_) => None,
        }
    }
}

/// What a registration that goes through asks of the host: create the record
/// at its verified address with its initial image, then link the
/// adapter keyed by the record to the asset.
pub open spec fn register_plan(reg: Registration, program: Seq<u8>, accounts: Seq<AccountView>) -> bool {
    let asset = accounts[1].key@;
    let rb = verification(accounts[0].key@, program, AgentReputationV1::spec_seeds(asset))->Some_0;
    &&& reg.creations@.len() == 1
    &&& creates(
        reg.creations@[0],
        accounts[0].key@,
        accounts[3].key@,
        40,
        program,
        with_bump(AgentReputationV1::spec_seeds(asset), rb),
        AgentReputationV1::initialized_image(rb, asset),
    )
    &&& reg.link.kind == AdapterKind::AppData
    &&& reg.link.entity@ == asset
    &&& opt_view(reg.link.collection) == optional_key(accounts[2].key@, program)
    &&& reg.link.data_authority@ == accounts[0].key@
    &&& reg.link.payer@ == accounts[3].key@
    &&& opt_view(reg.link.authority) == optional_key(accounts[4].key@, program)
}

/// Registers an agent reputation record for an asset.
///
/// Verifies the derived address of each record, checks the asset and the
/// two programs, and returns what the host is to create and link.
pub fn register_reputation_v1(
    program_id: &Address,
    accounts: &[AccountView],
    _args: &RegisterReputationV1Args,
) -> (r: Result<Registration, ProgramError>)
    ensures
        r is Err <==> register_error(program_id@, accounts@) is Some,
        r matches Err(e) ==> register_error(program_id@, accounts@) == Some(e),
        r matches Ok(reg) ==> register_plan(reg, program_id@, accounts@),
{
    let ctx = match RegisterReputationV1Accounts::context(accounts, program_id) {
        Ok(c) => c,
        Err(e) => return Err(ProgramError::from(e)),
    };
    let rb = match AgentReputationV1::check_pda_derivation(&ctx.agent_reputation, &ctx.asset, program_id) {
        Ok(b) => b,
        Err(e) => return Err(ProgramError::from(e)),
    };
    match check_guards(&accounts[1], &ctx.mpl_core_program, &ctx.system_program) {
        Ok(()) => {},
        Err(g) => return Err(ProgramError::from(MplAgentReputationError::from_guard(g))),
    }
    let mut creations: Vec<AccountCreation> = Vec::new();
    creations.push(AgentReputationV1::create_account(&ctx, rb, program_id));
    let link = LinkRequest {
        kind: AdapterKind::AppData,
        entity: ctx.asset,
        collection: ctx.collection,
        payer: ctx.payer,
        authority: ctx.authority,
        data_authority: ctx.agent_reputation,
    };
    Ok(Registration { creations, link })
}

/// What refuses an instruction: empty data, an unknown opcode or arguments
/// that do not fill the data exactly, then what refuses the registration.
pub open spec fn instruction_error(
    program: Seq<u8>,
    accounts: Seq<AccountView>,
    data: Seq<u8>,
) -> Option<ProgramError> {
    if data.len() != 8 || data[0] != 0 {
        Some(ProgramError::Custom(MplAgentReputationError::InvalidInstructionData.spec_code()))
    } else {
        register_error(program, accounts)
    }
}

/// Routes instruction data by its opcode to the registration handler.
pub fn process_instruction(
    program_id: &Address,
    accounts: &[AccountView],
    instruction_data: &[u8],
) -> (r: Result<Registration, ProgramError>)
    ensures
        r is Err <==> instruction_error(program_id@, accounts@, instruction_data@) is Some,
        r matches Err(e) ==> instruction_error(program_id@, accounts@, instruction_data@) == Some(e),
        r matches Ok(reg) ==> register_plan(reg, program_id@, accounts@),
{
    match MplAgentReputationInstruction::unpack(instruction_data) {
        Ok(MplAgentReputationInstruction::RegisterReputationV1(args)) => register_reputation_v1(program_id, accounts, &args),
        Err(e) => Err(ProgramError::from(e)),
    }
}

} // verus!

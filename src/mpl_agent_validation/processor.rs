//! The registration instruction of the agent validation registry, and the dispatcher
//! that routes instruction data to it.

use vstd::prelude::*;
use crate::account::{check_guards, guard_outcome, optional_key, AccountView};
use crate::address::{opt_view, verification, with_bump, Address};
use crate::error::ProgramError;
use crate::plan::{creates, AccountCreation, AdapterKind, LinkRequest, Registration};
use super::error::MplAgentValidationError;
use super::instruction::{RegisterValidationV1Accounts, MplAgentValidationInstruction};
use super::state::{AgentValidationV1, CollectionValidationConfigV1};

verus! {

/// The arguments of the validation registration: the opcode byte and seven bytes of padding, 8
/// bytes in all.
#[derive(Clone, Copy, Debug)]
pub struct RegisterValidationV1Args {
    /// The instruction's opcode.
    pub discriminator: u8,
    /// Padding for alignment.
    pub _padding: [u8; 7],
}

impl RegisterValidationV1Args {
    /// The byte length of the arguments.
    pub const LEN: usize = 8;

    /// Reads the arguments from instruction data that holds exactly them;
    /// `None` for data of any other length.
    pub fn from_bytes(data: &[u8]) -> (r: Option<RegisterValidationV1Args>)
        ensures
            r is None <==> data@.len() != 8,
            r matches Some(a) ==> a.discriminator == data@[0] && a._padding@ == data@.subrange(1, 8),
    {
        if data.len() != 8 {
            return None;
        }
        let mut padding: [u8; 7] = [0u8; 7];
        let mut i: usize = 0;
        while i < 7
            invariant
                i <= 7,
                data@.len() == 8,
                padding@.len() == 7,
                forall|j: int| 0 <= j < i ==> padding@[j] == data@[1 + j],
            decreases 7 - i,
        {
            padding[i] = data[1 + i];
            i = i + 1;
        }
        assert(padding@ =~= data@.subrange(1, 8));
        Some(RegisterValidationV1Args { discriminator: data[0], _padding: padding })
    }
}

/// What refuses the registration, in the order the checks run: too few
/// accounts, the derived address of each record, then the guard sequence;
/// `None` where it goes through.
pub open spec fn register_error(program: Seq<u8>, accounts: Seq<AccountView>) -> Option<ProgramError> {
    if accounts.len() < 8 {
        Some(ProgramError::NotEnoughAccountKeys)
    } else if verification(accounts[0].key@, program, AgentValidationV1::spec_seeds(accounts[2].key@)) is None {
        Some(ProgramError::Custom(MplAgentValidationError::InvalidAccountData.spec_code()))
    } else if verification(accounts[1].key@, program, CollectionValidationConfigV1::spec_seeds(accounts[3].key@)) is None {
        Some(ProgramError::Custom(MplAgentValidationError::InvalidAccountData.spec_code()))
    } else {
        match guard_outcome(accounts[2], accounts[6].key@, accounts[7].key@) {
            Err(g) => Some(ProgramError::Custom(MplAgentValidationError::spec_from_guard(g).spec_code())),
            Ok(_) => None,
        }
    }
}

/// What a registration that goes through asks of the host: create the record and the collection config
/// at the verified addresses with their initial images, then link the
/// adapter keyed by the config to the collection.
pub open spec fn register_plan(reg: Registration, program: Seq<u8>, accounts: Seq<AccountView>) -> bool {
    let asset = accounts[2].key@;
    let rb = verification(accounts[0].key@, program, AgentValidationV1::spec_seeds(asset))->Some_0;
    let collection = accounts[3].key@;
    let cb = verification(accounts[1].key@, program, CollectionValidationConfigV1::spec_seeds(collection))->Some_0;
    &&& reg.creations@.len() == 2
    &&& creates(
        reg.creations@[0],
        accounts[0].key@,
        accounts[4].key@,
        40,
        program,
        with_bump(AgentValidationV1::spec_seeds(asset), rb),
        AgentValidationV1::initialized_image(rb, asset),
    )
    &&& creates(
        reg.creations@[1],
        accounts[1].key@,
        accounts[4].key@,
        40,
        program,
        with_bump(CollectionValidationConfigV1::spec_seeds(collection), cb),
        CollectionValidationConfigV1::initialized_image(cb, collection),
    )
    &&& reg.link.kind == AdapterKind::LinkedAppData
    &&& reg.link.entity@ == collection
    &&& reg.link.collection is None
    &&& reg.link.data_authority@ == accounts[1].key@
    &&& reg.link.payer@ == accounts[4].key@
    &&& opt_view(reg.link.authority) == optional_key(accounts[5].key@, program)
}

/// Registers an agent validation record for an asset and a validation config for its collection.
///
/// Verifies the derived address of each record, checks the asset and the
/// two programs, and returns what the host is to create and link.
pub fn register_validation_v1(
    program_id: &Address,
    accounts: &[AccountView],
    _args: &RegisterValidationV1Args,
) -> (r: Result<Registration, ProgramError>)
    ensures
        r is Err <==> register_error(program_id@, accounts@) is Some,
        r matches Err(e) ==> register_error(program_id@, accounts@) == Some(e),
        r matches Ok(reg) ==> register_plan(reg, program_id@, accounts@),
{
    let ctx = match RegisterValidationV1Accounts::context(accounts, program_id) {
        Ok(c) => c,
        Err(e) => return Err(ProgramError::from(e)),
    };
    let rb = match AgentValidationV1::check_pda_derivation(&ctx.agent_validation, &ctx.asset, program_id) {
        Ok(b) => b,
        Err(e) => return Err(ProgramError::from(e)),
    };
    let cb = match CollectionValidationConfigV1::check_pda_derivation(&ctx.collection_validation_config, &ctx.collection, program_id) {
        Ok(b) => b,
        Err(e) => return Err(ProgramError::from(e)),
    };
    match check_guards(&accounts[2], &ctx.mpl_core_program, &ctx.system_program) {
        Ok(()) => {},
        Err(g) => return Err(ProgramError::from(MplAgentValidationError::from_guard(g))),
    }
    let mut creations: Vec<AccountCreation> = Vec::new();
    creations.push(AgentValidationV1::create_account(&ctx, rb, program_id));
    creations.push(CollectionValidationConfigV1::create_account(&ctx, cb, program_id));
    let link = LinkRequest {
        kind: AdapterKind::LinkedAppData,
        entity: ctx.collection,
        collection: None,
        payer: ctx.payer,
        authority: ctx.authority,
        data_authority: ctx.collection_validation_config,
    };
    Ok(Registration { creations, link })
}

/// What refuses an instruction: empty data, an unknown opcode or arguments
/// that do not fill the data exactly, then what refuses the registration.
pub open spec fn instruction_error(
    program: Seq<u8>,
    accounts: Seq<AccountView>,
    data: Seq<u8>,
) -> Option<ProgramError> {
    if data.len() != 8 || data[0] != 0 {
        Some(ProgramError::Custom(MplAgentValidationError::InvalidInstructionData.spec_code()))
    } else {
        register_error(program, accounts)
    }
}

/// Routes instruction data by its opcode to the registration handler.
pub fn process_instruction(
    program_id: &Address,
    accounts: &[AccountView],
    instruction_data: &[u8],
) -> (r: Result<Registration, ProgramError>)
    ensures
        r is Err <==> instruction_error(program_id@, accounts@, instruction_data@) is Some,
        r matches Err(e) ==> instruction_error(program_id@, accounts@, instruction_data@) == Some(e),
        r matches Ok(reg) ==> register_plan(reg, program_id@, accounts@),
{
    match MplAgentValidationInstruction::unpack(instruction_data) {
        Ok(MplAgentValidationInstruction::RegisterValidationV1(args)) => register_validation_v1(program_id, accounts, &args),
        Err(e) => Err(ProgramError::from(e)),
    }
}

} // verus!

//! The registration instruction of the 8004 identity registry, and the dispatcher
//! that routes instruction data to it.

use vstd::prelude::*;
use crate::account::{check_guards, guard_outcome, optional_key, AccountView};
use crate::address::{opt_view, verification, with_bump, Address};
use crate::error::ProgramError;
use crate::plan::{creates, AccountCreation, AdapterKind, LinkRequest, Registration};
use super::error::Mpl8004IdentityError;
use super::instruction::{RegisterV1Accounts, Mpl8004IdentityInstruction};
use super::state::{AgentIdentityV1, CollectionConfigV1, MyAccount, MyData};
use crate::account::{system_program_address, system_program_id, AccountsError};
use crate::address::seeds_view;
use crate::record::{le_bytes_u16, le_bytes_u32, read_u16_le, read_u32_le, u16_le, u32_le};

verus! {

/// The arguments of the identity registration: the opcode byte and seven bytes of padding, 8
/// bytes in all.
#[derive(Clone, Copy, Debug)]
pub struct RegisterV1Args {
    /// The instruction's opcode.
    pub discriminator: u8,
    /// Padding for alignment.
    pub _padding: [u8; 7],
}

impl RegisterV1Args {
    /// The byte length of the arguments.
    pub const LEN: usize = 8;

    /// Reads the arguments from instruction data that holds exactly them;
    /// `None` for data of any other length.
    pub fn from_bytes(data: &[u8]) -> (r: Option<RegisterV1Args>)
        ensures
            r is None <==> data@.len() != 8,
            r matches Some(a) ==> a.discriminator == data@[0] && a._padding@ == data@.subrange(1, 8),
    {
        if data.len() != 8 {
            return None;
        }
        let mut padding: [u8; 7] = [0u8; 7];
        let mut i: usize = 0;
        while i < 7
            invariant
                i <= 7,
                data@.len() == 8,
                padding@.len() == 7,
                forall|j: int| 0 <= j < i ==> padding@[j] == data@[1 + j],
            decreases 7 - i,
        {
            padding[i] = data[1 + i];
            i = i + 1;
        }
        assert(padding@ =~= data@.subrange(1, 8));
        Some(RegisterV1Args { discriminator: data[0], _padding: padding })
    }
}

/// What refuses the registration, in the order the checks run: too few
/// accounts, the derived address of each record, then the guard sequence;
/// `None` where it goes through.
pub open spec fn register_error(program: Seq<u8>, accounts: Seq<AccountView>) -> Option<ProgramError> {
    if accounts.len() < 8 {
        Some(ProgramError::NotEnoughAccountKeys)
    } else if verification(accounts[0].key@, program, AgentIdentityV1::spec_seeds(accounts[2].key@)) is None {
        Some(ProgramError::Custom(Mpl8004IdentityError::InvalidAccountData.spec_code()))
    } else if verification(accounts[1].key@, program, CollectionConfigV1::spec_seeds(accounts[3].key@)) is None {
        Some(ProgramError::Custom(Mpl8004IdentityError::InvalidAccountData.spec_code()))
    } else {
        match guard_outcome(accounts[2], accounts[6].key@, accounts[7].key@) {
            Err(g) => Some(ProgramError::Custom(Mpl8004IdentityError::spec_from_guard(g).spec_code())),
            Ok(_) => None,
        }
    }
}

/// What a registration that goes through asks of the host: create the record and the collection config
/// at the verified addresses with their initial images, then link the
/// adapter keyed by the config to the collection.
pub open spec fn register_plan(reg: Registration, program: Seq<u8>, accounts: Seq<AccountView>) -> bool {
    let asset = accounts[2].key@;
    let rb = verification(accounts[0].key@, program, AgentIdentityV1::spec_seeds(asset))->Some_0;
    let collection = accounts[3].key@;
    let cb = verification(accounts[1].key@, program, CollectionConfigV1::spec_seeds(collection))->Some_0;
    &&& reg.creations@.len() == 2
    &&& creates(
        reg.creations@[0],
        accounts[0].key@,
        accounts[4].key@,
        40,
        program,
        with_bump(AgentIdentityV1::spec_seeds(asset), rb),
        AgentIdentityV1::initialized_image(rb, asset),
    )
    &&& creates(
        reg.creations@[1],
        accounts[1].key@,
        accounts[4].key@,
        40,
        program,
        with_bump(CollectionConfigV1::spec_seeds(collection), cb),
        CollectionConfigV1::initialized_image(cb, collection),
    )
    &&& reg.link.kind == AdapterKind::LinkedAppData
    &&& reg.link.entity@ == collection
    &&& reg.link.collection is None
    &&& reg.link.data_authority@ == accounts[1].key@
    &&& reg.link.payer@ == accounts[4].key@
    &&& opt_view(reg.link.authority) == optional_key(accounts[5].key@, program)
}

/// Registers an agent identity record for an asset and a config for its collection.
///
/// Verifies the derived address of each record, checks the asset and the
/// two programs, and returns what the host is to create and link.
pub fn register_v1(
    program_id: &Address,
    accounts: &[AccountView],
    _args: &RegisterV1Args,
) -> (r: Result<Registration, ProgramError>)
    ensures
        r is Err <==> register_error(program_id@, accounts@) is Some,
        r matches Err(e) ==> register_error(program_id@, accounts@) == Some(e),
        r matches Ok(reg) ==> register_plan(reg, program_id@, accounts@),
{
    let ctx = match RegisterV1Accounts::context(accounts, program_id) {
        Ok(c) => c,
        Err(e) => return Err(ProgramError::from(e)),
    };
    let rb = match AgentIdentityV1::check_pda_derivation(&ctx.agent_identity, &ctx.asset, program_id) {
        Ok(b) => b,
        Err(e) => return Err(ProgramError::from(e)),
    };
    let cb = match CollectionConfigV1::check_pda_derivation(&ctx.collection_config, &ctx.collection, program_id) {
        Ok(b) => b,
        Err(e) => return Err(ProgramError::from(e)),
    };
    match check_guards(&accounts[2], &ctx.mpl_core_program, &ctx.system_program) {
        Ok(()) => {},
        Err(g) => return Err(ProgramError::from(Mpl8004IdentityError::from_guard(g))),
    }
    let mut creations: Vec<AccountCreation> = Vec::new();
    creations.push(AgentIdentityV1::create_account(&ctx, rb, program_id));
    creations.push(CollectionConfigV1::create_account(&ctx, cb, program_id));
    let link = LinkRequest {
        kind: AdapterKind::LinkedAppData,
        entity: ctx.collection,
        collection: None,
        payer: ctx.payer,
        authority: ctx.authority,
        data_authority: ctx.collection_config,
    };
    Ok(Registration { creations, link })
}

/// What refuses an instruction: empty data, an unknown opcode or arguments
/// that do not fill the data exactly, then what refuses the registration.
pub open spec fn instruction_error(
    program: Seq<u8>,
    accounts: Seq<AccountView>,
    data: Seq<u8>,
) -> Option<ProgramError> {
    if data.len() != 8 || data[0] != 0 {
        Some(ProgramError::Custom(Mpl8004IdentityError::InvalidInstructionData.spec_code()))
    } else {
        register_error(program, accounts)
    }
}

/// Routes instruction data by its opcode to the registration handler.
pub fn process_instruction(
    program_id: &Address,
    accounts: &[AccountView],
    instruction_data: &[u8],
) -> (r: Result<Registration, ProgramError>)
    ensures
        r is Err <==> instruction_error(program_id@, accounts@, instruction_data@) is Some,
        r matches Err(e) ==> instruction_error(program_id@, accounts@, instruction_data@) == Some(e),
        r matches Ok(reg) ==> register_plan(reg, program_id@, accounts@),
{
    match Mpl8004IdentityInstruction::unpack(instruction_data) {
        Ok(Mpl8004IdentityInstruction::RegisterV1(args)) => register_v1(program_id, accounts, &args),
        Err(e) => Err(ProgramError::from(e)),
    }
}

/// The arguments of the generic account creation: the opcode byte, one byte
/// of padding, a 16-bit and a 32-bit argument; 8 bytes.
#[derive(Clone, Copy, Debug)]
pub struct CreateArgs {
    /// The instruction's opcode.
    pub discriminator: u8,
    /// Padding for alignment.
    pub _padding: [u8; 1],
    /// The first argument.
    pub arg1: u16,
    /// The second argument.
    pub arg2: u32,
}

impl CreateArgs {
    /// The byte length of the arguments.
    pub const LEN: usize = 8;

    /// Reads the arguments from instruction data that holds exactly them;
    /// `None` for data of any other length.
    pub fn from_bytes(data: &[u8]) -> (r: Option<CreateArgs>)
        ensures
            r is None <==> data@.len() != 8,
            r matches Some(a) ==> a.discriminator == data@[0]
                && a._padding@ == data@.subrange(1, 2)
                && a.arg1 == u16_le(data@, 2)
                && a.arg2 == u32_le(data@, 4),
    {
        if data.len() != 8 {
            return None;
        }
        let padding: [u8; 1] = [data[1]];
        assert(padding@ =~= data@.subrange(1, 2));
        Some(CreateArgs {
            discriminator: data[0],
            _padding: padding,
            arg1: read_u16_le(data, 2),
            arg2: read_u32_le(data, 4),
        })
    }
}

/// The accounts of the generic account creation, in their fixed order.
#[derive(Clone, Copy, Debug)]
pub struct CreateAccounts {
    /// The new account, which signs for its own creation.
    pub address: Address,
    /// The authority of the new account.
    pub authority: Address,
    /// The account that pays for the new account.
    pub payer: Address,
    /// The system program.
    pub system_program: Address,
}

impl CreateAccounts {
    /// The number of accounts that the creation names.
    pub const LEN: usize = 4;

    /// Reads the accounts from the list that the instruction names.
    pub fn context(accounts: &[AccountView]) -> (r: Result<CreateAccounts, AccountsError>)
        ensures
            r is Err <==> accounts@.len() < 4,
            r matches Ok(c) ==> c.address@ == accounts@[0].key@ && c.authority@ == accounts@[1].key@
                && c.payer@ == accounts@[2].key@ && c.system_program@ == accounts@[3].key@,
    {
        if accounts.len() < 4 {
            return Err(AccountsError::NotEnoughAccountKeys);
        }
        Ok(CreateAccounts {
            address: accounts[0].key,
            authority: accounts[1].key,
            payer: accounts[2].key,
            system_program: accounts[3].key,
        })
    }
}

/// The image of a new generic account: its kind, zero padding, the authority
/// and the payload made of the two arguments.
pub open spec fn created_image(authority: Seq<u8>, arg1: u16, arg2: u32) -> Seq<u8> {
    seq![3u8] + Seq::new(7, |i: int| 0u8) + authority + le_bytes_u16(arg1) + seq![0u8, 0] + le_bytes_u32(arg2)
}

/// Creates a generic account: checks the system program, and returns the
/// creation of the signing account, owned by the program, 48 bytes long,
/// holding the authority and the two arguments.
pub fn create(program_id: &Address, accounts: &[AccountView], args: &CreateArgs) -> (r: Result<AccountCreation, ProgramError>)
    ensures
        accounts@.len() < 4 ==> r == Err::<AccountCreation, ProgramError>(ProgramError::NotEnoughAccountKeys),
        accounts@.len() >= 4 && accounts@[3].key@ != system_program_address() ==> r
            == Err::<AccountCreation, ProgramError>(ProgramError::Custom(Mpl8004IdentityError::InvalidSystemProgram.spec_code())),
        r is Ok <==> accounts@.len() >= 4 && accounts@[3].key@ == system_program_address(),
        r matches Ok(c) ==> creates(
            c,
            accounts@[0].key@,
            accounts@[2].key@,
            48,
            program_id@,
            Seq::empty(),
            created_image(accounts@[1].key@, args.arg1, args.arg2),
        ),
{
    let ctx = match CreateAccounts::context(accounts) {
        Ok(c) => c,
        Err(e) => return Err(ProgramError::from(e)),
    };
    let system = system_program_id();
    if !ctx.system_program.same_as(&system) {
        return Err(ProgramError::from(Mpl8004IdentityError::InvalidSystemProgram));
    }
    let mut account = MyAccount::zeroed();
    account.initialize(ctx.authority, MyData::new(args.arg1, args.arg2));
    let image = account.to_bytes();
    assert(image@ =~= created_image(accounts@[1].key@, args.arg1, args.arg2));
    let seeds: Vec<Vec<u8>> = Vec::new();
    assert(seeds_view(seeds@) =~= Seq::empty());
    Ok(AccountCreation {
        address: ctx.address,
        payer: ctx.payer,
        space: 48,
        owner: *program_id,
        signer_seeds: seeds,
        image,
    })
}

} // verus!

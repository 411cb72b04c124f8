//! The errors of the agent identity registry.

use vstd::prelude::*;
use crate::account::GuardFailure;
use crate::error::ProgramError;

verus! {

/// The errors of the agent identity registry, each with a fixed code.
#[derive(Clone, Copy, Debug, PartialEq, Eq, Structural)]
pub enum MplAgentIdentityError {
    /// The account-creation program is not the system program.
    InvalidSystemProgram,
    /// The instruction data is empty, names no instruction, or does not decode.
    InvalidInstructionData,
    /// A derived address does not match its seeds.
    InvalidAccountData,
    /// The asset-registry program is not the expected one.
    InvalidMplCoreProgram,
    /// The entity is not an asset of the asset registry.
    InvalidCoreAsset,
}

impl MplAgentIdentityError {
    /// The error's code, in the order of declaration.
    pub open spec fn spec_code(self) -> u32 {
        match self {
            MplAgentIdentityError::InvalidSystemProgram => 0,
            MplAgentIdentityError::InvalidInstructionData => 1,
            MplAgentIdentityError::InvalidAccountData => 2,
            MplAgentIdentityError::InvalidMplCoreProgram => 3,
            MplAgentIdentityError::InvalidCoreAsset => 4,
        }
    }

    /// The error's code.
    pub fn code(&self) -> (r: u32)
        ensures
            r == self.spec_code(),
    {
        match self {
            MplAgentIdentityError::InvalidSystemProgram => 0,
            MplAgentIdentityError::InvalidInstructionData => 1,
            MplAgentIdentityError::InvalidAccountData => 2,
            MplAgentIdentityError::InvalidMplCoreProgram => 3,
            MplAgentIdentityError::InvalidCoreAsset => 4,
        }
    }

    /// The error that has the given code, if any.
    pub fn from_code(code: u32) -> (r: Option<MplAgentIdentityError>)
        ensures
            r is None <==> code > 4,
            r matches Some(e) ==> e.spec_code() == code,
    {
        match code {
            0 => Some(MplAgentIdentityError::InvalidSystemProgram),
            1 => Some(MplAgentIdentityError::InvalidInstructionData),
            2 => Some(MplAgentIdentityError::InvalidAccountData),
            3 => Some(MplAgentIdentityError::InvalidMplCoreProgram),
            4 => Some(MplAgentIdentityError::InvalidCoreAsset),
            _ => None,
        }
    }

    /// The error for a failed guard.
    pub open spec fn spec_from_guard(g: GuardFailure) -> MplAgentIdentityError {
        match g {
            GuardFailure::CoreAsset => MplAgentIdentityError::InvalidCoreAsset,
            GuardFailure::MplCoreProgram => MplAgentIdentityError::InvalidMplCoreProgram,
            GuardFailure::SystemProgram => MplAgentIdentityError::InvalidSystemProgram,
        }
    }

    /// The error for a failed guard.
    pub fn from_guard(g: GuardFailure) -> (r: MplAgentIdentityError)
        ensures
            r == Self::spec_from_guard(g),
    {
        match g {
            GuardFailure::CoreAsset => MplAgentIdentityError::InvalidCoreAsset,
            GuardFailure::MplCoreProgram => MplAgentIdentityError::InvalidMplCoreProgram,
            GuardFailure::SystemProgram => MplAgentIdentityError::InvalidSystemProgram,
        }
    }
}

impl From<MplAgentIdentityError> for ProgramError {
    fn from(e: MplAgentIdentityError) -> (r: ProgramError) {
        ProgramError::Custom(e.code())
    }
}

impl vstd::std_specs::convert::FromSpecImpl<MplAgentIdentityError> for ProgramError {
    open spec fn obeys_from_spec() -> bool {
        true
    }

    open spec fn from_spec(e: MplAgentIdentityError) -> ProgramError {
        ProgramError::Custom(e.spec_code())
    }
}

} // verus!

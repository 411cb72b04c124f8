//! The errors of the agent reputation registry.

use vstd::prelude::*;
use crate::account::GuardFailure;
use crate::error::ProgramError;

verus! {

/// The errors of the agent reputation registry, each with a fixed code.
#[derive(Clone, Copy, Debug, PartialEq, Eq, Structural)]
pub enum MplAgentReputationError {
    /// The account-creation program is not the system program.
    InvalidSystemProgram,
    /// The instruction data is empty, names no instruction, or does not decode.
    InvalidInstructionData,
    /// A derived address does not match its seeds.
    InvalidAccountData,
    /// The asset-registry program is not the expected one.
    InvalidMplCoreProgram,
    /// The entity is not an asset of the asset registry.
    InvalidCoreAsset,
}

impl MplAgentReputationError {
    /// The error's code, in the order of declaration.
    pub open spec fn spec_code(self) -> u32 {
        match self {
            MplAgentReputationError::InvalidSystemProgram => 0,
            MplAgentReputationError::InvalidInstructionData => 1,
            MplAgentReputationError::InvalidAccountData => 2,
            MplAgentReputationError::InvalidMplCoreProgram => 3,
            MplAgentReputationError::InvalidCoreAsset => 4,
        }
    }

    /// The error's code.
    pub fn code(&self) -> (r: u32)
        ensures
            r == self.spec_code(),
    {
        match self {
            MplAgentReputationError::InvalidSystemProgram => 0,
            MplAgentReputationError::InvalidInstructionData => 1,
            MplAgentReputationError::InvalidAccountData => 2,
            MplAgentReputationError::InvalidMplCoreProgram => 3,
            MplAgentReputationError::InvalidCoreAsset => 4,
        }
    }

    /// The error that has the given code, if any.
    pub fn from_code(code: u32) -> (r: Option<MplAgentReputationError>)
        ensures
            r is None <==> code > 4,
            r matches Some(e) ==> e.spec_code() == code,
    {
        match code {
            0 => Some(MplAgentReputationError::InvalidSystemProgram),
            1 => Some(MplAgentReputationError::InvalidInstructionData),
            2 => Some(MplAgentReputationError::InvalidAccountData),
            3 => Some(MplAgentReputationError::InvalidMplCoreProgram),
            4 => Some(MplAgentReputationError::InvalidCoreAsset),
            _ => None,
        }
    }

    /// The error for a failed guard.
    pub open spec fn spec_from_guard(g: GuardFailure) -> MplAgentReputationError {
        match g {
            GuardFailure::CoreAsset => MplAgentReputationError::InvalidCoreAsset,
            GuardFailure::MplCoreProgram => MplAgentReputationError::InvalidMplCoreProgram,
            GuardFailure::SystemProgram => MplAgentReputationError::InvalidSystemProgram,
        }
    }

    /// The error for a failed guard.
    pub fn from_guard(g: GuardFailure) -> (r: MplAgentReputationError)
        ensures
            r == Self::spec_from_guard(g),
    {
        match g {
            GuardFailure::CoreAsset => MplAgentReputationError::InvalidCoreAsset,
            GuardFailure::MplCoreProgram => MplAgentReputationError::InvalidMplCoreProgram,
            GuardFailure::SystemProgram => MplAgentReputationError::InvalidSystemProgram,
        }
    }
}

impl From<MplAgentReputationError> for ProgramError {
    fn from(e: MplAgentReputationError) -> (r: ProgramError) {
        ProgramError::Custom(e.code())
    }
}

impl vstd::std_specs::convert::FromSpecImpl<MplAgentReputationError> for ProgramError {
    open spec fn obeys_from_spec() -> bool {
        true
    }

    open spec fn from_spec(e: MplAgentReputationError) -> ProgramError {
        ProgramError::Custom(e.spec_code())
    }
}

} // verus!

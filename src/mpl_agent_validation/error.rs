//! The errors of the agent validation registry.

use vstd::prelude::*;
use crate::account::GuardFailure;
use crate::error::ProgramError;

verus! {

/// The errors of the agent validation registry, each with a fixed code.
#[derive(Clone, Copy, Debug, PartialEq, Eq, Structural)]
pub enum MplAgentValidationError {
    /// The account-creation program is not the system program.
    InvalidSystemProgram,
    /// The instruction data is empty, names no instruction, or does not decode.
    InvalidInstructionData,
    /// A derived address does not match its seeds.
    InvalidAccountData,
    /// The asset-registry program is not the expected one.
    InvalidMplCoreProgram,
    /// The entity is not an asset of the asset registry.
    InvalidCoreAsset,
}

impl MplAgentValidationError {
    /// The error's code, in the order of declaration.
    pub open spec fn spec_code(self) -> u32 {
        match self {
            MplAgentValidationError::InvalidSystemProgram => 0,
            MplAgentValidationError::InvalidInstructionData => 1,
            MplAgentValidationError::InvalidAccountData => 2,
            MplAgentValidationError::InvalidMplCoreProgram => 3,
            MplAgentValidationError::InvalidCoreAsset => 4,
        }
    }

    /// The error's code.
    pub fn code(&self) -> (r: u32)
        ensures
            r == self.spec_code(),
    {
        match self {
            MplAgentValidationError::InvalidSystemProgram => 0,
            MplAgentValidationError::InvalidInstructionData => 1,
            MplAgentValidationError::InvalidAccountData => 2,
            MplAgentValidationError::InvalidMplCoreProgram => 3,
            MplAgentValidationError::InvalidCoreAsset => 4,
        }
    }

    /// The error that has the given code, if any.
    pub fn from_code(code: u32) -> (r: Option<MplAgentValidationError>)
        ensures
            r is None <==> code > 4,
            r matches Some(e) ==> e.spec_code() == code,
    {
        match code {
            0 => Some(MplAgentValidationError::InvalidSystemProgram),
            1 => Some(MplAgentValidationError::InvalidInstructionData),
            2 => Some(MplAgentValidationError::InvalidAccountData),
            3 => Some(MplAgentValidationError::InvalidMplCoreProgram),
            4 => Some(MplAgentValidationError::InvalidCoreAsset),
            _ => None,
        }
    }

    /// The error for a failed guard.
    pub open spec fn spec_from_guard(g: GuardFailure) -> MplAgentValidationError {
        match g {
            GuardFailure::CoreAsset => MplAgentValidationError::InvalidCoreAsset,
            GuardFailure::MplCoreProgram => MplAgentValidationError::InvalidMplCoreProgram,
            GuardFailure::SystemProgram => MplAgentValidationError::InvalidSystemProgram,
        }
    }

    /// The error for a failed guard.
    pub fn from_guard(g: GuardFailure) -> (r: MplAgentValidationError)
        ensures
            r == Self::spec_from_guard(g),
    {
        match g {
            GuardFailure::CoreAsset => MplAgentValidationError::InvalidCoreAsset,
            GuardFailure::MplCoreProgram => MplAgentValidationError::InvalidMplCoreProgram,
            GuardFailure::SystemProgram => MplAgentValidationError::InvalidSystemProgram,
        }
    }
}

impl From<MplAgentValidationError> for ProgramError {
    fn from(e: MplAgentValidationError) -> (r: ProgramError) {
        ProgramError::Custom(e.code())
    }
}

impl vstd::std_specs::convert::FromSpecImpl<MplAgentValidationError> for ProgramError {
    open spec fn obeys_from_spec() -> bool {
        true
    }

    open spec fn from_spec(e: MplAgentValidationError) -> ProgramError {
        ProgramError::Custom(e.spec_code())
    }
}

} // verus!

//! The errors of the 8004 identity registry.

use vstd::prelude::*;
use crate::account::GuardFailure;
use crate::error::ProgramError;

verus! {

/// The errors of the 8004 identity registry, each with a fixed code.
#[derive(Clone, Copy, Debug, PartialEq, Eq, Structural)]
pub enum Mpl8004IdentityError {
    /// The account-creation program is not the system program.
    InvalidSystemProgram,
    /// The instruction data is empty, names no instruction, or does not decode.
    InvalidInstructionData,
    /// A derived address does not match its seeds.
    InvalidAccountData,
    /// The asset-registry program is not the expected one.
    InvalidMplCoreProgram,
    /// The entity is not an asset of the asset registry.
    InvalidCoreAsset,
}

impl Mpl8004IdentityError {
    /// The error's code, in the order of declaration.
    pub open spec fn spec_code(self) -> u32 {
        match self {
            Mpl8004IdentityError::InvalidSystemProgram => 0,
            Mpl8004IdentityError::InvalidInstructionData => 1,
            Mpl8004IdentityError::InvalidAccountData => 2,
            Mpl8004IdentityError::InvalidMplCoreProgram => 3,
            Mpl8004IdentityError::InvalidCoreAsset => 4,
        }
    }

    /// The error's code.
    pub fn code(&self) -> (r: u32)
        ensures
            r == self.spec_code(),
    {
        match self {
            Mpl8004IdentityError::InvalidSystemProgram => 0,
            Mpl8004IdentityError::InvalidInstructionData => 1,
            Mpl8004IdentityError::InvalidAccountData => 2,
            Mpl8004IdentityError::InvalidMplCoreProgram => 3,
            Mpl8004IdentityError::InvalidCoreAsset => 4,
        }
    }

    /// The error that has the given code, if any.
    pub fn from_code(code: u32) -> (r: Option<Mpl8004IdentityError>)
        ensures
            r is None <==> code > 4,
            r matches Some(e) ==> e.spec_code() == code,
    {
        match code {
            0 => Some(Mpl8004IdentityError::InvalidSystemProgram),
            1 => Some(Mpl8004IdentityError::InvalidInstructionData),
            2 => Some(Mpl8004IdentityError::InvalidAccountData),
            3 => Some(Mpl8004IdentityError::InvalidMplCoreProgram),
            4 => Some(Mpl8004IdentityError::InvalidCoreAsset),
            _ => None,
        }
    }

    /// The error for a failed guard.
    pub open spec fn spec_from_guard(g: GuardFailure) -> Mpl8004IdentityError {
        match g {
            GuardFailure::CoreAsset => Mpl8004IdentityError::InvalidCoreAsset,
            GuardFailure::MplCoreProgram => Mpl8004IdentityError::InvalidMplCoreProgram,
            GuardFailure::SystemProgram => Mpl8004IdentityError::InvalidSystemProgram,
        }
    }

    /// The error for a failed guard.
    pub fn from_guard(g: GuardFailure) -> (r: Mpl8004IdentityError)
        ensures
            r == Self::spec_from_guard(g),
    {
        match g {
            GuardFailure::CoreAsset => Mpl8004IdentityError::InvalidCoreAsset,
            GuardFailure::MplCoreProgram => Mpl8004IdentityError::InvalidMplCoreProgram,
            GuardFailure::SystemProgram => Mpl8004IdentityError::InvalidSystemProgram,
        }
    }
}

impl From<Mpl8004IdentityError> for ProgramError {
    fn from(e: Mpl8004IdentityError) -> (r: ProgramError) {
        ProgramError::Custom(e.code())
    }
}

impl vstd::std_specs::convert::FromSpecImpl<Mpl8004IdentityError> for ProgramError {
    open spec fn obeys_from_spec() -> bool {
        true
    }

    open spec fn from_spec(e: Mpl8004IdentityError) -> ProgramError {
        ProgramError::Custom(e.spec_code())
    }
}

} // verus!

//! The failure that an instruction ends with, as the host reports it.

use vstd::prelude::*;
use crate::account::AccountsError;

verus! {

/// The terminal error of an instruction: a registry's own error code, or a
/// failure of the host's own account checks.
#[derive(Clone, Copy, Debug, PartialEq, Eq, Structural)]
pub enum ProgramError {
    /// A registry error, by its code.
    Custom(u32),
    /// Fewer accounts than the instruction names.
    NotEnoughAccountKeys,
}

impl From<AccountsError> for ProgramError {
    fn from(e: AccountsError) -> (r: ProgramError) {
        match e {
            AccountsError::NotEnoughAccountKeys => ProgramError::NotEnoughAccountKeys,
        }
    }
}

impl vstd::std_specs::convert::FromSpecImpl<AccountsError> for ProgramError {
    open spec fn obeys_from_spec() -> bool {
        true
    }

    open spec fn from_spec(e: AccountsError) -> ProgramError {
        match e {
            AccountsError::NotEnoughAccountKeys => ProgramError::NotEnoughAccountKeys,
        }
    }
}

} // verus!

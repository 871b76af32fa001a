//! The stable cross-contract surface: interface version constants and the
//! error codes shared by every escrow variant.

use vstd::prelude::*;

verus! {

pub const INTERFACE_VERSION_MAJOR: u32 = 1;

pub const INTERFACE_VERSION_MINOR: u32 = 0;

pub const INTERFACE_VERSION_PATCH: u32 = 0;

/// Error conditions shared across escrow contracts. Codes 100 to 199 are
/// reserved for these; contract-specific errors use 200 and up.
#[derive(Clone, Copy, Debug, PartialEq, Eq, Structural)]
pub enum CommonError {
    /// Contract not initialized.
    NotInitialized,
    /// Already initialized.
    AlreadyInitialized,
    /// Unauthorized access.
    Unauthorized,
    /// Invalid amount.
    InvalidAmount,
    /// Insufficient balance.
    InsufficientBalance,
    /// Operation paused.
    Paused,
    /// Not found.
    NotFound,
}

impl CommonError {
    /// The stable wire code of each error.
    pub open spec fn spec_code(self) -> u32 {
        match self {
            CommonError::NotInitialized => 100,
            CommonError::AlreadyInitialized => 101,
            CommonError::Unauthorized => 102,
            CommonError::InvalidAmount => 103,
            CommonError::InsufficientBalance => 104,
            CommonError::Paused => 105,
            CommonError::NotFound => 106,
        }
    }

    pub fn code(&self) -> (r: u32)
        ensures
            r == self.spec_code(),
    {
        match self {
            CommonError::NotInitialized => 100,
            CommonError::AlreadyInitialized => 101,
            CommonError::Unauthorized => 102,
            CommonError::InvalidAmount => 103,
            CommonError::InsufficientBalance => 104,
            CommonError::Paused => 105,
            CommonError::NotFound => 106,
        }
    }
}

} // verus!

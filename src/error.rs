//! Error types

use vstd::prelude::*;

verus! {

/// Errors that may be returned by the upgrade program.
///
/// The set is flat so that a host can map it onto its own numeric error
/// codes, see [`UpgradeError::code`].
#[derive(Clone, Copy, Debug, PartialEq, Eq, Structural)]
pub enum UpgradeError {
    /// The tag of a buffer does not match the version an operation requires.
    InvalidVersion,
    /// A buffer is shorter than the encoded size of the version it must hold.
    TooSmall,
    /// Initialization was attempted on a buffer that is not uninitialized.
    AlreadyInitialized,
    /// The required signer or owner check failed.
    Unauthorized,
    /// A command payload does not decode to a known action.
    InvalidInstructionData,
}

impl UpgradeError {
    /// Numeric code of each error, in declaration order.
    pub open spec fn spec_code(self) -> u32 {
        match self {
            UpgradeError::InvalidVersion => 0,
            UpgradeError::TooSmall => 1,
            UpgradeError::AlreadyInitialized => 2,
            UpgradeError::Unauthorized => 3,
            UpgradeError::InvalidInstructionData => 4,
        }
    }

    /// The numeric code that a host reports for this error.
    pub fn code(&self) -> (r: u32)
        ensures
            r == self.spec_code(),
    {
        match self {
            UpgradeError::InvalidVersion => 0,
            UpgradeError::TooSmall => 1,
            UpgradeError::AlreadyInitialized => 2,
            UpgradeError::Unauthorized => 3,
            UpgradeError::InvalidInstructionData => 4,
        }
    }

    /// The error whose code is `code`, if there is one.
    pub fn from_code(code: u32) -> (r: Option<UpgradeError>)
        ensures
            r matches Some(e) ==> e.spec_code() == code,
            r is None <==> code > 4,
    {
        match code {
            0 => Some(UpgradeError::InvalidVersion),
            1 => Some(UpgradeError::TooSmall),
            2 => Some(UpgradeError::AlreadyInitialized),
            3 => Some(UpgradeError::Unauthorized),
            4 => Some(UpgradeError::InvalidInstructionData),
            _ => None,
        }
    }
}

} // verus!

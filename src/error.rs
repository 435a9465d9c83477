use vstd::prelude::*;

verus! {

/// Failures specific to this program, surfaced as custom error codes.
#[derive(Clone, Copy, Debug, PartialEq, Eq, Structural)]
pub enum TetherError {
    /// A required signature is missing.
    NotSigner,
    /// Reward arithmetic left the range of `u64`.
    WriteOverflow,
    /// The instruction payload is malformed.
    InvalidInstructionData,
    /// An account's data has the wrong shape.
    InvalidAccountData,
    /// A derived address does not match.
    PdaMismatch,
    /// An account has an unexpected owner.
    InvalidOwner,
    /// An account's address does not match the expected one.
    InvalidAddress,
    /// A claim came before the position's `active_time`.
    NotActive,
    /// Participation with an empty token account.
    InsufficientFunds,
}

impl TetherError {
    /// The custom error code: the variant's position in the declaration.
    pub open spec fn spec_code(self) -> u32 {
        match self {
            TetherError::NotSigner => 0,
            TetherError::WriteOverflow => 1,
            TetherError::InvalidInstructionData => 2,
            TetherError::InvalidAccountData => 3,
            TetherError::PdaMismatch => 4,
            TetherError::InvalidOwner => 5,
            TetherError::InvalidAddress => 6,
            TetherError::NotActive => 7,
            TetherError::InsufficientFunds => 8,
        }
    }

    pub fn code(&self) -> (r: u32)
        ensures
            r == self.spec_code(),
    {
        match self {
            TetherError::NotSigner => 0,
            TetherError::WriteOverflow => 1,
            TetherError::InvalidInstructionData => 2,
            TetherError::InvalidAccountData => 3,
            TetherError::PdaMismatch => 4,
            TetherError::InvalidOwner => 5,
            TetherError::InvalidAddress => 6,
            TetherError::NotActive => 7,
            TetherError::InsufficientFunds => 8,
        }
    }
}

/// Every way an instruction of this program can fail: the ledger's generic
/// program errors plus this program's own codes.
#[derive(Clone, Copy, Debug, PartialEq, Eq, Structural)]
pub enum ProgramFault {
    Custom(TetherError),
    InvalidInstructionData,
    InvalidAccountData,
    InvalidAccountOwner,
    InvalidArgument,
    NotEnoughAccountKeys,
    AccountAlreadyInitialized,
    /// An error surfaced verbatim by an outside capability, by its code.
    External(u64),
}

impl ProgramFault {
    pub fn from_tether(e: TetherError) -> (r: ProgramFault)
        ensures
            r == ProgramFault::Custom(e),
    {
        ProgramFault::Custom(e)
    }
}

} // verus!

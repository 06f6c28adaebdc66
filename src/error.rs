use vstd::prelude::*;

verus! {

/// Failures that the escrow program reports with a code of its own.
#[derive(Clone, Copy, Debug, PartialEq, Eq, Structural)]
pub enum PinocchioError {
    /// An account that must authorize the operation did not sign it.
    NotSigner,
    /// An address differs from the one that was expected.
    InvalidAddress,
}

/// The error kinds that the runtime understands; a program error with a code
/// of its own is `Custom`.
#[derive(Clone, Copy, Debug, PartialEq, Eq, Structural)]
pub enum ProgramError {
    Custom(u32),
    InvalidInstructionData,
    InvalidAccountData,
    NotEnoughAccountKeys,
    InvalidAccountOwner,
    InvalidSeeds,
}

impl PinocchioError {
    /// The code under which the runtime reports this error.
    pub open spec fn spec_code(self) -> u32 {
        match self {
            PinocchioError::NotSigner => 0,
            PinocchioError::InvalidAddress => 1,
        }
    }

    pub fn code(&self) -> (r: u32)
        ensures
            r == self.spec_code(),
    {
        match self {
            PinocchioError::NotSigner => 0,
            PinocchioError::InvalidAddress => 1,
        }
    }
}

impl From<PinocchioError> for ProgramError {
    fn from(e: PinocchioError) -> (r: ProgramError)
        ensures
            r == ProgramError::Custom(e.spec_code()),
    {
        ProgramError::Custom(e.code())
    }
}

impl vstd::std_specs::convert::FromSpecImpl<PinocchioError> for ProgramError {
    open spec fn obeys_from_spec() -> bool {
        true
    }

    open spec fn from_spec(e: PinocchioError) -> ProgramError {
        ProgramError::Custom(e.spec_code())
    }
}

} // verus!

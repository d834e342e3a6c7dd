//! Errors that the program's checks return.
use vstd::prelude::*;

verus! {

/// The ways in which an instruction of the faucet is refused.
///
/// Each variant corresponds to the program error of the same name that the
/// on-chain runtime reports.
#[derive(Debug, Clone, Copy, PartialEq, Eq, Structural)]
pub enum FaucetError {
    InvalidArgument,
    InvalidInstructionData,
    InvalidAccountData,
    IncorrectProgramId,
    MissingRequiredSignature,
    UninitializedAccount,
    InvalidSeeds,
    IllegalOwner,
    InvalidAccountOwner,
    IncorrectAuthority,
}

} // verus!

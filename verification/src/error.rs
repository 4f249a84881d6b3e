//! Reasons for which an instruction is refused.

use vstd::prelude::*;

verus! {

/// Why an instruction was refused. Every refusal ends the instruction at
/// once; nothing is retried and nothing is recovered locally.
#[derive(Clone, Copy, Debug, PartialEq, Eq, Structural)]
pub enum ProgramError {
    /// The instruction payload is no encoding of a known request.
    InvalidInstructionData,
    /// An account's payload is too short or malformed.
    InvalidAccountData,
    /// The token program handed in is not the token program.
    IncorrectProgramId,
    /// The owner did not sign.
    MissingRequiredSignature,
    /// The configuration record exists already.
    AccountAlreadyInitialized,
    /// The configuration record does not exist yet.
    UninitializedAccount,
    /// Fewer accounts were handed in than the request reads.
    NotEnoughAccountKeys,
    /// A supplied address is not the derived one.
    InvalidSeeds,
    /// The caller is not the recorded owner, or the vault is not the treasury's.
    IllegalOwner,
}

} // verus!

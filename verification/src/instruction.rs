//! The requests the program accepts, and their encoding.
//!
//! A request is one tag byte, followed by the arguments of the request it
//! names: `0` for [`TreasuryInstruction::Initialize`], which has none, and
//! `1` for [`TreasuryInstruction::Claim`], followed by the amount as eight
//! little-endian bytes. Nothing may follow the last argument.

use vstd::prelude::*;
use crate::error::ProgramError;
use crate::wire::{
    lemma_u64_le_canonical, lemma_u64_le_roundtrip, read_u64_le, u64_from_le, u64_to_le,
};

verus! {

/// A request to the program.
#[derive(Clone, Copy, Debug, PartialEq, Eq, Structural)]
pub enum TreasuryInstruction {
    /// Set the treasury up and record the payer as its owner.
    Initialize,
    /// Move `amount` tokens from the vault to the caller.
    Claim { amount: u64 },
}

impl TreasuryInstruction {
    /// The encoding of a request.
    pub open spec fn spec_pack(self) -> Seq<u8> {
        match self {
            TreasuryInstruction::Initialize => seq![0u8],
            TreasuryInstruction::Claim { amount } => seq![1u8] + u64_to_le(amount),
        }
    }

    /// The request that `data` encodes, if it encodes one.
    pub open spec fn spec_unpack(data: Seq<u8>) -> Option<TreasuryInstruction> {
        if data.len() == 1 && data[0] == 0 {
            Some(TreasuryInstruction::Initialize)
        } else if data.len() == 9 && data[0] == 1 {
            Some(TreasuryInstruction::Claim { amount: u64_from_le(data.subrange(1, 9)) as u64 })
        } else {
            None
        }
    }

    /// Decodes a request. Fails with `InvalidInstructionData` on every
    /// payload that is not the encoding of a request: an empty one, an
    /// unknown tag, a truncated amount, bytes left over.
    pub fn unpack(data: &[u8]) -> (res: Result<TreasuryInstruction, ProgramError>)
        ensures
            res == match Self::spec_unpack(data@) {
                Some(instruction) => Ok::<TreasuryInstruction, ProgramError>(instruction),
                None => Err(ProgramError::InvalidInstructionData),
            },
    {
        if data.len() == 1 && data[0] == 0 {
            Ok(TreasuryInstruction::Initialize)
        } else if data.len() == 9 && data[0] == 1 {
            Ok(TreasuryInstruction::Claim { amount: read_u64_le(data, 1) })
        } else {
            Err(ProgramError::InvalidInstructionData)
        }
    }
}

/// A payload decodes to a request exactly when it is that request's
/// encoding: every request has one encoding, and nothing else is accepted.
pub proof fn lemma_unpack_accepts_exactly_encodings(
    data: Seq<u8>,
    instruction: TreasuryInstruction,
)
    ensures
        TreasuryInstruction::spec_unpack(data) == Some(instruction) <==> data
            == instruction.spec_pack(),
{
    match instruction {
        TreasuryInstruction::Initialize => {
            if TreasuryInstruction::spec_unpack(data) == Some(instruction) {
                assert(data =~= seq![0u8]);
            }
        },
        TreasuryInstruction::Claim { amount } => {
            lemma_u64_le_roundtrip(amount);
            if data == instruction.spec_pack() {
                assert(data.subrange(1, 9) =~= u64_to_le(amount));
            }
            if TreasuryInstruction::spec_unpack(data) == Some(instruction) {
                lemma_u64_le_canonical(data.subrange(1, 9));
                assert(data =~= seq![1u8] + data.subrange(1, 9));
            }
        },
    }
}

} // verus!

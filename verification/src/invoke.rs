//! Instructions for other programs, and the authority to send them.
//!
//! A handler does not reach into the ledger. It returns the instruction
//! that the host is to carry out, the accounts to hand over with it, and
//! the seed and bump byte that prove the program's authority over the
//! derived address that signs.

use vstd::prelude::*;
use crate::pubkey::Pubkey;
use crate::wire::u64_to_le;

verus! {

/// The system program's identity: thirty-two zero bytes.
pub const SYSTEM_PROGRAM_ID: [u8; 32] = [
    0, 0, 0, 0, 0, 0, 0, 0, 0, 0, 0, 0, 0, 0, 0, 0, 0, 0, 0, 0, 0, 0, 0, 0, 0, 0, 0, 0, 0, 0, 0, 0,
];

/// The token program's identity.
pub const TOKEN_PROGRAM_ID: [u8; 32] = [
    6, 221, 246, 225, 215, 101, 161, 147, 217, 203, 225, 70, 206, 235, 121, 172, 28, 180, 133, 237,
    95, 91, 55, 145, 58, 140, 245, 133, 126, 255, 0, 169,
];

/// An account as an instruction names it.
#[derive(Clone, Copy, Debug, PartialEq, Eq)]
pub struct AccountMeta {
    pub pubkey: Pubkey,
    pub is_signer: bool,
    pub is_writable: bool,
}

/// An instruction for another program.
#[derive(Clone, Debug, PartialEq, Eq)]
pub struct Instruction {
    pub program_id: Pubkey,
    pub accounts: Vec<AccountMeta>,
    pub data: Vec<u8>,
}

/// An instruction as plain values.
pub struct InstructionView {
    pub program_id: Seq<u8>,
    pub accounts: Seq<AccountMeta>,
    pub data: Seq<u8>,
}

impl View for Instruction {
    type V = InstructionView;

    open spec fn view(&self) -> InstructionView {
        InstructionView {
            program_id: self.program_id@,
            accounts: self.accounts@,
            data: self.data@,
        }
    }
}

/// An instruction to carry out under the authority of a derived address.
/// `accounts` holds the positions, in the account list of the request
/// being handled, of the accounts to hand over; `seed` and `bump` are what
/// the signing address was derived from.
#[derive(Clone, Debug, PartialEq, Eq)]
pub struct Invocation {
    pub instruction: Instruction,
    pub accounts: Vec<usize>,
    pub seed: Vec<u8>,
    pub bump: u8,
}

/// An invocation as plain values.
pub struct InvocationView {
    pub instruction: InstructionView,
    pub accounts: Seq<usize>,
    pub seed: Seq<u8>,
    pub bump: u8,
}

impl View for Invocation {
    type V = InvocationView;

    open spec fn view(&self) -> InvocationView {
        InvocationView {
            instruction: self.instruction@,
            accounts: self.accounts@,
            seed: self.seed@,
            bump: self.bump,
        }
    }
}

/// The system program's instruction that creates the account `to`, funded
/// by `from` with `lamports`, with a payload of `space` zero bytes, owned by
/// `owner`. Both accounts sign and are written. The payload is the
/// request's number, zero, in four little-endian bytes, then the funding,
/// the size and the owner.
pub open spec fn spec_create_account(
    from: Pubkey,
    to: Pubkey,
    lamports: u64,
    space: u64,
    owner: Pubkey,
) -> InstructionView {
    InstructionView {
        program_id: SYSTEM_PROGRAM_ID@,
        accounts: seq![
            AccountMeta { pubkey: from, is_signer: true, is_writable: true },
            AccountMeta { pubkey: to, is_signer: true, is_writable: true },
        ],
        data: seq![0u8, 0u8, 0u8, 0u8] + u64_to_le(lamports) + u64_to_le(space) + owner@,
    }
}

/// The token program's instruction that moves `amount` tokens from
/// `source` to `destination` on the word of `authority`, which signs alone.
/// There is none for a program other than the token program. The payload
/// is the request's number, three, then the amount.
pub open spec fn spec_token_transfer(
    token_program: Pubkey,
    source: Pubkey,
    destination: Pubkey,
    authority: Pubkey,
    amount: u64,
) -> Option<InstructionView> {
    if token_program@ == TOKEN_PROGRAM_ID@ {
        Some(
            InstructionView {
                program_id: token_program@,
                accounts: seq![
                    AccountMeta { pubkey: source, is_signer: false, is_writable: true },
                    AccountMeta { pubkey: destination, is_signer: false, is_writable: true },
                    AccountMeta { pubkey: authority, is_signer: true, is_writable: false },
                ],
                data: seq![3u8] + u64_to_le(amount),
            },
        )
    } else {
        None
    }
}

/// An instruction as plain values, where there is one.
pub open spec fn instruction_option_view(built: Option<Instruction>) -> Option<InstructionView> {
    match built {
        Some(instruction) => Some(instruction@),
        None => None,
    }
}

/// Calls `solana_program::system_instruction::create_account`. Trusted: the
/// instruction it builds is the one that [`spec_create_account`] describes.
#[verifier::external_body]
pub(crate) fn create_account(
    from: &Pubkey,
    to: &Pubkey,
    lamports: u64,
    space: u64,
    owner: &Pubkey,
) -> (built: Instruction)
    ensures
        built@ == spec_create_account(*from, *to, lamports, space, *owner),
{
    let ix = solana_program::system_instruction::create_account(
        &from.bytes.into(),
        &to.bytes.into(),
        lamports,
        space,
        &owner.bytes.into(),
    );
    let accounts = ix.accounts.iter().map(
        |m| AccountMeta::new(m.pubkey.to_bytes(), m.is_signer, m.is_writable),
    ).collect();
    Instruction { program_id: Pubkey { bytes: ix.program_id.to_bytes() }, accounts, data: ix.data }
}

/// Calls `spl_token::instruction::transfer` with no further signers.
/// Trusted: it refuses every program but the token program, and otherwise
/// builds the instruction that [`spec_token_transfer`] describes.
#[verifier::external_body]
pub(crate) fn token_transfer(
    token_program: &Pubkey,
    source: &Pubkey,
    destination: &Pubkey,
    authority: &Pubkey,
    amount: u64,
) -> (built: Option<Instruction>)
    ensures
        instruction_option_view(built) == spec_token_transfer(
            *token_program,
            *source,
            *destination,
            *authority,
            amount,
        ),
{
    let ix = spl_token::instruction::transfer(
        &token_program.bytes.into(),
        &source.bytes.into(),
        &destination.bytes.into(),
        &authority.bytes.into(),
        &[],
        amount,
    ).ok()?;
    let accounts = ix.accounts.iter().map(
        |m| AccountMeta::new(m.pubkey.to_bytes(), m.is_signer, m.is_writable),
    ).collect();
    Some(Instruction { program_id: Pubkey { bytes: ix.program_id.to_bytes() }, accounts, data: ix.data })
}

impl AccountMeta {
    /// Names the account at `bytes`.
    pub fn new(bytes: [u8; 32], is_signer: bool, is_writable: bool) -> (meta: AccountMeta)
        ensures
            meta == (AccountMeta { pubkey: Pubkey { bytes }, is_signer, is_writable }),
    {
        AccountMeta { pubkey: Pubkey { bytes }, is_signer, is_writable }
    }
}

} // verus!

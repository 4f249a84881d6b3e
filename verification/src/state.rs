//! The two records the program stores, and their byte layouts.

use vstd::prelude::*;
use crate::error::ProgramError;
use crate::pubkey::Pubkey;
use crate::wire::{push_u64_le, read_u64_le, u64_from_le, u64_to_le, lemma_u64_le_roundtrip};

verus! {

/// Bytes that every account of the program holds beyond its record.
pub const ACCOUNT_HEADROOM: u64 = 8;

/// The configuration record: who owns the treasury. It is written once,
/// when the treasury is set up, and only read afterwards.
#[derive(Clone, Copy, Debug, PartialEq, Eq)]
pub struct TreasuryConfig {
    pub owner: Pubkey,
}

/// The treasury record. Its balance is zero when the account is created
/// and no handler reads or changes it: the vault's own balance is what
/// counts.
#[derive(Clone, Copy, Debug, PartialEq, Eq, Structural)]
pub struct TreasuryState {
    pub balance: u64,
}

impl TreasuryConfig {
    /// Size of the record in bytes.
    pub const LEN: usize = 32;

    /// Size of the account that holds the record.
    pub const SPACE: u64 = ACCOUNT_HEADROOM + 32;

    /// The record's bytes: the owner's thirty-two bytes.
    pub open spec fn spec_pack(self) -> Seq<u8> {
        self.owner@
    }

    /// The owner that a payload records: its first thirty-two bytes.
    pub open spec fn spec_owner(data: Seq<u8>) -> Seq<u8>
        recommends
            data.len() >= Self::LEN,
    {
        data.subrange(0, 32)
    }

    /// The bytes to store for this record.
    pub fn pack(&self) -> (out: Vec<u8>)
        ensures
            out@ == self.spec_pack(),
            out@.len() == Self::LEN,
    {
        self.owner.to_vec()
    }

    /// Reads the record that `data` begins with. Fails with
    /// `InvalidAccountData` exactly when `data` is shorter than a record;
    /// bytes after the record are left alone.
    pub fn unpack(data: &[u8]) -> (res: Result<TreasuryConfig, ProgramError>)
        ensures
            data@.len() < Self::LEN ==> res == Err::<TreasuryConfig, ProgramError>(
                ProgramError::InvalidAccountData,
            ),
            data@.len() >= Self::LEN ==> res is Ok && res->Ok_0.owner@ == Self::spec_owner(data@),
    {
        if data.len() < 32 {
            return Err(ProgramError::InvalidAccountData);
        }
        Ok(TreasuryConfig { owner: Pubkey::from_slice(data, 0) })
    }
}

impl TreasuryState {
    /// Size of the record in bytes.
    pub const LEN: usize = 8;

    /// Size of the account that holds the record.
    pub const SPACE: u64 = ACCOUNT_HEADROOM + 8;

    /// The record's bytes: the balance, little-endian.
    pub open spec fn spec_pack(self) -> Seq<u8> {
        u64_to_le(self.balance)
    }

    /// Whether `data` begins with a record, and which.
    pub open spec fn spec_unpack(data: Seq<u8>) -> Result<TreasuryState, ProgramError> {
        if data.len() < 8 {
            Err(ProgramError::InvalidAccountData)
        } else {
            Ok(TreasuryState { balance: u64_from_le(data.subrange(0, 8)) as u64 })
        }
    }

    /// The bytes to store for this record.
    pub fn pack(&self) -> (out: Vec<u8>)
        ensures
            out@ == self.spec_pack(),
            out@.len() == Self::LEN,
    {
        let mut out: Vec<u8> = Vec::new();
        push_u64_le(&mut out, self.balance);
        out
    }

    /// Reads the record that `data` begins with. Fails with
    /// `InvalidAccountData` exactly when `data` is shorter than a record.
    pub fn unpack(data: &[u8]) -> (res: Result<TreasuryState, ProgramError>)
        ensures
            res == Self::spec_unpack(data@),
    {
        if data.len() < 8 {
            return Err(ProgramError::InvalidAccountData);
        }
        Ok(TreasuryState { balance: read_u64_le(data, 0) })
    }
}

/// A configuration record read back from its own bytes, with anything
/// behind them, names the same owner.
pub proof fn lemma_config_roundtrip(config: TreasuryConfig, tail: Seq<u8>)
    ensures
        (config.spec_pack() + tail).len() >= TreasuryConfig::LEN,
        TreasuryConfig::spec_owner(config.spec_pack() + tail) == config.owner@,
{
    assert((config.spec_pack() + tail).subrange(0, 32) =~= config.owner@);
}

/// A treasury record read back from its own bytes, with anything behind
/// them, is the same record.
pub proof fn lemma_state_roundtrip(state: TreasuryState, tail: Seq<u8>)
    ensures
        TreasuryState::spec_unpack(state.spec_pack() + tail) == Ok::<TreasuryState, ProgramError>(
            state,
        ),
{
    lemma_u64_le_roundtrip(state.balance);
    assert((state.spec_pack() + tail).subrange(0, 8) =~= u64_to_le(state.balance));
}

/// A freshly created treasury account, whose payload is all zero, holds a
/// balance of zero.
pub proof fn lemma_fresh_treasury_is_empty(data: Seq<u8>)
    requires
        data.len() >= 8,
        forall|i: int| 0 <= i < data.len() ==> data[i] == 0,
    ensures
        TreasuryState::spec_unpack(data) == Ok::<TreasuryState, ProgramError>(
            TreasuryState { balance: 0 },
        ),
{
}

} // verus!

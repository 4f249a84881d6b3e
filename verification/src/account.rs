//! What a handler reads of an account.

use vstd::prelude::*;
use crate::pubkey::Pubkey;

verus! {

/// An account as the host hands it to an instruction: its address, whether
/// its holder signed, its balance in the ledger's native unit and its
/// payload. An account with a balance of zero does not exist on the ledger.
#[derive(Clone, Debug, PartialEq, Eq)]
pub struct AccountInfo {
    pub key: Pubkey,
    pub is_signer: bool,
    pub lamports: u64,
    pub data: Vec<u8>,
}

} // verus!

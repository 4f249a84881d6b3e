//! What the program reads of a token account.

use vstd::prelude::*;
use crate::pubkey::Pubkey;

verus! {

/// Size of a token account's payload.
pub const TOKEN_ACCOUNT_LEN: usize = 165;

/// Whether the four bytes of `data` at `at` are the tag of an optional
/// field: zero for absent, one for present, little-endian.
pub open spec fn is_option_tag(data: Seq<u8>, at: int) -> bool {
    &&& data[at] == 0 || data[at] == 1
    &&& data[at + 1] == 0
    &&& data[at + 2] == 0
    &&& data[at + 3] == 0
}

/// Whether `data` is the payload of a token account in use: it has the
/// size of one, its state byte says initialized or frozen, and the tags
/// of its three optional fields (delegate, native reserve, close
/// authority) are well formed.
pub open spec fn is_token_account(data: Seq<u8>) -> bool {
    &&& data.len() == TOKEN_ACCOUNT_LEN
    &&& is_option_tag(data, 72)
    &&& data[108] == 1 || data[108] == 2
    &&& is_option_tag(data, 109)
    &&& is_option_tag(data, 129)
}

/// The controller that a token account's payload records: the
/// thirty-two bytes behind the mint. `None` where `data` is no token
/// account in use.
pub open spec fn spec_token_account_owner(data: Seq<u8>) -> Option<Seq<u8>> {
    if is_token_account(data) {
        Some(data.subrange(32, 64))
    } else {
        None
    }
}

/// A controller, if any, as plain values.
pub open spec fn owner_view(owner: Option<Pubkey>) -> Option<Seq<u8>> {
    match owner {
        Some(key) => Some(key@),
        None => None,
    }
}

/// Calls `spl_token::state::Account::unpack` (the `Pack` method) and
/// takes the `owner` field of what it returns. Trusted: unpacking
/// succeeds exactly on the payloads that [`is_token_account`] admits, and
/// the owner is read from bytes 32 to 63.
#[verifier::external_body]
pub(crate) fn unpack_token_account_owner(data: &[u8]) -> (owner: Option<Pubkey>)
    ensures
        owner_view(owner) == spec_token_account_owner(data@),
{
    <spl_token::state::Account as solana_program::program_pack::Pack>::unpack(data).ok().map(
        |account| Pubkey { bytes: account.owner.to_bytes() },
    )
}

} // verus!

//! What holds of the handlers on every input.

use vstd::prelude::*;
use crate::account::AccountInfo;
use crate::address::{
    bump_of, derives, spec_config_address, spec_find_program_address, spec_treasury_address,
    TREASURY_SEED,
};
use crate::error::ProgramError;
use crate::invoke::{spec_token_transfer, InvocationView, TOKEN_PROGRAM_ID};
use crate::processor::{spec_process_claim, spec_process_initialize, InitializePlan};
use crate::pubkey::Pubkey;
use crate::state::{TreasuryConfig, TreasuryState};
use crate::token::{is_token_account, spec_token_account_owner};

verus! {

/// A payload of `len` zero bytes, as a new account has it.
pub open spec fn zeroed(len: nat) -> Seq<u8> {
    Seq::new(len, |i: int| 0u8)
}

/// The accounts of a set-up request as they stand once the host has
/// carried out the effects of `plan` with the given funding. Every account
/// is where it was. The treasury account holds its funding and a zeroed
/// payload of [`TreasuryState::SPACE`] bytes. The configuration account
/// holds its funding and a payload of [`TreasuryConfig::SPACE`] bytes that
/// begins with the record of the payer.
pub open spec fn set_up(
    before: Seq<AccountInfo>,
    plan: InitializePlan,
    treasury_lamports: u64,
    config_lamports: u64,
    after: Seq<AccountInfo>,
) -> bool {
    let effects = plan.spec_fund(treasury_lamports, config_lamports);
    &&& before.len() >= 4
    &&& after.len() == before.len()
    &&& forall|i: int| 0 <= i < before.len() ==> (#[trigger] after[i]).key == before[i].key
    &&& after[1].lamports == treasury_lamports
    &&& after[1].data@ == zeroed(TreasuryState::SPACE as nat)
    &&& after[effects.config_account as int].lamports == config_lamports
    &&& after[effects.config_account as int].data@ == effects.config_data + zeroed(
        (TreasuryConfig::SPACE - TreasuryConfig::LEN) as nat,
    )
}

/// The gates that a claim passes before the owner is looked at: the
/// accounts are there, the treasury account is at the derived address, and
/// the configuration account exists with a payload that holds a record.
pub open spec fn claim_reaches_owner_gate(program_id: Pubkey, accounts: Seq<AccountInfo>) -> bool {
    &&& accounts.len() >= 7
    &&& derives(spec_treasury_address(program_id), accounts[4].key)
    &&& accounts[6].lamports > 0
    &&& accounts[6].data@.len() >= TreasuryConfig::LEN
}

/// The owner that the configuration account of a claim records.
pub open spec fn recorded_owner(accounts: Seq<AccountInfo>) -> Seq<u8> {
    TreasuryConfig::spec_owner(accounts[6].data@)
}

/// Derivation goes by the bytes of the seed and of the program identity
/// and by nothing else: the same bytes give the same address and the same
/// bump byte, whoever derives and whenever.
pub proof fn lemma_derivation_is_deterministic(
    seed_a: Seq<u8>,
    program_a: Pubkey,
    seed_b: Seq<u8>,
    program_b: Pubkey,
)
    requires
        seed_a == seed_b,
        program_a@ == program_b@,
    ensures
        spec_find_program_address(seed_a, program_a@) == spec_find_program_address(
            seed_b,
            program_b@,
        ),
        spec_treasury_address(program_a) == spec_treasury_address(program_b),
        spec_config_address(program_a) == spec_config_address(program_b),
{
}

/// A set-up succeeds once. After a set-up whose configuration account was
/// funded with more than nothing, the same request is refused with
/// `AccountAlreadyInitialized`.
pub proof fn lemma_initialize_only_once(
    program_id: Pubkey,
    before: Seq<AccountInfo>,
    treasury_lamports: u64,
    config_lamports: u64,
    after: Seq<AccountInfo>,
)
    requires
        spec_process_initialize(program_id, before) is Ok,
        config_lamports > 0,
        set_up(
            before,
            spec_process_initialize(program_id, before)->Ok_0,
            treasury_lamports,
            config_lamports,
            after,
        ),
    ensures
        spec_process_initialize(program_id, after) == Err::<InitializePlan, ProgramError>(
            ProgramError::AccountAlreadyInitialized,
        ),
{
}

/// An account that exists with a payload that can hold a record is never
/// set up again, whoever asks and whatever the payload holds.
pub proof fn lemma_initialize_refuses_existing_config(
    program_id: Pubkey,
    accounts: Seq<AccountInfo>,
)
    requires
        accounts.len() >= 4,
        accounts[3].lamports > 0,
        accounts[3].data@.len() >= TreasuryConfig::LEN,
    ensures
        spec_process_initialize(program_id, accounts) is Err,
{
}

/// A set-up is refused with `InvalidSeeds` when the treasury account or the
/// configuration account is not at its derived address.
pub proof fn lemma_initialize_rejects_spoofed_address(
    program_id: Pubkey,
    accounts: Seq<AccountInfo>,
)
    requires
        accounts.len() >= 4,
        !derives(spec_treasury_address(program_id), accounts[1].key) || !derives(
            spec_config_address(program_id),
            accounts[3].key,
        ),
    ensures
        spec_process_initialize(program_id, accounts) == Err::<InitializePlan, ProgramError>(
            ProgramError::InvalidSeeds,
        ),
{
}

/// A claim is refused with `InvalidSeeds` when the treasury account is not
/// at its derived address.
pub proof fn lemma_claim_rejects_spoofed_treasury(
    program_id: Pubkey,
    accounts: Seq<AccountInfo>,
    amount: u64,
)
    requires
        accounts.len() >= 7,
        !derives(spec_treasury_address(program_id), accounts[4].key),
    ensures
        spec_process_claim(program_id, accounts, amount) == Err::<InvocationView, ProgramError>(
            ProgramError::InvalidSeeds,
        ),
{
}

/// A claim in the name of anyone but the recorded owner is refused with
/// `IllegalOwner`, signed or not.
pub proof fn lemma_claim_rejects_other_owner(
    program_id: Pubkey,
    accounts: Seq<AccountInfo>,
    amount: u64,
)
    requires
        claim_reaches_owner_gate(program_id, accounts),
        recorded_owner(accounts) != accounts[5].key@,
    ensures
        spec_process_claim(program_id, accounts, amount) == Err::<InvocationView, ProgramError>(
            ProgramError::IllegalOwner,
        ),
{
}

/// A claim in the name of the recorded owner is refused with
/// `MissingRequiredSignature` when the owner did not sign.
pub proof fn lemma_claim_requires_signature(
    program_id: Pubkey,
    accounts: Seq<AccountInfo>,
    amount: u64,
)
    requires
        claim_reaches_owner_gate(program_id, accounts),
        recorded_owner(accounts) == accounts[5].key@,
        !accounts[5].is_signer,
    ensures
        spec_process_claim(program_id, accounts, amount) == Err::<InvocationView, ProgramError>(
            ProgramError::MissingRequiredSignature,
        ),
{
}

/// A signed claim of the recorded owner is refused with `IllegalOwner`
/// when the vault is a token account that something other than the
/// treasury address controls.
pub proof fn lemma_claim_rejects_foreign_vault(
    program_id: Pubkey,
    accounts: Seq<AccountInfo>,
    amount: u64,
)
    requires
        claim_reaches_owner_gate(program_id, accounts),
        recorded_owner(accounts) == accounts[5].key@,
        accounts[5].is_signer,
        is_token_account(accounts[2].data@),
        spec_token_account_owner(accounts[2].data@) != Some(accounts[4].key@),
    ensures
        spec_process_claim(program_id, accounts, amount) == Err::<InvocationView, ProgramError>(
            ProgramError::IllegalOwner,
        ),
{
}

/// A claim succeeds exactly when every gate is passed, and then asks for
/// the transfer of the whole amount from the vault to the claimer's token
/// account under the treasury's authority.
pub proof fn lemma_claim_succeeds_exactly_past_the_gates(
    program_id: Pubkey,
    accounts: Seq<AccountInfo>,
    amount: u64,
)
    ensures
        spec_process_claim(program_id, accounts, amount) is Ok <==> {
            &&& claim_reaches_owner_gate(program_id, accounts)
            &&& recorded_owner(accounts) == accounts[5].key@
            &&& accounts[5].is_signer
            &&& spec_token_account_owner(accounts[2].data@) == Some(accounts[4].key@)
            &&& accounts[3].key@ == TOKEN_PROGRAM_ID@
        },
        spec_process_claim(program_id, accounts, amount) matches Ok(invocation) ==> {
            &&& Some(invocation.instruction) == spec_token_transfer(
                accounts[3].key,
                accounts[2].key,
                accounts[1].key,
                accounts[4].key,
                amount,
            )
            &&& invocation.seed == TREASURY_SEED@
            &&& invocation.bump == bump_of(spec_treasury_address(program_id))
        },
{
}

/// After a set-up, the payer and nobody else can claim. With the
/// configuration account as the set-up left it, a claim in another name is
/// refused with `IllegalOwner`; the payer's, signed, with the treasury's
/// own vault and the token program, is accepted.
pub proof fn lemma_only_the_payer_claims(
    program_id: Pubkey,
    before: Seq<AccountInfo>,
    treasury_lamports: u64,
    config_lamports: u64,
    after: Seq<AccountInfo>,
    accounts: Seq<AccountInfo>,
    amount: u64,
)
    requires
        spec_process_initialize(program_id, before) is Ok,
        config_lamports > 0,
        set_up(
            before,
            spec_process_initialize(program_id, before)->Ok_0,
            treasury_lamports,
            config_lamports,
            after,
        ),
        accounts.len() >= 7,
        accounts[4].key == after[1].key,
        accounts[6] == after[3],
    ensures
        accounts[5].key != before[0].key ==> spec_process_claim(program_id, accounts, amount)
            == Err::<InvocationView, ProgramError>(ProgramError::IllegalOwner),
        accounts[5].key == before[0].key && accounts[5].is_signer && spec_token_account_owner(
            accounts[2].data@,
        ) == Some(accounts[4].key@) && accounts[3].key@ == TOKEN_PROGRAM_ID@
            ==> spec_process_claim(program_id, accounts, amount) is Ok,
{
    let plan = spec_process_initialize(program_id, before)->Ok_0;
    let record = (TreasuryConfig { owner: plan.payer }).spec_pack();
    assert(accounts[6].data@.subrange(0, 32) =~= record);
    crate::pubkey::lemma_pubkey_eq_view(accounts[5].key, before[0].key);
}

} // verus!

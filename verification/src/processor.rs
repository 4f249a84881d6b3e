//! The handlers: what the program decides for each request.
//!
//! A handler reads the accounts it was handed, checks them gate by gate,
//! and returns what the host is to do. It changes nothing itself, so a
//! refusal leaves nothing behind.

use vstd::prelude::*;
use vstd::slice::slice_to_vec;
use crate::account::AccountInfo;
use crate::address::{
    bump_of, config_address, derives, spec_config_address, spec_treasury_address,
    treasury_address, CONFIG_SEED, TREASURY_SEED,
};
use crate::error::ProgramError;
use crate::instruction::TreasuryInstruction;
use crate::invoke::{
    create_account, spec_create_account, spec_token_transfer, token_transfer, Invocation,
    InvocationView,
};
use crate::pubkey::{lemma_pubkey_eq_view, Pubkey};
use crate::state::{TreasuryConfig, TreasuryState};
use crate::token::{spec_token_account_owner, unpack_token_account_owner};

verus! {

/// A set-up that passed every gate and waits for its funding: the accounts
/// to create, the bump bytes that were found for their addresses, and the
/// payer who becomes the owner.
#[derive(Clone, Copy, Debug, PartialEq, Eq)]
pub struct InitializePlan {
    pub program_id: Pubkey,
    pub payer: Pubkey,
    pub treasury: Pubkey,
    pub treasury_bump: u8,
    pub config: Pubkey,
    pub config_bump: u8,
}

/// What the host carries out to set the treasury up, in this order: create
/// the treasury account, create the configuration account, then store
/// `config_data` at the start of the payload of the account at position
/// `config_account`.
#[derive(Clone, Debug, PartialEq, Eq)]
pub struct InitializeEffects {
    pub create_treasury: Invocation,
    pub create_config: Invocation,
    pub config_account: usize,
    pub config_data: Vec<u8>,
}

/// The effects of a set-up as plain values.
pub struct InitializeEffectsView {
    pub create_treasury: InvocationView,
    pub create_config: InvocationView,
    pub config_account: usize,
    pub config_data: Seq<u8>,
}

impl View for InitializeEffects {
    type V = InitializeEffectsView;

    open spec fn view(&self) -> InitializeEffectsView {
        InitializeEffectsView {
            create_treasury: self.create_treasury@,
            create_config: self.create_config@,
            config_account: self.config_account,
            config_data: self.config_data@,
        }
    }
}

/// What the host is to do for a request that was accepted.
#[derive(Clone, Debug, PartialEq, Eq)]
pub enum Action {
    /// Quote the funding of the two accounts, then carry out
    /// [`InitializePlan::fund`].
    Initialize(InitializePlan),
    /// Carry out the transfer.
    Claim(Invocation),
}

/// An action as plain values.
pub enum ActionView {
    Initialize(InitializePlan),
    Claim(InvocationView),
}

impl View for Action {
    type V = ActionView;

    open spec fn view(&self) -> ActionView {
        match *self {
            Action::Initialize(plan) => ActionView::Initialize(plan),
            Action::Claim(invocation) => ActionView::Claim(invocation@),
        }
    }
}

/// The outcome of a claim as plain values.
pub open spec fn claim_view(res: Result<Invocation, ProgramError>) -> Result<
    InvocationView,
    ProgramError,
> {
    match res {
        Ok(invocation) => Ok(invocation@),
        Err(e) => Err(e),
    }
}

/// The outcome of a request as plain values.
pub open spec fn action_view(res: Result<Action, ProgramError>) -> Result<
    ActionView,
    ProgramError,
> {
    match res {
        Ok(action) => Ok(action@),
        Err(e) => Err(e),
    }
}

/// What a set-up request comes to. The accounts are, in this order: the
/// payer, the treasury account, the system program, the configuration
/// account. The gates, first failure first:
///
/// 1. four accounts are there, else `NotEnoughAccountKeys`;
/// 2. the treasury account is at the derived treasury address, else
///    `InvalidSeeds`;
/// 3. the configuration account is at the derived configuration address,
///    else `InvalidSeeds`;
/// 4. the configuration account does not exist with a payload that can
///    hold a record, else `AccountAlreadyInitialized`.
pub open spec fn spec_process_initialize(program_id: Pubkey, accounts: Seq<AccountInfo>) -> Result<
    InitializePlan,
    ProgramError,
> {
    if accounts.len() < 4 {
        Err(ProgramError::NotEnoughAccountKeys)
    } else if !derives(spec_treasury_address(program_id), accounts[1].key) {
        Err(ProgramError::InvalidSeeds)
    } else if !derives(spec_config_address(program_id), accounts[3].key) {
        Err(ProgramError::InvalidSeeds)
    } else if accounts[3].lamports > 0 && accounts[3].data@.len() >= TreasuryConfig::LEN {
        Err(ProgramError::AccountAlreadyInitialized)
    } else {
        Ok(
            InitializePlan {
                program_id,
                payer: accounts[0].key,
                treasury: accounts[1].key,
                treasury_bump: bump_of(spec_treasury_address(program_id)),
                config: accounts[3].key,
                config_bump: bump_of(spec_config_address(program_id)),
            },
        )
    }
}

/// What a claim comes to. The accounts are, in this order: the claimer, the
/// claimer's token account, the vault, the token program, the treasury
/// account, the owner, the configuration account. The gates, first failure
/// first:
///
/// 1. seven accounts are there, else `NotEnoughAccountKeys`;
/// 2. the treasury account is at the derived treasury address, else
///    `InvalidSeeds`;
/// 3. the configuration account exists, else `UninitializedAccount`;
/// 4. its payload can hold a record, else `InvalidAccountData`;
/// 5. the owner it records is the owner account, else `IllegalOwner`;
/// 6. the owner signed, else `MissingRequiredSignature`;
/// 7. the vault is a token account in use, else `InvalidAccountData`, and
///    its controller is the treasury account, else `IllegalOwner`;
/// 8. the token program is the token program, else `IncorrectProgramId`.
///
/// Past the gates stands the transfer of `amount` from the vault to the
/// claimer's token account, signed by the treasury address. The amount is
/// not capped here: the vault's balance decides.
pub open spec fn spec_process_claim(
    program_id: Pubkey,
    accounts: Seq<AccountInfo>,
    amount: u64,
) -> Result<InvocationView, ProgramError> {
    if accounts.len() < 7 {
        Err(ProgramError::NotEnoughAccountKeys)
    } else if !derives(spec_treasury_address(program_id), accounts[4].key) {
        Err(ProgramError::InvalidSeeds)
    } else if accounts[6].lamports == 0 {
        Err(ProgramError::UninitializedAccount)
    } else if accounts[6].data@.len() < TreasuryConfig::LEN {
        Err(ProgramError::InvalidAccountData)
    } else if TreasuryConfig::spec_owner(accounts[6].data@) != accounts[5].key@ {
        Err(ProgramError::IllegalOwner)
    } else if !accounts[5].is_signer {
        Err(ProgramError::MissingRequiredSignature)
    } else if spec_token_account_owner(accounts[2].data@) is None {
        Err(ProgramError::InvalidAccountData)
    } else if spec_token_account_owner(accounts[2].data@) != Some(accounts[4].key@) {
        Err(ProgramError::IllegalOwner)
    } else {
        match spec_token_transfer(
            accounts[3].key,
            accounts[2].key,
            accounts[1].key,
            accounts[4].key,
            amount,
        ) {
            None => Err(ProgramError::IncorrectProgramId),
            Some(instruction) => Ok(
                InvocationView {
                    instruction,
                    accounts: seq![2usize, 1usize, 4usize, 3usize],
                    seed: TREASURY_SEED@,
                    bump: bump_of(spec_treasury_address(program_id)),
                },
            ),
        }
    }
}

/// What a request comes to: `InvalidInstructionData` where the payload
/// encodes no request, and otherwise what its handler says.
pub open spec fn spec_process_instruction(
    program_id: Pubkey,
    accounts: Seq<AccountInfo>,
    instruction_data: Seq<u8>,
) -> Result<ActionView, ProgramError> {
    match TreasuryInstruction::spec_unpack(instruction_data) {
        None => Err(ProgramError::InvalidInstructionData),
        Some(TreasuryInstruction::Initialize) => match spec_process_initialize(
            program_id,
            accounts,
        ) {
            Ok(plan) => Ok(ActionView::Initialize(plan)),
            Err(e) => Err(e),
        },
        Some(TreasuryInstruction::Claim { amount }) => match spec_process_claim(
            program_id,
            accounts,
            amount,
        ) {
            Ok(invocation) => Ok(ActionView::Claim(invocation)),
            Err(e) => Err(e),
        },
    }
}

impl InitializePlan {
    /// The effects of the set-up once the funding is known.
    pub open spec fn spec_fund(self, treasury_lamports: u64, config_lamports: u64) -> InitializeEffectsView {
        InitializeEffectsView {
            create_treasury: InvocationView {
                instruction: spec_create_account(
                    self.payer,
                    self.treasury,
                    treasury_lamports,
                    TreasuryState::SPACE,
                    self.program_id,
                ),
                accounts: seq![0usize, 1usize, 2usize],
                seed: TREASURY_SEED@,
                bump: self.treasury_bump,
            },
            create_config: InvocationView {
                instruction: spec_create_account(
                    self.payer,
                    self.config,
                    config_lamports,
                    TreasuryConfig::SPACE,
                    self.program_id,
                ),
                accounts: seq![0usize, 3usize, 2usize],
                seed: CONFIG_SEED@,
                bump: self.config_bump,
            },
            config_account: 3,
            config_data: (TreasuryConfig { owner: self.payer }).spec_pack(),
        }
    }

    /// Completes the set-up with the funding that the host quotes: the
    /// least balance that lets an account of [`TreasuryState::SPACE`]
    /// bytes, and one of [`TreasuryConfig::SPACE`] bytes, persist. Both
    /// accounts are paid for by the payer, owned by the program and signed
    /// for by their own derived address; the record names the payer as
    /// owner.
    pub fn fund(&self, treasury_lamports: u64, config_lamports: u64) -> (effects: InitializeEffects)
        ensures
            effects@ == self.spec_fund(treasury_lamports, config_lamports),
    {
        let create_treasury = Invocation {
            instruction: create_account(
                &self.payer,
                &self.treasury,
                treasury_lamports,
                TreasuryState::SPACE,
                &self.program_id,
            ),
            accounts: vec![0usize, 1usize, 2usize],
            seed: slice_to_vec(&TREASURY_SEED),
            bump: self.treasury_bump,
        };
        let create_config = Invocation {
            instruction: create_account(
                &self.payer,
                &self.config,
                config_lamports,
                TreasuryConfig::SPACE,
                &self.program_id,
            ),
            accounts: vec![0usize, 3usize, 2usize],
            seed: slice_to_vec(&CONFIG_SEED),
            bump: self.config_bump,
        };
        let config_data = (TreasuryConfig { owner: self.payer }).pack();
        proof {
            assert(create_treasury.accounts@ =~= seq![0usize, 1usize, 2usize]);
            assert(create_config.accounts@ =~= seq![0usize, 3usize, 2usize]);
        }
        InitializeEffects { create_treasury, create_config, config_account: 3, config_data }
    }
}

/// Handles a set-up request: checks the accounts and, where every gate is
/// passed, returns the plan that names the payer as owner.
pub fn process_initialize(program_id: &Pubkey, accounts: &[AccountInfo]) -> (res: Result<
    InitializePlan,
    ProgramError,
>)
    ensures
        res == spec_process_initialize(*program_id, accounts@),
{
    if accounts.len() < 4 {
        return Err(ProgramError::NotEnoughAccountKeys);
    }
    let payer = &accounts[0];
    let treasury_pda = &accounts[1];
    let config_account = &accounts[3];

    let treasury = match treasury_address(program_id) {
        Some(derived) => derived,
        None => {
            return Err(ProgramError::InvalidSeeds);
        },
    };
    proof {
        lemma_pubkey_eq_view(treasury.address, treasury_pda.key);
    }
    if !(treasury.address == treasury_pda.key) {
        return Err(ProgramError::InvalidSeeds);
    }
    let config = match config_address(program_id) {
        Some(derived) => derived,
        None => {
            return Err(ProgramError::InvalidSeeds);
        },
    };
    proof {
        lemma_pubkey_eq_view(config.address, config_account.key);
    }
    if !(config.address == config_account.key) {
        return Err(ProgramError::InvalidSeeds);
    }
    if config_account.lamports > 0 && config_account.data.len() >= TreasuryConfig::LEN {
        return Err(ProgramError::AccountAlreadyInitialized);
    }
    Ok(
        InitializePlan {
            program_id: *program_id,
            payer: payer.key,
            treasury: treasury_pda.key,
            treasury_bump: treasury.bump,
            config: config_account.key,
            config_bump: config.bump,
        },
    )
}

/// Handles a claim: lets the recorded owner, and nobody else, move
/// `amount` tokens out of the vault that the treasury address controls.
pub fn process_claim(program_id: &Pubkey, accounts: &[AccountInfo], amount: u64) -> (res: Result<
    Invocation,
    ProgramError,
>)
    ensures
        claim_view(res) == spec_process_claim(*program_id, accounts@, amount),
{
    if accounts.len() < 7 {
        return Err(ProgramError::NotEnoughAccountKeys);
    }
    let user_token_account = &accounts[1];
    let treasury_token_account = &accounts[2];
    let token_program = &accounts[3];
    let treasury_pda = &accounts[4];
    let owner = &accounts[5];
    let config_account = &accounts[6];

    let treasury = match treasury_address(program_id) {
        Some(derived) => derived,
        None => {
            return Err(ProgramError::InvalidSeeds);
        },
    };
    proof {
        lemma_pubkey_eq_view(treasury.address, treasury_pda.key);
    }
    if !(treasury.address == treasury_pda.key) {
        return Err(ProgramError::InvalidSeeds);
    }
    if config_account.lamports == 0 {
        return Err(ProgramError::UninitializedAccount);
    }
    let config = match TreasuryConfig::unpack(config_account.data.as_slice()) {
        Ok(config) => config,
        Err(e) => {
            return Err(e);
        },
    };
    proof {
        lemma_pubkey_eq_view(config.owner, owner.key);
    }
    if !(config.owner == owner.key) {
        return Err(ProgramError::IllegalOwner);
    }
    if !owner.is_signer {
        return Err(ProgramError::MissingRequiredSignature);
    }
    let controller = match unpack_token_account_owner(treasury_token_account.data.as_slice()) {
        Some(controller) => controller,
        None => {
            return Err(ProgramError::InvalidAccountData);
        },
    };
    proof {
        lemma_pubkey_eq_view(controller, treasury_pda.key);
    }
    if !(controller == treasury_pda.key) {
        return Err(ProgramError::IllegalOwner);
    }
    let instruction = match token_transfer(
        &token_program.key,
        &treasury_token_account.key,
        &user_token_account.key,
        &treasury_pda.key,
        amount,
    ) {
        Some(instruction) => instruction,
        None => {
            return Err(ProgramError::IncorrectProgramId);
        },
    };
    let invocation = Invocation {
        instruction,
        accounts: vec![2usize, 1usize, 4usize, 3usize],
        seed: slice_to_vec(&TREASURY_SEED),
        bump: treasury.bump,
    };
    proof {
        assert(invocation.accounts@ =~= seq![2usize, 1usize, 4usize, 3usize]);
    }
    Ok(invocation)
}

/// Decodes a request and hands it to its handler, whose answer it returns
/// unchanged.
pub fn process_instruction(
    program_id: &Pubkey,
    accounts: &[AccountInfo],
    instruction_data: &[u8],
) -> (res: Result<Action, ProgramError>)
    ensures
        action_view(res) == spec_process_instruction(*program_id, accounts@, instruction_data@),
{
    let instruction = match TreasuryInstruction::unpack(instruction_data) {
        Ok(instruction) => instruction,
        Err(e) => {
            return Err(e);
        },
    };
    match instruction {
        TreasuryInstruction::Initialize => match process_initialize(program_id, accounts) {
            Ok(plan) => Ok(Action::Initialize(plan)),
            Err(e) => Err(e),
        },
        TreasuryInstruction::Claim { amount } => match process_claim(program_id, accounts, amount) {
            Ok(invocation) => Ok(Action::Claim(invocation)),
            Err(e) => Err(e),
        },
    }
}

} // verus!

use solana_program::pubkey::Pubkey as LedgerKey;
use solana_program::system_instruction;
use treasury::account::AccountInfo;
use treasury::address::{config_address, treasury_address};
use treasury::error::ProgramError;
use treasury::invoke::{AccountMeta, SYSTEM_PROGRAM_ID};
use treasury::processor::{process_initialize, process_instruction, Action, InitializePlan};
use treasury::pubkey::Pubkey;
use treasury::state::{TreasuryConfig, TreasuryState};

fn key(fill: u8) -> Pubkey {
    Pubkey::new_from_array([fill; 32])
}

fn program() -> Pubkey {
    key(42)
}

fn account(key: Pubkey, is_signer: bool, lamports: u64, data: Vec<u8>) -> AccountInfo {
    AccountInfo { key, is_signer, lamports, data }
}

/// payer, treasury, system program, config: nothing created yet
fn fresh(payer: Pubkey) -> Vec<AccountInfo> {
    vec![
        account(payer, true, 1_000_000_000, vec![]),
        account(treasury_address(&program()).unwrap().address, false, 0, vec![]),
        account(Pubkey::new_from_array(SYSTEM_PROGRAM_ID), false, 1, vec![]),
        account(config_address(&program()).unwrap().address, false, 0, vec![]),
    ]
}

fn expected_plan(payer: Pubkey) -> InitializePlan {
    let treasury = treasury_address(&program()).unwrap();
    let config = config_address(&program()).unwrap();
    InitializePlan {
        program_id: program(),
        payer,
        treasury: treasury.address,
        treasury_bump: treasury.bump,
        config: config.address,
        config_bump: config.bump,
    }
}

/// the accounts after the host created both accounts and stored the record
fn carry_out(accounts: &mut [AccountInfo], plan: &InitializePlan, treasury_lamports: u64, config_lamports: u64) {
    let effects = plan.fund(treasury_lamports, config_lamports);
    accounts[0].lamports -= treasury_lamports + config_lamports;
    accounts[1].lamports = treasury_lamports;
    accounts[1].data = vec![0; TreasuryState::SPACE as usize];
    accounts[3].lamports = config_lamports;
    accounts[3].data = vec![0; TreasuryConfig::SPACE as usize];
    let at = effects.config_account;
    accounts[at].data[..effects.config_data.len()].copy_from_slice(&effects.config_data);
}

#[test]
fn initialize_accepts_fresh_accounts() {
    let payer = key(1);
    assert_eq!(process_initialize(&program(), &fresh(payer)), Ok(expected_plan(payer)));
}

#[test]
fn initialize_through_the_dispatcher() {
    let payer = key(1);
    assert_eq!(
        process_instruction(&program(), &fresh(payer), &[0]),
        Ok(Action::Initialize(expected_plan(payer)))
    );
}

#[test]
fn dispatcher_refuses_malformed_payloads_before_looking_at_accounts() {
    for data in [&[][..], &[0, 0][..], &[1][..], &[7][..], &[1, 0, 0, 0][..]] {
        assert_eq!(
            process_instruction(&program(), &[], data),
            Err(ProgramError::InvalidInstructionData)
        );
        assert_eq!(
            process_instruction(&program(), &fresh(key(1)), data),
            Err(ProgramError::InvalidInstructionData)
        );
    }
}

#[test]
fn initialize_needs_four_accounts() {
    let accounts = fresh(key(1));
    for n in 0..4 {
        assert_eq!(
            process_initialize(&program(), &accounts[..n]),
            Err(ProgramError::NotEnoughAccountKeys)
        );
    }
    assert_eq!(process_instruction(&program(), &[], &[0]), Err(ProgramError::NotEnoughAccountKeys));
}

#[test]
fn initialize_rejects_a_spoofed_treasury_address() {
    let mut accounts = fresh(key(1));
    accounts[1].key = key(77);
    assert_eq!(process_initialize(&program(), &accounts), Err(ProgramError::InvalidSeeds));
}

#[test]
fn initialize_rejects_a_spoofed_config_address() {
    let mut accounts = fresh(key(1));
    accounts[3].key = key(78);
    assert_eq!(process_initialize(&program(), &accounts), Err(ProgramError::InvalidSeeds));
}

#[test]
fn initialize_rejects_swapped_addresses() {
    let mut accounts = fresh(key(1));
    accounts.swap(1, 3);
    assert_eq!(process_initialize(&program(), &accounts), Err(ProgramError::InvalidSeeds));
}

#[test]
fn initialize_rejects_addresses_of_another_program() {
    let accounts = fresh(key(1));
    assert_eq!(process_initialize(&key(43), &accounts), Err(ProgramError::InvalidSeeds));
}

#[test]
fn spoofed_address_is_reported_before_an_existing_config() {
    let mut accounts = fresh(key(1));
    accounts[1].key = key(77);
    accounts[3].lamports = 10;
    accounts[3].data = vec![0; 40];
    assert_eq!(process_initialize(&program(), &accounts), Err(ProgramError::InvalidSeeds));
}

#[test]
fn initialize_refuses_an_existing_config() {
    let mut accounts = fresh(key(1));
    accounts[3].lamports = 1;
    accounts[3].data = vec![0; 32];
    assert_eq!(
        process_initialize(&program(), &accounts),
        Err(ProgramError::AccountAlreadyInitialized)
    );
    accounts[3].data = vec![5; 40];
    assert_eq!(
        process_initialize(&program(), &accounts),
        Err(ProgramError::AccountAlreadyInitialized)
    );
}

#[test]
fn initialize_goes_on_where_the_config_cannot_hold_a_record() {
    let payer = key(1);
    let mut accounts = fresh(payer);
    accounts[3].lamports = 5;
    accounts[3].data = vec![0; 31];
    assert_eq!(process_initialize(&program(), &accounts), Ok(expected_plan(payer)));
    accounts[3].lamports = 0;
    accounts[3].data = vec![0; 40];
    assert_eq!(process_initialize(&program(), &accounts), Ok(expected_plan(payer)));
}

#[test]
fn funding_builds_the_two_creations_and_the_record() {
    let payer = key(1);
    let plan = process_initialize(&program(), &fresh(payer)).unwrap();
    let effects = plan.fund(1_002_240, 1_169_280);

    let treasury = &effects.create_treasury;
    assert_eq!(treasury.instruction.program_id, Pubkey::new_from_array([0; 32]));
    assert_eq!(
        treasury.instruction.accounts,
        vec![
            AccountMeta { pubkey: payer, is_signer: true, is_writable: true },
            AccountMeta { pubkey: plan.treasury, is_signer: true, is_writable: true },
        ]
    );
    let mut data = vec![0u8, 0, 0, 0];
    data.extend_from_slice(&[0x00, 0x4b, 0x0f, 0, 0, 0, 0, 0]);
    data.extend_from_slice(&[16, 0, 0, 0, 0, 0, 0, 0]);
    data.extend_from_slice(&[42; 32]);
    assert_eq!(treasury.instruction.data, data);
    assert_eq!(treasury.accounts, vec![0, 1, 2]);
    assert_eq!(treasury.seed, b"treasury".to_vec());
    assert_eq!(treasury.bump, plan.treasury_bump);

    let config = &effects.create_config;
    assert_eq!(config.instruction.program_id, Pubkey::new_from_array([0; 32]));
    assert_eq!(
        config.instruction.accounts,
        vec![
            AccountMeta { pubkey: payer, is_signer: true, is_writable: true },
            AccountMeta { pubkey: plan.config, is_signer: true, is_writable: true },
        ]
    );
    let mut data = vec![0u8, 0, 0, 0];
    data.extend_from_slice(&[0x80, 0xd7, 0x11, 0, 0, 0, 0, 0]);
    data.extend_from_slice(&[40, 0, 0, 0, 0, 0, 0, 0]);
    data.extend_from_slice(&[42; 32]);
    assert_eq!(config.instruction.data, data);
    assert_eq!(config.accounts, vec![0, 3, 2]);
    assert_eq!(config.seed, b"config".to_vec());
    assert_eq!(config.bump, plan.config_bump);

    assert_eq!(effects.config_account, 3);
    assert_eq!(effects.config_data, vec![1u8; 32]);
}

#[test]
fn creations_are_the_system_programs_own() {
    let payer = key(1);
    let plan = process_initialize(&program(), &fresh(payer)).unwrap();
    let effects = plan.fund(u64::MAX, 0);
    let owner = LedgerKey::new_from_array(program().bytes);
    let from = LedgerKey::new_from_array(payer.bytes);
    for (invocation, to, lamports, space) in [
        (&effects.create_treasury, plan.treasury, u64::MAX, 16u64),
        (&effects.create_config, plan.config, 0, 40),
    ] {
        let built = system_instruction::create_account(
            &from,
            &LedgerKey::new_from_array(to.bytes),
            lamports,
            space,
            &owner,
        );
        assert_eq!(invocation.instruction.program_id.to_bytes(), built.program_id.to_bytes());
        assert_eq!(invocation.instruction.data, built.data);
        assert_eq!(invocation.instruction.accounts.len(), built.accounts.len());
        for (mine, theirs) in invocation.instruction.accounts.iter().zip(built.accounts.iter()) {
            assert_eq!(mine.pubkey.to_bytes(), theirs.pubkey.to_bytes());
            assert_eq!(mine.is_signer, theirs.is_signer);
            assert_eq!(mine.is_writable, theirs.is_writable);
        }
    }
}

#[test]
fn signer_seeds_derive_the_created_addresses() {
    let plan = process_initialize(&program(), &fresh(key(1))).unwrap();
    let effects = plan.fund(1, 1);
    let id = LedgerKey::new_from_array(program().bytes);
    for (invocation, created) in
        [(&effects.create_treasury, plan.treasury), (&effects.create_config, plan.config)]
    {
        assert_eq!(
            LedgerKey::create_program_address(&[&invocation.seed[..], &[invocation.bump]], &id)
                .unwrap()
                .to_bytes(),
            created.to_bytes()
        );
    }
}

#[test]
fn initialize_succeeds_only_once() {
    let payer = key(1);
    let mut accounts = fresh(payer);
    let plan = process_initialize(&program(), &accounts).unwrap();
    carry_out(&mut accounts, &plan, 1_002_240, 1_169_280);
    assert_eq!(TreasuryConfig::unpack(&accounts[3].data), Ok(TreasuryConfig { owner: payer }));
    assert_eq!(TreasuryState::unpack(&accounts[1].data), Ok(TreasuryState { balance: 0 }));
    assert_eq!(
        process_initialize(&program(), &accounts),
        Err(ProgramError::AccountAlreadyInitialized)
    );
    assert_eq!(
        process_instruction(&program(), &accounts, &[0]),
        Err(ProgramError::AccountAlreadyInitialized)
    );
}

#[test]
fn nobody_else_can_initialize_afterwards() {
    let mut accounts = fresh(key(1));
    let plan = process_initialize(&program(), &accounts).unwrap();
    carry_out(&mut accounts, &plan, 1, 1);
    accounts[0] = account(key(2), true, 5_000_000_000, vec![]);
    assert_eq!(
        process_initialize(&program(), &accounts),
        Err(ProgramError::AccountAlreadyInitialized)
    );
}

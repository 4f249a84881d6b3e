use treasury::error::ProgramError;
use treasury::instruction::TreasuryInstruction;
use treasury::pubkey::Pubkey;
use treasury::state::{TreasuryConfig, TreasuryState, ACCOUNT_HEADROOM};

#[test]
fn initialize_is_the_single_byte_zero() {
    assert_eq!(TreasuryInstruction::unpack(&[0]), Ok(TreasuryInstruction::Initialize));
}

#[test]
fn claim_is_tag_one_and_a_little_endian_amount() {
    assert_eq!(
        TreasuryInstruction::unpack(&[1, 0xe8, 0x03, 0, 0, 0, 0, 0, 0]),
        Ok(TreasuryInstruction::Claim { amount: 1000 })
    );
    assert_eq!(
        TreasuryInstruction::unpack(&[1, 0x08, 0x07, 0x06, 0x05, 0x04, 0x03, 0x02, 0x01]),
        Ok(TreasuryInstruction::Claim { amount: 0x0102_0304_0506_0708 })
    );
    assert_eq!(
        TreasuryInstruction::unpack(&[1, 0xff, 0xff, 0xff, 0xff, 0xff, 0xff, 0xff, 0xff]),
        Ok(TreasuryInstruction::Claim { amount: u64::MAX })
    );
    assert_eq!(
        TreasuryInstruction::unpack(&[1, 0, 0, 0, 0, 0, 0, 0, 0]),
        Ok(TreasuryInstruction::Claim { amount: 0 })
    );
}

#[test]
fn claim_agrees_with_borsh_on_tag_and_amount() {
    for amount in [0u64, 1, 255, 256, 65_535, 1_000_000_007, u64::MAX - 1, u64::MAX] {
        let encoded = borsh::to_vec(&(1u8, amount)).unwrap();
        assert_eq!(encoded.len(), 9);
        assert_eq!(
            TreasuryInstruction::unpack(&encoded),
            Ok(TreasuryInstruction::Claim { amount })
        );
    }
    assert_eq!(
        TreasuryInstruction::unpack(&borsh::to_vec(&0u8).unwrap()),
        Ok(TreasuryInstruction::Initialize)
    );
}

#[test]
fn empty_payload_is_refused() {
    assert_eq!(TreasuryInstruction::unpack(&[]), Err(ProgramError::InvalidInstructionData));
}

#[test]
fn unknown_tag_is_refused() {
    assert_eq!(TreasuryInstruction::unpack(&[2]), Err(ProgramError::InvalidInstructionData));
    assert_eq!(TreasuryInstruction::unpack(&[255]), Err(ProgramError::InvalidInstructionData));
    assert_eq!(
        TreasuryInstruction::unpack(&[2, 0, 0, 0, 0, 0, 0, 0, 0]),
        Err(ProgramError::InvalidInstructionData)
    );
}

#[test]
fn truncated_amount_is_refused() {
    assert_eq!(TreasuryInstruction::unpack(&[1]), Err(ProgramError::InvalidInstructionData));
    assert_eq!(
        TreasuryInstruction::unpack(&[1, 1, 2, 3, 4, 5, 6, 7]),
        Err(ProgramError::InvalidInstructionData)
    );
}

#[test]
fn bytes_left_over_are_refused() {
    assert_eq!(TreasuryInstruction::unpack(&[0, 0]), Err(ProgramError::InvalidInstructionData));
    assert_eq!(
        TreasuryInstruction::unpack(&[1, 1, 0, 0, 0, 0, 0, 0, 0, 0]),
        Err(ProgramError::InvalidInstructionData)
    );
    assert_eq!(
        TreasuryInstruction::unpack(&[0, 1, 0, 0, 0, 0, 0, 0, 0]),
        Err(ProgramError::InvalidInstructionData)
    );
}

#[test]
fn config_record_is_the_owner_bytes() {
    let mut bytes = [0u8; 32];
    for (i, b) in bytes.iter_mut().enumerate() {
        *b = 200 - i as u8;
    }
    let config = TreasuryConfig { owner: Pubkey::new_from_array(bytes) };
    assert_eq!(config.pack(), bytes.to_vec());
    assert_eq!(config.pack(), borsh::to_vec(&bytes).unwrap());
    assert_eq!(TreasuryConfig::LEN, 32);
    assert_eq!(TreasuryConfig::SPACE, 40);
    assert_eq!(ACCOUNT_HEADROOM, 8);
}

#[test]
fn config_record_reads_back_with_bytes_behind_it() {
    let mut data = vec![0u8; 40];
    for (i, b) in data.iter_mut().enumerate() {
        *b = i as u8 + 1;
    }
    let config = TreasuryConfig::unpack(&data).unwrap();
    let mut expected = [0u8; 32];
    expected.copy_from_slice(&data[..32]);
    assert_eq!(config.owner.to_bytes(), expected);
    assert_eq!(TreasuryConfig::unpack(&config.pack()), Ok(config));
}

#[test]
fn short_config_payload_is_refused() {
    assert_eq!(TreasuryConfig::unpack(&[]), Err(ProgramError::InvalidAccountData));
    assert_eq!(TreasuryConfig::unpack(&[9u8; 31]), Err(ProgramError::InvalidAccountData));
    assert!(TreasuryConfig::unpack(&[9u8; 32]).is_ok());
}

#[test]
fn treasury_record_is_the_little_endian_balance() {
    let state = TreasuryState { balance: 0x1122_3344_5566_7788 };
    assert_eq!(state.pack(), vec![0x88, 0x77, 0x66, 0x55, 0x44, 0x33, 0x22, 0x11]);
    assert_eq!(state.pack(), borsh::to_vec(&state.balance).unwrap());
    assert_eq!(TreasuryState { balance: 0 }.pack(), vec![0u8; 8]);
    assert_eq!(TreasuryState { balance: u64::MAX }.pack(), vec![0xffu8; 8]);
    assert_eq!(TreasuryState::LEN, 8);
    assert_eq!(TreasuryState::SPACE, 16);
}

#[test]
fn treasury_record_reads_back() {
    for balance in [0u64, 1, 255, 256, 1 << 32, u64::MAX] {
        let state = TreasuryState { balance };
        assert_eq!(TreasuryState::unpack(&state.pack()), Ok(state));
        let mut padded = state.pack();
        padded.extend_from_slice(&[0xaa; 8]);
        assert_eq!(TreasuryState::unpack(&padded), Ok(state));
    }
    assert_eq!(TreasuryState::unpack(&[1, 2, 0, 0, 0, 0, 0, 0]), Ok(TreasuryState { balance: 513 }));
}

#[test]
fn fresh_treasury_payload_holds_no_balance() {
    assert_eq!(TreasuryState::unpack(&[0u8; 16]), Ok(TreasuryState { balance: 0 }));
}

#[test]
fn short_treasury_payload_is_refused() {
    assert_eq!(TreasuryState::unpack(&[0u8; 7]), Err(ProgramError::InvalidAccountData));
    assert_eq!(TreasuryState::unpack(&[]), Err(ProgramError::InvalidAccountData));
}

#[test]
fn keys_compare_by_their_bytes() {
    let a = Pubkey::new_from_array([3; 32]);
    let b = Pubkey::new_from_array([3; 32]);
    let mut other = [3u8; 32];
    other[31] = 4;
    let c = Pubkey::new_from_array(other);
    assert_eq!(a, b);
    assert_ne!(a, c);
    assert_eq!(a.to_bytes(), [3; 32]);
    assert_eq!(c.to_vec(), other.to_vec());
}

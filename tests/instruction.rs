use collateral_vault::{StakingError, StakingInstruction, VaultError, VaultInstruction};

#[test]
fn unpack_initialize() {
    assert_eq!(VaultInstruction::unpack(&[0]), Ok(VaultInstruction::Initialize));
    assert_eq!(VaultInstruction::unpack(&[0, 5, 6]), Ok(VaultInstruction::Initialize));
}

#[test]
fn unpack_deposit_and_mint() {
    let r = VaultInstruction::unpack(&[1, 100, 0, 0, 0, 0, 0, 0, 0]);
    assert_eq!(r, Ok(VaultInstruction::DepositAndMint { zbtc_amount: 100 }));
    let r = VaultInstruction::unpack(&[1, 1, 2, 3, 4, 5, 6, 7, 8, 0xff]);
    assert_eq!(r, Ok(VaultInstruction::DepositAndMint { zbtc_amount: 0x0807060504030201 }));
}

#[test]
fn unpack_repay_and_withdraw() {
    let mut data = vec![2u8];
    data.extend_from_slice(&3_500_000_000_000u64.to_le_bytes());
    let r = VaultInstruction::unpack(&data);
    assert_eq!(r, Ok(VaultInstruction::RepayAndWithdraw { zusd_amount: 3_500_000_000_000 }));
    let r = VaultInstruction::unpack(&[2, 0xff, 0xff, 0xff, 0xff, 0xff, 0xff, 0xff, 0xff]);
    assert_eq!(r, Ok(VaultInstruction::RepayAndWithdraw { zusd_amount: u64::MAX }));
}

#[test]
fn unpack_malformed() {
    assert_eq!(VaultInstruction::unpack(&[]), Err(VaultError::InvalidInstruction));
    assert_eq!(VaultInstruction::unpack(&[3]), Err(VaultError::InvalidInstruction));
    assert_eq!(VaultInstruction::unpack(&[1, 0, 0, 0, 0, 0, 0, 0]), Err(VaultError::InvalidInstruction));
    assert_eq!(VaultInstruction::unpack(&[2]), Err(VaultError::InvalidInstruction));
}

#[test]
fn unpack_amount_reads_prefix() {
    assert_eq!(VaultInstruction::unpack_amount(&[7, 0, 0, 0, 0, 0, 0, 0, 9]), Ok(7));
    assert_eq!(VaultInstruction::unpack_amount(&[0, 1, 0, 0, 0, 0, 0, 0]), Ok(256));
    assert_eq!(VaultInstruction::unpack_amount(&[0; 7]), Err(VaultError::InvalidInstruction));
}

#[test]
fn unpack_staking() {
    assert_eq!(
        StakingInstruction::unpack(&[0, 10, 0, 0, 0, 0, 0, 0, 0]),
        Ok(StakingInstruction::Stake { amount: 10 })
    );
    assert_eq!(
        StakingInstruction::unpack(&[1, 0, 1, 0, 0, 0, 0, 0, 0]),
        Ok(StakingInstruction::Unstake { amount: 256 })
    );
}

#[test]
fn unpack_staking_malformed() {
    assert_eq!(StakingInstruction::unpack(&[]), Err(StakingError::InvalidInstruction));
    assert_eq!(StakingInstruction::unpack(&[2, 0, 0, 0, 0, 0, 0, 0, 0]), Err(StakingError::InvalidInstruction));
    assert_eq!(StakingInstruction::unpack(&[0, 0, 0, 0, 0, 0, 0, 0]), Err(StakingError::InvalidInstruction));
    assert_eq!(StakingInstruction::unpack(&[0, 0, 0, 0, 0, 0, 0, 0, 0, 0]), Err(StakingError::InvalidInstruction));
}

#[test]
fn staking_error_codes() {
    assert_eq!(StakingError::InvalidInstruction.code(), 0);
    assert_eq!(StakingError::InsufficientFunds.code(), 1);
}

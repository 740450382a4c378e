use collateral_vault::authority::derive_authority;
use collateral_vault::engine::{
    process_deposit_and_mint, process_repay_and_withdraw, same_address, AccountRef,
    DepositAccounts, RepayAccounts, TokenAction, VAULT_SEED,
};
use collateral_vault::stake::{
    process_stake, process_unstake, StakeAccounts, MINT_AUTHORITY_SEED, VAULT_AUTHORITY_SEED,
};
use collateral_vault::{ProcessError, Vault, VaultError};

const PRICE: u64 = 50_000_000_000;
const PROGRAM: u8 = 99;

fn key(b: u8) -> [u8; 32] {
    [b; 32]
}

fn account(k: u8, owner: u8, signer: bool) -> AccountRef {
    AccountRef { key: key(k), owner: key(owner), is_signer: signer }
}

fn stored(locked: u64, minted: u64) -> Vec<u8> {
    let mut v = Vault::new(key(20), key(21), key(22), key(23));
    v.locked_zbtc_amount = locked;
    v.minted_zusd_amount = minted;
    v.encode()
}

fn deposit_accounts(signer: bool, vault_owner: u8) -> DepositAccounts {
    DepositAccounts {
        user: account(20, 0, signer),
        vault: account(30, vault_owner, false),
        user_zbtc: key(31),
        zbtc_vault: key(23),
        user_zusd: key(32),
        zusd_mint: key(22),
    }
}

fn repay_accounts(signer: bool, vault_owner: u8) -> RepayAccounts {
    RepayAccounts {
        user: account(20, 0, signer),
        vault: account(30, vault_owner, false),
        user_zusd: key(32),
        zusd_mint: key(22),
        user_zbtc: key(31),
        zbtc_vault: key(23),
    }
}

#[test]
fn derived_authority_is_deterministic() {
    let a = derive_authority(VAULT_SEED, &key(PROGRAM)).unwrap();
    let b = derive_authority(VAULT_SEED, &key(PROGRAM)).unwrap();
    assert_eq!(a.address, b.address);
    assert_eq!(a.bump, b.bump);
    assert_eq!(a.seed, "vault");
    assert_ne!(a.address, key(PROGRAM));
}

#[test]
fn derived_authority_depends_on_seed_and_program() {
    let a = derive_authority(VAULT_SEED, &key(PROGRAM)).unwrap();
    let b = derive_authority(MINT_AUTHORITY_SEED, &key(PROGRAM)).unwrap();
    let c = derive_authority(VAULT_SEED, &key(PROGRAM - 1)).unwrap();
    assert_ne!(a.address, b.address);
    assert_ne!(a.address, c.address);
}

#[test]
fn same_address_compares_every_byte() {
    let a = key(1);
    let mut b = key(1);
    assert!(same_address(&a, &b));
    b[31] = 2;
    assert!(!same_address(&a, &b));
}

#[test]
fn deposit_and_mint_plan() {
    let data = stored(0, 0);
    let p = process_deposit_and_mint(&key(PROGRAM), &deposit_accounts(true, PROGRAM), &data, 100, PRICE)
        .unwrap();
    assert_eq!(p.record.locked_zbtc_amount, 100);
    assert_eq!(p.record.minted_zusd_amount, 3_500_000_000_000);
    assert_eq!(p.record.owner, key(20));
    assert_eq!(p.steps.len(), 2);
    assert_eq!(
        p.steps[0].action,
        TokenAction::Transfer { source: key(31), destination: key(23), authority: key(20), amount: 100 }
    );
    assert!(!p.steps[0].delegated);
    let expected = derive_authority(VAULT_SEED, &key(PROGRAM)).unwrap();
    assert_eq!(
        p.steps[1].action,
        TokenAction::MintTo {
            mint: key(22),
            destination: key(32),
            authority: expected.address,
            amount: 3_500_000_000_000
        }
    );
    assert!(p.steps[1].delegated);
    assert_eq!(p.authority.address, expected.address);
    assert_eq!(p.authority.bump, expected.bump);
}

#[test]
fn deposit_and_mint_refusals() {
    let data = stored(0, 0);
    let r = process_deposit_and_mint(&key(PROGRAM), &deposit_accounts(false, PROGRAM), &data, 100, PRICE);
    assert_eq!(r.unwrap_err(), ProcessError::MissingRequiredSignature);
    let r = process_deposit_and_mint(&key(PROGRAM), &deposit_accounts(true, 5), &data, 100, PRICE);
    assert_eq!(r.unwrap_err(), ProcessError::Vault(VaultError::VaultNotFound));
    let r = process_deposit_and_mint(&key(PROGRAM), &deposit_accounts(true, PROGRAM), &data[..100], 100, PRICE);
    assert_eq!(r.unwrap_err(), ProcessError::InvalidAccountData);
    let r = process_deposit_and_mint(&key(PROGRAM), &deposit_accounts(true, PROGRAM), &data, u64::MAX, PRICE);
    assert_eq!(r.unwrap_err(), ProcessError::Vault(VaultError::MathOverflow));
}

#[test]
fn repay_and_withdraw_plan() {
    let data = stored(100, 3_500_000_000_000);
    let p = process_repay_and_withdraw(
        &key(PROGRAM),
        &repay_accounts(true, PROGRAM),
        &data,
        3_500_000_000_000,
        PRICE,
    )
    .unwrap();
    assert_eq!(p.record.locked_zbtc_amount, 0);
    assert_eq!(p.record.minted_zusd_amount, 0);
    assert_eq!(
        p.steps[0].action,
        TokenAction::Burn { account: key(32), mint: key(22), owner: key(20), amount: 3_500_000_000_000 }
    );
    assert!(!p.steps[0].delegated);
    let expected = derive_authority(VAULT_SEED, &key(PROGRAM)).unwrap();
    assert_eq!(
        p.steps[1].action,
        TokenAction::Transfer {
            source: key(23),
            destination: key(31),
            authority: expected.address,
            amount: 100
        }
    );
    assert!(p.steps[1].delegated);
    assert_eq!(p.authority.address, expected.address);
}

#[test]
fn repay_and_withdraw_refusals() {
    let data = stored(99, 3_500_000_000_000);
    let r = process_repay_and_withdraw(&key(PROGRAM), &repay_accounts(false, PROGRAM), &data, 10, PRICE);
    assert_eq!(r.unwrap_err(), ProcessError::MissingRequiredSignature);
    let r = process_repay_and_withdraw(&key(PROGRAM), &repay_accounts(true, 1), &data, 10, PRICE);
    assert_eq!(r.unwrap_err(), ProcessError::Vault(VaultError::VaultNotFound));
    let r = process_repay_and_withdraw(
        &key(PROGRAM),
        &repay_accounts(true, PROGRAM),
        &data,
        3_500_000_000_000,
        PRICE,
    );
    assert_eq!(r.unwrap_err(), ProcessError::Vault(VaultError::InsufficientCollateral));
    let r = process_repay_and_withdraw(&key(PROGRAM), &repay_accounts(true, PROGRAM), &data, u64::MAX, PRICE);
    assert_eq!(r.unwrap_err(), ProcessError::Vault(VaultError::MathOverflow));
}

fn stake_accounts(signer: bool) -> StakeAccounts {
    StakeAccounts {
        user: account(40, 0, signer),
        user_zusd: key(41),
        user_szusd: key(42),
        zusd_mint: key(43),
        szusd_mint: key(44),
        staking_vault: key(45),
    }
}

#[test]
fn stake_plan() {
    let p = process_stake(&key(PROGRAM), &stake_accounts(true), 500).unwrap();
    let auth = derive_authority(MINT_AUTHORITY_SEED, &key(PROGRAM)).unwrap();
    assert_eq!(p.authority.seed, "mint_authority");
    assert_eq!(p.authority.address, auth.address);
    assert_eq!(
        p.steps[0].action,
        TokenAction::Transfer { source: key(41), destination: key(45), authority: key(40), amount: 500 }
    );
    assert!(!p.steps[0].delegated);
    assert_eq!(
        p.steps[1].action,
        TokenAction::MintTo { mint: key(44), destination: key(42), authority: auth.address, amount: 500 }
    );
    assert!(p.steps[1].delegated);
}

#[test]
fn unstake_plan() {
    let p = process_unstake(&key(PROGRAM), &stake_accounts(true), 7).unwrap();
    let auth = derive_authority(VAULT_AUTHORITY_SEED, &key(PROGRAM)).unwrap();
    assert_eq!(p.authority.seed, "vault_authority");
    assert_eq!(
        p.steps[0].action,
        TokenAction::Burn { account: key(42), mint: key(44), owner: key(40), amount: 7 }
    );
    assert_eq!(
        p.steps[1].action,
        TokenAction::Transfer { source: key(45), destination: key(41), authority: auth.address, amount: 7 }
    );
}

#[test]
fn swap_requires_signature() {
    assert_eq!(
        process_stake(&key(PROGRAM), &stake_accounts(false), 1).unwrap_err(),
        ProcessError::MissingRequiredSignature
    );
    assert_eq!(
        process_unstake(&key(PROGRAM), &stake_accounts(false), 1).unwrap_err(),
        ProcessError::MissingRequiredSignature
    );
}

#[test]
fn foreign_storage_is_not_found_before_it_is_read() {
    let short = [0u8; 10];
    let r = process_deposit_and_mint(&key(PROGRAM), &deposit_accounts(true, 5), &short, 100, PRICE);
    assert_eq!(r.unwrap_err(), ProcessError::Vault(VaultError::VaultNotFound));
    let r = process_repay_and_withdraw(&key(PROGRAM), &repay_accounts(true, 5), &short, 10, PRICE);
    assert_eq!(r.unwrap_err(), ProcessError::Vault(VaultError::VaultNotFound));
    let r = process_repay_and_withdraw(&key(PROGRAM), &repay_accounts(true, PROGRAM), &short, 10, PRICE);
    assert_eq!(r.unwrap_err(), ProcessError::InvalidAccountData);
}

use vstd::prelude::*;
use crate::authority::{derive_authority, program_address_of, Authority};
use crate::error::{ProcessError, VaultError};
use crate::ledger::{deposit, repay, spec_deposit, spec_repay};
use crate::vault::{spec_decode, Address, Vault, VAULT_LEN};

verus! {

/// Seed label of the identity that mints debt tokens and releases collateral.
pub const VAULT_SEED: &'static str = "vault";

/// What an operation reads of an account handed to it.
#[derive(Debug, Clone, Copy)]
pub struct AccountRef {
    pub key: Address,
    /// The program that administers the account.
    pub owner: Address,
    pub is_signer: bool,
}

/// One call into the token service.
#[derive(Debug, Clone, Copy, PartialEq, Eq)]
pub enum TokenAction {
    Transfer { source: Address, destination: Address, authority: Address, amount: u64 },
    MintTo { mint: Address, destination: Address, authority: Address, amount: u64 },
    Burn { account: Address, mint: Address, owner: Address, amount: u64 },
}

/// A token call, and whether the engine signs it with its derived authority
/// (otherwise the user's own signature authorizes it).
#[derive(Debug, Clone, Copy, PartialEq, Eq)]
pub struct TokenStep {
    pub action: TokenAction,
    pub delegated: bool,
}

/// What an accepted deposit or repayment does: the token calls to make, in
/// order, the authority that signs the delegated ones, and the record to store
/// once all of them have succeeded.
#[derive(Debug)]
pub struct Plan {
    pub record: Vault,
    pub steps: Vec<TokenStep>,
    pub authority: Authority,
}

/// The accounts of an Initialize request.
#[derive(Debug, Clone, Copy)]
pub struct InitializeAccounts {
    pub owner: AccountRef,
    pub vault: AccountRef,
    pub zbtc_mint: Address,
    pub zusd_mint: Address,
    pub zbtc_vault: Address,
}

/// What an accepted Initialize does: provision the storage (when the engine does
/// not administer it yet) with `space` bytes, then store `record`.
#[derive(Debug, Clone, Copy)]
pub struct InitializePlan {
    pub create_account: bool,
    pub space: usize,
    pub record: Vault,
}

/// The accounts of a DepositAndMint request.
#[derive(Debug, Clone, Copy)]
pub struct DepositAccounts {
    pub user: AccountRef,
    pub vault: AccountRef,
    pub user_zbtc: Address,
    pub zbtc_vault: Address,
    pub user_zusd: Address,
    pub zusd_mint: Address,
}

/// The accounts of a RepayAndWithdraw request.
#[derive(Debug, Clone, Copy)]
pub struct RepayAccounts {
    pub user: AccountRef,
    pub vault: AccountRef,
    pub user_zusd: Address,
    pub zusd_mint: Address,
    pub user_zbtc: Address,
    pub zbtc_vault: Address,
}

/// Whether the two identities are the same.
pub fn same_address(a: &Address, b: &Address) -> (r: bool)
    ensures
        r == (a@ == b@),
{
    let mut i: usize = 0;
    while i < 32
        invariant
            i <= 32,
            a@.len() == 32,
            b@.len() == 32,
            forall|j: int| 0 <= j < i ==> a@[j] == b@[j],
        decreases 32 - i,
    {
        if a[i] != b[i] {
            return false;
        }
        i = i + 1;
    }
    assert(a@ =~= b@);
    true
}

/// The record that a repeated Initialize keeps: the stored one, when the engine
/// already administers the storage and something is locked or minted in it.
pub open spec fn spec_kept_record(provisioned: bool, data: Seq<u8>) -> Option<Vault> {
    match spec_decode(data) {
        Some(v) => if provisioned && (v.locked_zbtc_amount != 0 || v.minted_zusd_amount != 0) {
            Some(v)
        } else {
            None
        },
        None => None,
    }
}

/// The ratio a rewritten record gets: the stored one, when the engine already
/// administers the storage and the stored record has a ratio set (1 to 100);
/// otherwise the default. A ratio, once set, stays.
pub open spec fn spec_initial_ratio(provisioned: bool, data: Seq<u8>) -> u8 {
    match spec_decode(data) {
        Some(v) => if provisioned && 1 <= v.ltv_ratio <= 100 {
            v.ltv_ratio
        } else {
            crate::vault::DEFAULT_LTV_RATIO
        },
        None => crate::vault::DEFAULT_LTV_RATIO,
    }
}

/// The outcome of Initialize when the vault storage holds `data`.
pub open spec fn spec_initialize(program_id: Address, a: InitializeAccounts, data: Seq<u8>) -> Result<
    InitializePlan,
    ProcessError,
> {
    if !a.owner.is_signer {
        Err(ProcessError::MissingRequiredSignature)
    } else {
        let provisioned = a.vault.owner@ == program_id@;
        let fresh = Vault {
            owner: a.owner.key,
            zbtc_mint: a.zbtc_mint,
            zusd_mint: a.zusd_mint,
            zbtc_vault: a.zbtc_vault,
            locked_zbtc_amount: 0,
            minted_zusd_amount: 0,
            ltv_ratio: spec_initial_ratio(provisioned, data),
        };
        let record = match spec_kept_record(provisioned, data) {
            Some(v) => v,
            None => fresh,
        };
        Ok(InitializePlan { create_account: !provisioned, space: VAULT_LEN, record })
    }
}

/// Decides an Initialize request. `data` is what the vault storage holds now.
/// A record that already has collateral or debt is kept as it is; otherwise the
/// record is written with the given identities and zero amounts, keeping a ratio
/// that the stored record already has and taking the default where none is set.
pub fn process_initialize(program_id: &Address, a: &InitializeAccounts, data: &[u8]) -> (r: Result<
    InitializePlan,
    ProcessError,
>)
    ensures
        r == spec_initialize(*program_id, *a, data@),
{
    if !a.owner.is_signer {
        return Err(ProcessError::MissingRequiredSignature);
    }
    let provisioned = same_address(&a.vault.owner, program_id);
    let mut record = Vault::new(a.owner.key, a.zbtc_mint, a.zusd_mint, a.zbtc_vault);
    if provisioned {
        match Vault::decode(data) {
            Some(v) => {
                if v.locked_zbtc_amount != 0 || v.minted_zusd_amount != 0 {
                    record = v;
                } else if 1 <= v.ltv_ratio && v.ltv_ratio <= 100 {
                    record.ltv_ratio = v.ltv_ratio;
                }
            },
            None => {},
        }
    }
    Ok(InitializePlan { create_account: !provisioned, space: VAULT_LEN, record })
}

/// The record that an operation by `user` on the vault storage `vault` holding
/// `data` works on: the user must sign, the engine must administer the storage,
/// and the storage must hold a record.
pub open spec fn spec_load(program_id: Address, user: AccountRef, vault: AccountRef, data: Seq<u8>) -> Result<
    Vault,
    ProcessError,
> {
    if !user.is_signer {
        Err(ProcessError::MissingRequiredSignature)
    } else if vault.owner@ != program_id@ {
        Err(ProcessError::Vault(VaultError::VaultNotFound))
    } else {
        match spec_decode(data) {
            None => Err(ProcessError::InvalidAccountData),
            Some(v) => Ok(v),
        }
    }
}

/// Checks the signer and the storage of an operation and reads its record.
fn load(program_id: &Address, user: &AccountRef, vault: &AccountRef, data: &[u8]) -> (r: Result<
    Vault,
    ProcessError,
>)
    ensures
        r == spec_load(*program_id, *user, *vault, data@),
{
    if !user.is_signer {
        return Err(ProcessError::MissingRequiredSignature);
    }
    if !same_address(&vault.owner, program_id) {
        return Err(ProcessError::Vault(VaultError::VaultNotFound));
    }
    match Vault::decode(data) {
        Some(v) => Ok(v),
        None => Err(ProcessError::InvalidAccountData),
    }
}

/// The new record of a DepositAndMint of `amount`, and the debt it mints.
pub open spec fn spec_deposit_and_mint(
    program_id: Address,
    a: DepositAccounts,
    data: Seq<u8>,
    amount: u64,
    price: u64,
) -> Result<(Vault, u64), ProcessError> {
    match spec_load(program_id, a.user, a.vault, data) {
        Err(e) => Err(e),
        Ok(v) => match spec_deposit(v, amount, price) {
            Err(e) => Err(ProcessError::Vault(e)),
            Ok(res) => Ok(res),
        },
    }
}

/// The token calls of a DepositAndMint: the user's collateral moves into the
/// holding account on the user's signature, then the debt is minted to the user
/// under the engine's authority.
pub open spec fn spec_deposit_steps(
    a: DepositAccounts,
    amount: u64,
    debt: u64,
    authority: Address,
) -> Seq<TokenStep> {
    seq![
        TokenStep {
            action: TokenAction::Transfer {
                source: a.user_zbtc,
                destination: a.zbtc_vault,
                authority: a.user.key,
                amount,
            },
            delegated: false,
        },
        TokenStep {
            action: TokenAction::MintTo {
                mint: a.zusd_mint,
                destination: a.user_zusd,
                authority,
                amount: debt,
            },
            delegated: true,
        },
    ]
}

/// The new record of a RepayAndWithdraw of `amount`, and the collateral it releases.
pub open spec fn spec_repay_and_withdraw(
    program_id: Address,
    a: RepayAccounts,
    data: Seq<u8>,
    amount: u64,
    price: u64,
) -> Result<(Vault, u64), ProcessError> {
    match spec_load(program_id, a.user, a.vault, data) {
        Err(e) => Err(e),
        Ok(v) => match spec_repay(v, amount, price) {
            Err(e) => Err(ProcessError::Vault(e)),
            Ok(res) => Ok(res),
        },
    }
}

/// The token calls of a RepayAndWithdraw: the debt is burnt from the user's
/// account on the user's signature, then the collateral moves back to the user
/// under the engine's authority.
pub open spec fn spec_repay_steps(
    a: RepayAccounts,
    amount: u64,
    collateral: u64,
    authority: Address,
) -> Seq<TokenStep> {
    seq![
        TokenStep {
            action: TokenAction::Burn {
                account: a.user_zusd,
                mint: a.zusd_mint,
                owner: a.user.key,
                amount,
            },
            delegated: false,
        },
        TokenStep {
            action: TokenAction::Transfer {
                source: a.zbtc_vault,
                destination: a.user_zbtc,
                authority,
                amount: collateral,
            },
            delegated: true,
        },
    ]
}

/// Whether `auth` is the identity derived from `seed` for `program_id`.
pub open spec fn derived_from(auth: Authority, seed: Seq<char>, program_id: Address) -> bool {
    &&& auth.seed@ == seed
    &&& program_address_of(seed, program_id@) == Some((auth.address@, auth.bump))
}

/// Whether `r` is the plan with `record` and the steps that `steps` gives for
/// the identity derived from `seed`, signed by that identity, or the refusal owed
/// when no identity can be derived.
pub open spec fn plan_matches(
    r: Result<Plan, ProcessError>,
    record: Vault,
    steps: spec_fn(Address) -> Seq<TokenStep>,
    seed: Seq<char>,
    program_id: Address,
) -> bool {
    if program_address_of(seed, program_id@) is None {
        r == Err::<Plan, ProcessError>(ProcessError::InvalidSeeds)
    } else {
        r matches Ok(p) && p.record == record && p.steps@ == steps(p.authority.address)
            && derived_from(
            p.authority,
            seed,
            program_id,
        )
    }
}

/// Decides a DepositAndMint of `amount` collateral units at `price`, on the vault
/// storage holding `data`. Nothing is to be done unless the whole operation can be.
pub fn process_deposit_and_mint(
    program_id: &Address,
    a: &DepositAccounts,
    data: &[u8],
    amount: u64,
    price: u64,
) -> (r: Result<Plan, ProcessError>)
    ensures
        match spec_deposit_and_mint(*program_id, *a, data@, amount, price) {
            Err(e) => r == Err::<Plan, ProcessError>(e),
            Ok((v, debt)) => plan_matches(
                r,
                v,
                |auth: Address| spec_deposit_steps(*a, amount, debt, auth),
                VAULT_SEED@,
                *program_id,
            ),
        },
{
    let v = load(program_id, &a.user, &a.vault, data)?;
    let (record, debt) = match deposit(&v, amount, price) {
        Ok(res) => res,
        Err(e) => return Err(ProcessError::Vault(e)),
    };
    let authority = derive_authority(VAULT_SEED, program_id)?;
    let steps = vec![
        TokenStep {
            action: TokenAction::Transfer {
                source: a.user_zbtc,
                destination: a.zbtc_vault,
                authority: a.user.key,
                amount,
            },
            delegated: false,
        },
        TokenStep {
            action: TokenAction::MintTo {
                mint: a.zusd_mint,
                destination: a.user_zusd,
                authority: authority.address,
                amount: debt,
            },
            delegated: true,
        },
    ];
    proof {
        assert(steps@ =~= spec_deposit_steps(*a, amount, debt, authority.address));
    }
    Ok(Plan { record, steps, authority })
}

/// Decides a RepayAndWithdraw of `amount` debt units at `price`, on the vault
/// storage holding `data`. Nothing is to be done unless the whole operation can be.
/// `price` is the price at repayment time, not the one in force when the debt was
/// minted: the collateral released follows the current price, so a price change
/// since the deposit changes how much a given repayment frees.
pub fn process_repay_and_withdraw(
    program_id: &Address,
    a: &RepayAccounts,
    data: &[u8],
    amount: u64,
    price: u64,
) -> (r: Result<Plan, ProcessError>)
    ensures
        match spec_repay_and_withdraw(*program_id, *a, data@, amount, price) {
            Err(e) => r == Err::<Plan, ProcessError>(e),
            Ok((v, collateral)) => plan_matches(
                r,
                v,
                |auth: Address| spec_repay_steps(*a, amount, collateral, auth),
                VAULT_SEED@,
                *program_id,
            ),
        },
{
    let v = load(program_id, &a.user, &a.vault, data)?;
    let (record, collateral) = match repay(&v, amount, price) {
        Ok(res) => res,
        Err(e) => return Err(ProcessError::Vault(e)),
    };
    let authority = derive_authority(VAULT_SEED, program_id)?;
    let steps = vec![
        TokenStep {
            action: TokenAction::Burn {
                account: a.user_zusd,
                mint: a.zusd_mint,
                owner: a.user.key,
                amount,
            },
            delegated: false,
        },
        TokenStep {
            action: TokenAction::Transfer {
                source: a.zbtc_vault,
                destination: a.user_zbtc,
                authority: authority.address,
                amount: collateral,
            },
            delegated: true,
        },
    ];
    proof {
        assert(steps@ =~= spec_repay_steps(*a, amount, collateral, authority.address));
    }
    Ok(Plan { record, steps, authority })
}

} // verus!


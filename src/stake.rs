use vstd::prelude::*;
use crate::authority::{derive_authority, program_address_of, Authority};
use crate::engine::{AccountRef, TokenAction, TokenStep};
use crate::error::ProcessError;
use crate::vault::Address;

verus! {

/// Seed label of the identity that mints staked tokens.
pub const MINT_AUTHORITY_SEED: &'static str = "mint_authority";

/// Seed label of the identity that releases debt tokens from the staking vault.
pub const VAULT_AUTHORITY_SEED: &'static str = "vault_authority";

/// The configuration record of the swap: who administers it, the two mints, and
/// the account where staked debt tokens are held.
#[derive(Debug, Clone, Copy)]
pub struct StakingState {
    pub admin: Address,
    pub zusd_mint: Address,
    pub szusd_mint: Address,
    pub staking_vault: Address,
}

/// The accounts of a Stake or Unstake request.
#[derive(Debug, Clone, Copy)]
pub struct StakeAccounts {
    pub user: AccountRef,
    pub user_zusd: Address,
    pub user_szusd: Address,
    pub zusd_mint: Address,
    pub szusd_mint: Address,
    pub staking_vault: Address,
}

/// The token calls of an accepted swap, in order, and the authority that signs
/// the delegated ones.
#[derive(Debug)]
pub struct SwapPlan {
    pub steps: Vec<TokenStep>,
    pub authority: Authority,
}

/// Staking: the user's debt tokens move into the staking vault on the user's
/// signature, then as many staked tokens are minted to the user under `authority`.
pub open spec fn spec_stake_steps(a: StakeAccounts, amount: u64, authority: Address) -> Seq<TokenStep> {
    seq![
        TokenStep {
            action: TokenAction::Transfer {
                source: a.user_zusd,
                destination: a.staking_vault,
                authority: a.user.key,
                amount,
            },
            delegated: false,
        },
        TokenStep {
            action: TokenAction::MintTo {
                mint: a.szusd_mint,
                destination: a.user_szusd,
                authority,
                amount,
            },
            delegated: true,
        },
    ]
}

/// Unstaking: the user's staked tokens are burnt on the user's signature, then as
/// many debt tokens move back from the staking vault under `authority`.
pub open spec fn spec_unstake_steps(a: StakeAccounts, amount: u64, authority: Address) -> Seq<TokenStep> {
    seq![
        TokenStep {
            action: TokenAction::Burn {
                account: a.user_szusd,
                mint: a.szusd_mint,
                owner: a.user.key,
                amount,
            },
            delegated: false,
        },
        TokenStep {
            action: TokenAction::Transfer {
                source: a.staking_vault,
                destination: a.user_zusd,
                authority,
                amount,
            },
            delegated: true,
        },
    ]
}

/// Whether `r` is the swap signed by the identity derived from `seed` whose steps
/// `steps` gives for that identity, or the refusal owed for `a` and `seed`.
pub open spec fn swap_matches(
    r: Result<SwapPlan, ProcessError>,
    a: StakeAccounts,
    seed: Seq<char>,
    program_id: Address,
    steps: spec_fn(Address) -> Seq<TokenStep>,
) -> bool {
    if !a.user.is_signer {
        r == Err::<SwapPlan, ProcessError>(ProcessError::MissingRequiredSignature)
    } else if program_address_of(seed, program_id@) is None {
        r == Err::<SwapPlan, ProcessError>(ProcessError::InvalidSeeds)
    } else {
        r matches Ok(p) && p.steps@ == steps(p.authority.address) && p.authority.seed@ == seed
            && program_address_of(seed, program_id@) == Some(
            (p.authority.address@, p.authority.bump),
        )
    }
}

/// Decides a Stake of `amount` debt tokens for as many staked tokens.
pub fn process_stake(program_id: &Address, a: &StakeAccounts, amount: u64) -> (r: Result<
    SwapPlan,
    ProcessError,
>)
    ensures
        swap_matches(
            r,
            *a,
            MINT_AUTHORITY_SEED@,
            *program_id,
            |auth: Address| spec_stake_steps(*a, amount, auth),
        ),
{
    if !a.user.is_signer {
        return Err(ProcessError::MissingRequiredSignature);
    }
    let authority = derive_authority(MINT_AUTHORITY_SEED, program_id)?;
    let steps = vec![
        TokenStep {
            action: TokenAction::Transfer {
                source: a.user_zusd,
                destination: a.staking_vault,
                authority: a.user.key,
                amount,
            },
            delegated: false,
        },
        TokenStep {
            action: TokenAction::MintTo {
                mint: a.szusd_mint,
                destination: a.user_szusd,
                authority: authority.address,
                amount,
            },
            delegated: true,
        },
    ];
    proof {
        assert(steps@ =~= spec_stake_steps(*a, amount, authority.address));
    }
    Ok(SwapPlan { steps, authority })
}

/// Decides an Unstake of `amount` staked tokens for as many debt tokens.
pub fn process_unstake(program_id: &Address, a: &StakeAccounts, amount: u64) -> (r: Result<
    SwapPlan,
    ProcessError,
>)
    ensures
        swap_matches(
            r,
            *a,
            VAULT_AUTHORITY_SEED@,
            *program_id,
            |auth: Address| spec_unstake_steps(*a, amount, auth),
        ),
{
    if !a.user.is_signer {
        return Err(ProcessError::MissingRequiredSignature);
    }
    let authority = derive_authority(VAULT_AUTHORITY_SEED, program_id)?;
    let steps = vec![
        TokenStep {
            action: TokenAction::Burn {
                account: a.user_szusd,
                mint: a.szusd_mint,
                owner: a.user.key,
                amount,
            },
            delegated: false,
        },
        TokenStep {
            action: TokenAction::Transfer {
                source: a.staking_vault,
                destination: a.user_zusd,
                authority: authority.address,
                amount,
            },
            delegated: true,
        },
    ];
    proof {
        assert(steps@ =~= spec_unstake_steps(*a, amount, authority.address));
    }
    Ok(SwapPlan { steps, authority })
}

} // verus!

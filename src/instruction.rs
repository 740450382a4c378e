use vstd::prelude::*;
use crate::error::{StakingError, VaultError};

verus! {

/// The value of the first eight bytes of `b`, read as a little-endian unsigned integer.
pub open spec fn le_u64(b: Seq<u8>) -> int {
    b[0] as int + b[1] as int * 0x100 + b[2] as int * 0x1_0000 + b[3] as int * 0x100_0000
        + b[4] as int * 0x1_0000_0000 + b[5] as int * 0x100_0000_0000
        + b[6] as int * 0x1_0000_0000_0000 + b[7] as int * 0x100_0000_0000_0000
}

/// Reads the little-endian unsigned integer held in `b[0..8]`.
fn read_le_u64(b: &[u8]) -> (r: u64)
    requires
        b@.len() >= 8,
    ensures
        r as int == le_u64(b@),
{
    (b[0] as u64) + (b[1] as u64) * 0x100 + (b[2] as u64) * 0x1_0000 + (b[3] as u64) * 0x100_0000
        + (b[4] as u64) * 0x1_0000_0000 + (b[5] as u64) * 0x100_0000_0000
        + (b[6] as u64) * 0x1_0000_0000_0000 + (b[7] as u64) * 0x100_0000_0000_0000
}

/// A request to the vault engine.
#[derive(Debug, Clone, Copy, PartialEq, Eq, Structural)]
pub enum VaultInstruction {
    /// Create (or re-initialize) a vault record.
    Initialize,
    /// Lock `zbtc_amount` collateral units and mint debt tokens against them.
    DepositAndMint { zbtc_amount: u64 },
    /// Burn `zusd_amount` debt tokens and release the collateral they stand for.
    RepayAndWithdraw { zusd_amount: u64 },
}

/// The request encoded by `input`: a tag byte, followed for tags 1 and 2 by an
/// eight-byte little-endian amount (bytes after the amount are ignored).
pub open spec fn spec_unpack(input: Seq<u8>) -> Result<VaultInstruction, VaultError> {
    if input.len() == 0 {
        Err(VaultError::InvalidInstruction)
    } else if input[0] == 0 {
        Ok(VaultInstruction::Initialize)
    } else if input[0] == 1 || input[0] == 2 {
        if input.len() < 9 {
            Err(VaultError::InvalidInstruction)
        } else {
            let amount = le_u64(input.drop_first()) as u64;
            if input[0] == 1 {
                Ok(VaultInstruction::DepositAndMint { zbtc_amount: amount })
            } else {
                Ok(VaultInstruction::RepayAndWithdraw { zusd_amount: amount })
            }
        }
    } else {
        Err(VaultError::InvalidInstruction)
    }
}

impl VaultInstruction {
    /// Decodes a request from its wire form.
    pub fn unpack(input: &[u8]) -> (r: Result<VaultInstruction, VaultError>)
        ensures
            r == spec_unpack(input@),
    {
        if input.len() == 0 {
            return Err(VaultError::InvalidInstruction);
        }
        let tag = input[0];
        let rest = slice_from(input, 1);
        if tag == 0 {
            Ok(VaultInstruction::Initialize)
        } else if tag == 1 {
            let zbtc_amount = Self::unpack_amount(rest)?;
            Ok(VaultInstruction::DepositAndMint { zbtc_amount })
        } else if tag == 2 {
            let zusd_amount = Self::unpack_amount(rest)?;
            Ok(VaultInstruction::RepayAndWithdraw { zusd_amount })
        } else {
            Err(VaultError::InvalidInstruction)
        }
    }

    /// Reads an amount from the first eight bytes of `input`.
    pub fn unpack_amount(input: &[u8]) -> (r: Result<u64, VaultError>)
        ensures
            input@.len() >= 8 ==> r == Ok::<u64, VaultError>(le_u64(input@) as u64),
            input@.len() < 8 ==> r == Err::<u64, VaultError>(VaultError::InvalidInstruction),
    {
        if input.len() < 8 {
            Err(VaultError::InvalidInstruction)
        } else {
            Ok(read_le_u64(input))
        }
    }
}

/// The part of `s` from index `start` on.
fn slice_from(s: &[u8], start: usize) -> (r: &[u8])
    requires
        start <= s@.len(),
    ensures
        r@ == s@.subrange(start as int, s@.len() as int),
{
    vstd::slice::slice_subrange(s, start, s.len())
}

/// A request to the stake/unstake swap.
#[derive(Debug, Clone, Copy, PartialEq, Eq, Structural)]
pub enum StakingInstruction {
    /// Lock `amount` debt tokens and receive as many staked tokens.
    Stake { amount: u64 },
    /// Burn `amount` staked tokens and receive as many debt tokens back.
    Unstake { amount: u64 },
}

/// The swap request encoded by `input`: exactly a tag byte (0 or 1) and an
/// eight-byte little-endian amount.
pub open spec fn spec_unpack_staking(input: Seq<u8>) -> Result<StakingInstruction, StakingError> {
    if input.len() != 9 || input[0] > 1 {
        Err(StakingError::InvalidInstruction)
    } else if input[0] == 0 {
        Ok(StakingInstruction::Stake { amount: le_u64(input.drop_first()) as u64 })
    } else {
        Ok(StakingInstruction::Unstake { amount: le_u64(input.drop_first()) as u64 })
    }
}

impl StakingInstruction {
    /// Decodes a swap request from its wire form; every byte must be used.
    pub fn unpack(input: &[u8]) -> (r: Result<StakingInstruction, StakingError>)
        ensures
            r == spec_unpack_staking(input@),
    {
        if input.len() != 9 || input[0] > 1 {
            return Err(StakingError::InvalidInstruction);
        }
        let rest = slice_from(input, 1);
        let amount = read_le_u64(rest);
        if input[0] == 0 {
            Ok(StakingInstruction::Stake { amount })
        } else {
            Ok(StakingInstruction::Unstake { amount })
        }
    }
}

} // verus!

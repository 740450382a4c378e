use vstd::prelude::*;

verus! {

/// Errors specific to the vault engine.
#[derive(Debug, Clone, Copy, PartialEq, Eq, Structural)]
pub enum VaultError {
    InvalidInstruction,
    NotRentExempt,
    InsufficientCollateral,
    VaultNotFound,
    MathOverflow,
}

impl VaultError {
    /// The numeric code under which the host reports this error.
    pub open spec fn spec_code(self) -> u32 {
        match self {
            VaultError::InvalidInstruction => 0,
            VaultError::NotRentExempt => 1,
            VaultError::InsufficientCollateral => 2,
            VaultError::VaultNotFound => 3,
            VaultError::MathOverflow => 4,
        }
    }

    pub fn code(&self) -> (r: u32)
        ensures
            r == self.spec_code(),
    {
        match self {
            VaultError::InvalidInstruction => 0,
            VaultError::NotRentExempt => 1,
            VaultError::InsufficientCollateral => 2,
            VaultError::VaultNotFound => 3,
            VaultError::MathOverflow => 4,
        }
    }

    /// A short human-readable description.
    pub fn message(&self) -> (r: &'static str) {
        match self {
            VaultError::InvalidInstruction => "Invalid instruction",
            VaultError::NotRentExempt => "Not rent exempt",
            VaultError::InsufficientCollateral => "Insufficient collateral",
            VaultError::VaultNotFound => "Vault not found",
            VaultError::MathOverflow => "Math overflow",
        }
    }
}

/// Why an operation on a vault was refused.
#[derive(Debug, Clone, Copy, PartialEq, Eq, Structural)]
pub enum ProcessError {
    /// The account that must authorize the operation did not sign it.
    MissingRequiredSignature,
    /// The stored vault record is too short to hold a record.
    InvalidAccountData,
    /// No signing identity can be derived from the seed label.
    InvalidSeeds,
    /// An error of the vault engine itself.
    Vault(VaultError),
}

/// Errors of the stake/unstake swap.
#[derive(Debug, Clone, Copy, PartialEq, Eq, Structural)]
pub enum StakingError {
    InvalidInstruction,
    InsufficientFunds,
}

impl StakingError {
    pub open spec fn spec_code(self) -> u32 {
        match self {
            StakingError::InvalidInstruction => 0,
            StakingError::InsufficientFunds => 1,
        }
    }

    pub fn code(&self) -> (r: u32)
        ensures
            r == self.spec_code(),
    {
        match self {
            StakingError::InvalidInstruction => 0,
            StakingError::InsufficientFunds => 1,
        }
    }
}

} // verus!

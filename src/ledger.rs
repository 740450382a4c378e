use vstd::prelude::*;
use crate::error::VaultError;
use crate::vault::Vault;

verus! {

/// Debt issued against `collateral` units at `price` and `ltv` percent:
/// `collateral * price * ltv / 100`, rounded down, each product checked in turn.
pub open spec fn spec_debt_for(collateral: u64, price: u64, ltv: u8) -> Result<u64, VaultError> {
    let a = collateral as int * price as int;
    let b = a * ltv as int;
    if a > u64::MAX || b > u64::MAX {
        Err(VaultError::MathOverflow)
    } else {
        Ok((b / 100) as u64)
    }
}

/// Collateral released for `debt` repaid at `price` and `ltv` percent:
/// `debt * 100 / (price * ltv)`, rounded down, the divisor computed first and
/// checked, as is the product and the division.
pub open spec fn spec_collateral_for(debt: u64, price: u64, ltv: u8) -> Result<u64, VaultError> {
    let n = debt as int * 100;
    let d = price as int * ltv as int;
    if n > u64::MAX || d > u64::MAX || d == 0 {
        Err(VaultError::MathOverflow)
    } else {
        Ok((n / d) as u64)
    }
}

/// The record after locking `collateral` more units, with the debt minted for them.
pub open spec fn spec_deposit(v: Vault, collateral: u64, price: u64) -> Result<(Vault, u64), VaultError> {
    match spec_debt_for(collateral, price, v.ltv_ratio) {
        Err(e) => Err(e),
        Ok(debt) => {
            let locked = v.locked_zbtc_amount as int + collateral as int;
            let minted = v.minted_zusd_amount as int + debt as int;
            if locked > u64::MAX || minted > u64::MAX {
                Err(VaultError::MathOverflow)
            } else {
                Ok(
                    (
                        Vault {
                            locked_zbtc_amount: locked as u64,
                            minted_zusd_amount: minted as u64,
                            ..v
                        },
                        debt,
                    ),
                )
            }
        },
    }
}

/// The record after repaying `debt`, with the collateral that it releases.
pub open spec fn spec_repay(v: Vault, debt: u64, price: u64) -> Result<(Vault, u64), VaultError> {
    match spec_collateral_for(debt, price, v.ltv_ratio) {
        Err(e) => Err(e),
        Ok(collateral) => {
            if collateral > v.locked_zbtc_amount {
                Err(VaultError::InsufficientCollateral)
            } else if debt > v.minted_zusd_amount {
                Err(VaultError::MathOverflow)
            } else {
                Ok(
                    (
                        Vault {
                            locked_zbtc_amount: (v.locked_zbtc_amount - collateral) as u64,
                            minted_zusd_amount: (v.minted_zusd_amount - debt) as u64,
                            ..v
                        },
                        collateral,
                    ),
                )
            }
        },
    }
}

/// Debt minted for `collateral` units at `price` and ratio `ltv`.
pub fn debt_for(collateral: u64, price: u64, ltv: u8) -> (r: Result<u64, VaultError>)
    ensures
        r == spec_debt_for(collateral, price, ltv),
{
    let a = match collateral.checked_mul(price) {
        Some(a) => a,
        None => return Err(VaultError::MathOverflow),
    };
    let b = match a.checked_mul(ltv as u64) {
        Some(b) => b,
        None => return Err(VaultError::MathOverflow),
    };
    Ok(b / 100)
}

/// Collateral released for `debt` repaid at `price` and ratio `ltv`.
pub fn collateral_for(debt: u64, price: u64, ltv: u8) -> (r: Result<u64, VaultError>)
    ensures
        r == spec_collateral_for(debt, price, ltv),
{
    let n = match debt.checked_mul(100) {
        Some(n) => n,
        None => return Err(VaultError::MathOverflow),
    };
    let d = match price.checked_mul(ltv as u64) {
        Some(d) => d,
        None => return Err(VaultError::MathOverflow),
    };
    if d == 0 {
        return Err(VaultError::MathOverflow);
    }
    Ok(n / d)
}

/// Locks `collateral` in `v` and records the debt minted for it at `price`.
/// Returns the new record and the debt minted; on an error `v` is left as it was.
pub fn deposit(v: &Vault, collateral: u64, price: u64) -> (r: Result<(Vault, u64), VaultError>)
    ensures
        r == spec_deposit(*v, collateral, price),
{
    let debt = debt_for(collateral, price, v.ltv_ratio)?;
    let locked = match v.locked_zbtc_amount.checked_add(collateral) {
        Some(x) => x,
        None => return Err(VaultError::MathOverflow),
    };
    let minted = match v.minted_zusd_amount.checked_add(debt) {
        Some(x) => x,
        None => return Err(VaultError::MathOverflow),
    };
    Ok((Vault { locked_zbtc_amount: locked, minted_zusd_amount: minted, ..*v }, debt))
}

/// Records the repayment of `debt` in `v` at `price` and releases the collateral
/// it stands for. Returns the new record and the collateral released; on an error
/// `v` is left as it was.
pub fn repay(v: &Vault, debt: u64, price: u64) -> (r: Result<(Vault, u64), VaultError>)
    ensures
        r == spec_repay(*v, debt, price),
{
    let collateral = collateral_for(debt, price, v.ltv_ratio)?;
    if collateral > v.locked_zbtc_amount {
        return Err(VaultError::InsufficientCollateral);
    }
    if debt > v.minted_zusd_amount {
        return Err(VaultError::MathOverflow);
    }
    Ok(
        (
            Vault {
                locked_zbtc_amount: v.locked_zbtc_amount - collateral,
                minted_zusd_amount: v.minted_zusd_amount - debt,
                ..*v
            },
            collateral,
        ),
    )
}

} // verus!

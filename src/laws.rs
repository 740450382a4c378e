use vstd::prelude::*;
use crate::instruction::VaultInstruction;
use crate::engine::{
    spec_deposit_and_mint, spec_initialize, spec_load, spec_repay_and_withdraw, AccountRef,
    DepositAccounts, InitializeAccounts, RepayAccounts,
};
use crate::error::{ProcessError, VaultError};
use crate::ledger::{spec_collateral_for, spec_debt_for, spec_deposit, spec_repay};
use crate::vault::{lemma_decode_encode, lemma_encode_injective, spec_encode, Address, Vault, VAULT_LEN};

verus! {

/// Amounts never wrap around. A deposit that succeeds adds exactly the deposited
/// collateral and the minted debt to the two amounts, as unbounded integers, and a
/// deposit whose exact sums do not fit fails with `MathOverflow`; a repayment that
/// succeeds takes exactly the released collateral and the repaid debt away, and
/// neither can go below zero. On any error no new record exists.
pub proof fn lemma_amounts_never_wrap(v: Vault, amount: u64, price: u64)
    ensures
        spec_deposit(v, amount, price) matches Ok((n, debt)) ==> n.locked_zbtc_amount as int
            == v.locked_zbtc_amount as int + amount as int && n.minted_zusd_amount as int
            == v.minted_zusd_amount as int + debt as int,
        spec_debt_for(amount, price, v.ltv_ratio) matches Ok(debt) ==> (v.locked_zbtc_amount as int
            + amount as int > u64::MAX || v.minted_zusd_amount as int + debt as int > u64::MAX)
            ==> spec_deposit(v, amount, price) == Err::<(Vault, u64), VaultError>(
            VaultError::MathOverflow,
        ),
        spec_repay(v, amount, price) matches Ok((n, released)) ==> released <= v.locked_zbtc_amount
            && amount <= v.minted_zusd_amount && n.locked_zbtc_amount as int
            == v.locked_zbtc_amount as int - released as int && n.minted_zusd_amount as int
            == v.minted_zusd_amount as int - amount as int,
{
}

/// Collateral and debt move together: a deposit never lowers either amount, a
/// repayment never raises either, and neither touches the identities or the
/// ratio of the record.
pub proof fn lemma_amounts_move_together(v: Vault, amount: u64, price: u64)
    ensures
        spec_deposit(v, amount, price) matches Ok((n, _)) ==> n.locked_zbtc_amount
            >= v.locked_zbtc_amount && n.minted_zusd_amount >= v.minted_zusd_amount && n
            == (Vault { locked_zbtc_amount: n.locked_zbtc_amount, minted_zusd_amount: n.minted_zusd_amount, ..v }),
        spec_repay(v, amount, price) matches Ok((n, _)) ==> n.locked_zbtc_amount
            <= v.locked_zbtc_amount && n.minted_zusd_amount <= v.minted_zusd_amount && n
            == (Vault { locked_zbtc_amount: n.locked_zbtc_amount, minted_zusd_amount: n.minted_zusd_amount, ..v }),
{
}

/// A repayment whose computed collateral exceeds what is locked fails with
/// `InsufficientCollateral`, and no repayment releases more than is locked.
pub proof fn lemma_withdrawal_bound(v: Vault, amount: u64, price: u64)
    ensures
        spec_collateral_for(amount, price, v.ltv_ratio) matches Ok(c) ==> c > v.locked_zbtc_amount
            ==> spec_repay(v, amount, price) == Err::<(Vault, u64), VaultError>(
            VaultError::InsufficientCollateral,
        ),
        spec_repay(v, amount, price) matches Ok((_, c)) ==> c <= v.locked_zbtc_amount,
{
}

/// Repaying, at an unchanged price, the debt that a deposit minted never releases
/// more collateral than that deposit locked.
pub proof fn lemma_repay_after_deposit(v: Vault, amount: u64, price: u64)
    ensures
        spec_deposit(v, amount, price) matches Ok((n, debt)) ==> (spec_collateral_for(
            debt,
            price,
            n.ltv_ratio,
        ) matches Ok(c) ==> c <= amount),
{
    if spec_deposit(v, amount, price) is Ok {
        let debt = spec_deposit(v, amount, price)->Ok_0.1;
        let d = price as int * v.ltv_ratio as int;
        let total = amount as int * d;
        assert(amount as int * price as int * v.ltv_ratio as int == total) by (nonlinear_arith)
            requires
                total == amount as int * d,
                d == price as int * v.ltv_ratio as int,
        ;
        assert(debt as int == total / 100);
        if d > 0 {
            assert(debt as int * 100 <= total);
            assert((debt as int * 100) / d <= total / d) by (nonlinear_arith)
                requires
                    debt as int * 100 <= total,
                    d > 0,
            ;
            assert(total / d == amount as int) by (nonlinear_arith)
                requires
                    total == amount as int * d,
                    d > 0,
            ;
        }
    }
}

/// Initialize never resets a position: when the engine already administers the
/// storage and the stored record has collateral or debt, that record is kept.
pub proof fn lemma_initialize_keeps_position(
    program_id: Address,
    a: InitializeAccounts,
    v: Vault,
    rest: Seq<u8>,
)
    requires
        a.owner.is_signer,
        a.vault.owner@ == program_id@,
        v.locked_zbtc_amount != 0 || v.minted_zusd_amount != 0,
    ensures
        spec_initialize(program_id, a, spec_encode(v) + rest) matches Ok(p) && p.record == v
            && !p.create_account,
{
    vstd::bytes::lemma_auto_spec_u64_to_from_le_bytes();
    let data = spec_encode(v) + rest;
    assert(data.subrange(0, VAULT_LEN as int) =~= spec_encode(v));
    let w = choose|w: Vault| spec_encode(w) == data.subrange(0, VAULT_LEN as int);
    lemma_encode_injective(v, w);
}

/// Initialize is idempotent: repeating it with the same accounts on the storage
/// that the first call provisioned and wrote stores the same record again.
pub proof fn lemma_initialize_idempotent(program_id: Address, a: InitializeAccounts, data: Seq<u8>)
    requires
        spec_initialize(program_id, a, data) is Ok,
    ensures
        ({
            let first = spec_initialize(program_id, a, data)->Ok_0;
            let again = InitializeAccounts {
                vault: AccountRef { owner: program_id, ..a.vault },
                ..a
            };
            spec_initialize(program_id, again, spec_encode(first.record)) matches Ok(p)
                && p.record == first.record && !p.create_account
        }),
{
    let first = spec_initialize(program_id, a, data)->Ok_0;
    lemma_decode_encode(first.record);
}

/// The record after one request at `price`: a deposit or repayment that fails
/// leaves the record as it was, and Initialize does not move amounts.
pub open spec fn spec_apply(v: Vault, op: VaultInstruction, price: u64) -> Vault {
    match op {
        VaultInstruction::DepositAndMint { zbtc_amount } => match spec_deposit(v, zbtc_amount, price) {
            Ok((n, _)) => n,
            Err(_) => v,
        },
        VaultInstruction::RepayAndWithdraw { zusd_amount } => match spec_repay(v, zusd_amount, price) {
            Ok((n, _)) => n,
            Err(_) => v,
        },
        VaultInstruction::Initialize => v,
    }
}

/// The collateral and debt that one request at `price` moves, as signed integers.
pub open spec fn spec_moved(v: Vault, op: VaultInstruction, price: u64) -> (int, int) {
    match op {
        VaultInstruction::DepositAndMint { zbtc_amount } => match spec_deposit(v, zbtc_amount, price) {
            Ok((_, debt)) => (zbtc_amount as int, debt as int),
            Err(_) => (0, 0),
        },
        VaultInstruction::RepayAndWithdraw { zusd_amount } => match spec_repay(v, zusd_amount, price) {
            Ok((_, released)) => (-released, -zusd_amount),
            Err(_) => (0, 0),
        },
        VaultInstruction::Initialize => (0, 0),
    }
}

/// The record after the requests `ops`, in order, at `price`.
pub open spec fn spec_run(v: Vault, ops: Seq<VaultInstruction>, price: u64) -> Vault
    decreases ops.len(),
{
    if ops.len() == 0 {
        v
    } else {
        spec_apply(spec_run(v, ops.drop_last(), price), ops.last(), price)
    }
}

/// The collateral and debt that the requests `ops` move in total.
pub open spec fn spec_total_moved(v: Vault, ops: Seq<VaultInstruction>, price: u64) -> (int, int)
    decreases ops.len(),
{
    if ops.len() == 0 {
        (0, 0)
    } else {
        let before = spec_total_moved(v, ops.drop_last(), price);
        let step = spec_moved(spec_run(v, ops.drop_last(), price), ops.last(), price);
        (before.0 + step.0, before.1 + step.1)
    }
}

/// Over any sequence of requests the amounts are exact running totals: the
/// locked collateral and the minted debt equal their starting values plus every
/// amount deposited or minted and minus every amount released or repaid, counted
/// as unbounded integers, so nothing ever wrapped around; the identities and the
/// ratio never change.
pub proof fn lemma_run_keeps_exact_totals(v: Vault, ops: Seq<VaultInstruction>, price: u64)
    ensures
        spec_run(v, ops, price).locked_zbtc_amount as int == v.locked_zbtc_amount as int
            + spec_total_moved(v, ops, price).0,
        spec_run(v, ops, price).minted_zusd_amount as int == v.minted_zusd_amount as int
            + spec_total_moved(v, ops, price).1,
        spec_run(v, ops, price) == (Vault {
            locked_zbtc_amount: spec_run(v, ops, price).locked_zbtc_amount,
            minted_zusd_amount: spec_run(v, ops, price).minted_zusd_amount,
            ..v
        }),
    decreases ops.len(),
{
    if ops.len() > 0 {
        let w = spec_run(v, ops.drop_last(), price);
        lemma_run_keeps_exact_totals(v, ops.drop_last(), price);
        match ops.last() {
            VaultInstruction::DepositAndMint { zbtc_amount } => {
                lemma_amounts_never_wrap(w, zbtc_amount, price);
            },
            VaultInstruction::RepayAndWithdraw { zusd_amount } => {
                lemma_amounts_never_wrap(w, zusd_amount, price);
            },
            VaultInstruction::Initialize => {},
        }
    }
}

/// At an unchanged price, repaying the whole debt that a deposit minted undoes
/// the deposit exactly when the value deposited is a whole multiple of 100
/// (collateral times price times ratio): the released collateral is the deposit
/// and the record is the one before it.
pub proof fn lemma_repay_undoes_deposit(v: Vault, amount: u64, price: u64)
    requires
        0 < price as int * v.ltv_ratio as int <= u64::MAX,
        (amount as int * price as int * v.ltv_ratio as int) % 100 == 0,
    ensures
        spec_deposit(v, amount, price) matches Ok((n, debt)) ==> spec_repay(n, debt, price) == Ok::<
            (Vault, u64),
            VaultError,
        >((v, amount)),
{
    if spec_deposit(v, amount, price) is Ok {
        let (n, debt) = spec_deposit(v, amount, price)->Ok_0;
        let d = price as int * v.ltv_ratio as int;
        let total = amount as int * price as int * v.ltv_ratio as int;
        assert(total == amount as int * d) by (nonlinear_arith)
            requires
                total == amount as int * price as int * v.ltv_ratio as int,
                d == price as int * v.ltv_ratio as int,
        ;
        assert(debt as int * 100 == total);
        assert(total / d == amount as int) by (nonlinear_arith)
            requires
                total == amount as int * d,
                d > 0,
        ;
        assert(spec_collateral_for(debt, price, n.ltv_ratio) == Ok::<u64, VaultError>(amount));
    }
}

/// Initialize never changes a ratio once set: on storage that the engine
/// administers, whose record has a ratio from 1 to 100, that ratio stays,
/// whatever the amounts.
pub proof fn lemma_initialize_keeps_ratio(
    program_id: Address,
    a: InitializeAccounts,
    v: Vault,
    rest: Seq<u8>,
)
    requires
        a.owner.is_signer,
        a.vault.owner@ == program_id@,
        1 <= v.ltv_ratio <= 100,
    ensures
        spec_initialize(program_id, a, spec_encode(v) + rest) matches Ok(p) && p.record.ltv_ratio
            == v.ltv_ratio,
{
    vstd::bytes::lemma_auto_spec_u64_to_from_le_bytes();
    let data = spec_encode(v) + rest;
    assert(data.subrange(0, VAULT_LEN as int) =~= spec_encode(v));
    let w = choose|w: Vault| spec_encode(w) == data.subrange(0, VAULT_LEN as int);
    lemma_encode_injective(v, w);
}

/// The operations move the stored record exactly as the ledger does: an
/// accepted DepositAndMint or RepayAndWithdraw stores `spec_apply` of the loaded
/// record, so the totals of `lemma_run_keeps_exact_totals` hold of the records
/// that the operations store, request after request.
pub proof fn lemma_operations_follow_ledger(
    program_id: Address,
    d: DepositAccounts,
    r: RepayAccounts,
    data: Seq<u8>,
    amount: u64,
    price: u64,
)
    ensures
        spec_deposit_and_mint(program_id, d, data, amount, price) matches Ok((n, _))
            ==> spec_load(program_id, d.user, d.vault, data) matches Ok(v) && n == spec_apply(
            v,
            VaultInstruction::DepositAndMint { zbtc_amount: amount },
            price,
        ),
        spec_repay_and_withdraw(program_id, r, data, amount, price) matches Ok((n, _))
            ==> spec_load(program_id, r.user, r.vault, data) matches Ok(v) && n == spec_apply(
            v,
            VaultInstruction::RepayAndWithdraw { zusd_amount: amount },
            price,
        ),
{
}

} // verus!



//! The variant that stakes a fungible token held in custody accounts apart
//! from the staker and pool records. The token transfer itself is made by the
//! host inside the same atomic unit; its outcome is handed to `stake` and
//! `withdraw`.
use vstd::prelude::*;

pub use crate::state::{
    initialize, Config, ErrorCode, Initialize, Pool, Staker, WithdrawalRequest,
};
use crate::state::{apply_stake, apply_unstake, apply_withdraw, matured_total, pending};

verus! {

/// Accounts of a stake: the staker's record and the pool's, with their keys.
#[derive(Clone, Debug, PartialEq, Eq)]
pub struct Stake {
    pub staker_key: [u8; 32],
    pub staker: Staker,
    pub pool_key: [u8; 32],
    pub pool: Pool,
}

/// Accounts of an unstake: the two records and the configuration.
#[derive(Clone, Debug, PartialEq, Eq)]
pub struct Unstake {
    pub staker_key: [u8; 32],
    pub staker: Staker,
    pub pool_key: [u8; 32],
    pub pool: Pool,
    pub config: Config,
}

/// Accounts of a withdrawal: the staker's record and the pool's.
#[derive(Clone, Debug, PartialEq, Eq)]
pub struct Withdraw {
    pub staker_key: [u8; 32],
    pub staker: Staker,
    pub pool_key: [u8; 32],
    pub pool: Pool,
}

/// Emitted when a stake has been recorded.
#[derive(Clone, Debug, PartialEq, Eq)]
pub struct StakeOccurred {
    pub staker: [u8; 32],
    pub pool: [u8; 32],
    pub amount: u64,
    pub to_pool: String,
}

/// Emitted when an unstake has created a withdrawal request.
#[derive(Clone, Debug, PartialEq, Eq)]
pub struct UnstakeRequested {
    pub staker: [u8; 32],
    pub pool: [u8; 32],
    pub amount: u64,
    pub unlock_time: i64,
    pub from_pool: String,
}

/// Emitted when matured requests have been paid out.
#[derive(Clone, Debug, PartialEq, Eq)]
pub struct WithdrawalOccurred {
    pub staker: [u8; 32],
    pub amount: u64,
}

/// Stakes `amount`. `transfer_succeeded` is the outcome of moving `amount`
/// tokens from the staker's token account to the pool's; both counters grow by
/// `amount` exactly when it is positive and the transfer succeeded.
pub fn stake(ctx: &mut Stake, amount: u64, to_pool: String, transfer_succeeded: bool) -> (r: Result<
    StakeOccurred,
    ErrorCode,
>)
    requires
        old(ctx).staker.balance + amount <= u64::MAX,
        old(ctx).pool.total_staked + amount <= u64::MAX,
    ensures
        amount == 0 ==> r == Err::<StakeOccurred, ErrorCode>(ErrorCode::InvalidAmount),
        amount > 0 && !transfer_succeeded ==> r == Err::<StakeOccurred, ErrorCode>(
            ErrorCode::TransferFailure,
        ),
        amount > 0 && transfer_succeeded ==> r is Ok,
        r is Ok ==> ({
            let ev = r->Ok_0;
            &&& final(ctx).staker.balance == old(ctx).staker.balance + amount
            &&& final(ctx).pool.total_staked == old(ctx).pool.total_staked + amount
            &&& final(ctx).staker.withdrawal_requests == old(ctx).staker.withdrawal_requests
            &&& final(ctx).staker_key == old(ctx).staker_key
            &&& final(ctx).pool_key == old(ctx).pool_key
            &&& ev.staker == old(ctx).staker_key
            &&& ev.pool == old(ctx).pool_key
            &&& ev.amount == amount
            &&& ev.to_pool@ == to_pool@
        }),
        r is Err ==> *final(ctx) == *old(ctx),
{
    apply_stake(&mut ctx.staker, &mut ctx.pool, amount, transfer_succeeded)?;
    Ok(StakeOccurred { staker: ctx.staker_key, pool: ctx.pool_key, amount, to_pool })
}

/// Unstakes `amount` at time `now`, sampled once: the stored request and the
/// event both carry the unlock time `now + lock_period`.
pub fn unstake(ctx: &mut Unstake, amount: u64, from_pool: String, now: i64) -> (r: Result<
    UnstakeRequested,
    ErrorCode,
>)
    requires
        old(ctx).staker.balance <= old(ctx).pool.total_staked,
        i64::MIN <= now + old(ctx).config.lock_period <= i64::MAX,
    ensures
        amount == 0 ==> r == Err::<UnstakeRequested, ErrorCode>(ErrorCode::InvalidAmount),
        amount > old(ctx).staker.balance && amount > 0 ==> r == Err::<UnstakeRequested, ErrorCode>(
            ErrorCode::InsufficientFunds,
        ),
        0 < amount <= old(ctx).staker.balance ==> r is Ok,
        r is Ok ==> ({
            let ev = r->Ok_0;
            let unlock_time = (now + old(ctx).config.lock_period) as i64;
            &&& final(ctx).staker.balance == old(ctx).staker.balance - amount
            &&& final(ctx).pool.total_staked == old(ctx).pool.total_staked - amount
            &&& final(ctx).staker.withdrawal_requests@ == old(ctx).staker.withdrawal_requests@.push(
                WithdrawalRequest { amount, unlock_time },
            )
            &&& final(ctx).config == old(ctx).config
            &&& final(ctx).staker_key == old(ctx).staker_key
            &&& final(ctx).pool_key == old(ctx).pool_key
            &&& ev.staker == old(ctx).staker_key
            &&& ev.pool == old(ctx).pool_key
            &&& ev.amount == amount
            &&& ev.unlock_time == unlock_time
            &&& ev.from_pool@ == from_pool@
        }),
        r is Err ==> *final(ctx) == *old(ctx),
        old(ctx).staker.wf() ==> final(ctx).staker.wf(),
{
    let unlock_time = now + ctx.config.lock_period;
    apply_unstake(&mut ctx.staker, &mut ctx.pool, amount, unlock_time)?;
    Ok(UnstakeRequested {
        staker: ctx.staker_key,
        pool: ctx.pool_key,
        amount,
        unlock_time,
        from_pool,
    })
}

/// Pays out every request matured at `now`. `transfer_succeeded` is the outcome
/// of moving their total (see `crate::state::withdrawable`) from the pool's
/// token account to the staker's. The pool's total is left alone: it shrank at
/// unstake time.
pub fn withdraw(ctx: &mut Withdraw, now: i64, transfer_succeeded: bool) -> (r: Result<
    WithdrawalOccurred,
    ErrorCode,
>)
    requires
        matured_total(old(ctx).staker.withdrawal_requests@, now) <= u64::MAX,
    ensures
        matured_total(old(ctx).staker.withdrawal_requests@, now) == 0 ==> r == Err::<
            WithdrawalOccurred,
            ErrorCode,
        >(ErrorCode::NoWithdrawableFunds),
        matured_total(old(ctx).staker.withdrawal_requests@, now) > 0 && !transfer_succeeded ==> r
            == Err::<WithdrawalOccurred, ErrorCode>(ErrorCode::TransferFailure),
        matured_total(old(ctx).staker.withdrawal_requests@, now) > 0 && transfer_succeeded ==> r is Ok,
        r is Ok ==> ({
            let ev = r->Ok_0;
            &&& final(ctx).staker.balance == old(ctx).staker.balance
            &&& final(ctx).staker.withdrawal_requests@ == pending(
                old(ctx).staker.withdrawal_requests@,
                now,
            )
            &&& final(ctx).pool == old(ctx).pool
            &&& final(ctx).staker_key == old(ctx).staker_key
            &&& final(ctx).pool_key == old(ctx).pool_key
            &&& ev.staker == old(ctx).staker_key
            &&& ev.amount as nat == matured_total(old(ctx).staker.withdrawal_requests@, now)
        }),
        r is Err ==> *final(ctx) == *old(ctx),
        old(ctx).staker.wf() ==> final(ctx).staker.wf(),
{
    let amount = apply_withdraw(&mut ctx.staker, now, transfer_succeeded)?;
    Ok(WithdrawalOccurred { staker: ctx.staker_key, amount })
}

} // verus!

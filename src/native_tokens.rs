//! The variant that stakes the native balance: value moves by adjusting the
//! lamport balances of the staker's and the pool's own accounts, in the same
//! atomic step as the counters.
use vstd::prelude::*;

pub use crate::state::{
    initialize, Config, ErrorCode, Initialize, Pool, Staker, WithdrawalRequest,
};
use crate::state::{apply_stake, apply_unstake, apply_withdraw, matured_total, pending, withdrawable};

verus! {

/// Accounts of a stake: both records with their keys and native balances.
#[derive(Clone, Debug, PartialEq, Eq)]
pub struct Stake {
    pub staker_key: [u8; 32],
    pub staker: Staker,
    pub staker_lamports: u64,
    pub pool_key: [u8; 32],
    pub pool: Pool,
    pub pool_lamports: u64,
}

/// Accounts of an unstake: the two records and the configuration.
#[derive(Clone, Debug, PartialEq, Eq)]
pub struct Unstake {
    pub staker_key: [u8; 32],
    pub staker: Staker,
    pub pool_key: [u8; 32],
    pub pool: Pool,
    pub config: Config,
}

/// Accounts of a withdrawal: both records with their keys and native balances.
#[derive(Clone, Debug, PartialEq, Eq)]
pub struct Withdraw {
    pub staker_key: [u8; 32],
    pub staker: Staker,
    pub staker_lamports: u64,
    pub pool_key: [u8; 32],
    pub pool: Pool,
    pub pool_lamports: u64,
}

/// Emitted when a stake has been recorded.
#[derive(Clone, Copy, Debug, PartialEq, Eq)]
pub struct StakeOccurred {
    pub staker: [u8; 32],
    pub pool: [u8; 32],
    pub amount: u64,
}

/// Emitted when an unstake has created a withdrawal request.
#[derive(Clone, Copy, Debug, PartialEq, Eq)]
pub struct UnstakeRequested {
    pub staker: [u8; 32],
    pub pool: [u8; 32],
    pub amount: u64,
    pub unlock_time: i64,
}

/// Emitted when matured requests have been paid out.
#[derive(Clone, Copy, Debug, PartialEq, Eq)]
pub struct WithdrawalOccurred {
    pub staker: [u8; 32],
    pub amount: u64,
}

/// Whether `amount` lamports can leave an account holding `from` and enter one
/// holding `to`.
pub open spec fn can_move(from: u64, to: u64, amount: u64) -> bool {
    amount <= from && to + amount <= u64::MAX
}

/// Stakes `amount`, moving it from the staker's native balance to the pool's.
/// The move fails when the staker holds too little or the pool's balance would
/// overflow.
pub fn stake(ctx: &mut Stake, amount: u64) -> (r: Result<StakeOccurred, ErrorCode>)
    requires
        old(ctx).staker.balance + amount <= u64::MAX,
        old(ctx).pool.total_staked + amount <= u64::MAX,
    ensures
        amount == 0 ==> r == Err::<StakeOccurred, ErrorCode>(ErrorCode::InvalidAmount),
        amount > 0 && !can_move(old(ctx).staker_lamports, old(ctx).pool_lamports, amount) ==> r
            == Err::<StakeOccurred, ErrorCode>(ErrorCode::TransferFailure),
        amount > 0 && can_move(old(ctx).staker_lamports, old(ctx).pool_lamports, amount) ==> r
            == Ok::<StakeOccurred, ErrorCode>(
            StakeOccurred { staker: old(ctx).staker_key, pool: old(ctx).pool_key, amount },
        ),
        r is Ok ==> ({
            &&& final(ctx).staker.balance == old(ctx).staker.balance + amount
            &&& final(ctx).pool.total_staked == old(ctx).pool.total_staked + amount
            &&& final(ctx).staker_lamports == old(ctx).staker_lamports - amount
            &&& final(ctx).pool_lamports == old(ctx).pool_lamports + amount
            &&& final(ctx).staker.withdrawal_requests == old(ctx).staker.withdrawal_requests
            &&& final(ctx).staker_key == old(ctx).staker_key
            &&& final(ctx).pool_key == old(ctx).pool_key
        }),
        r is Err ==> *final(ctx) == *old(ctx),
{
    let movable = amount <= ctx.staker_lamports && ctx.pool_lamports <= u64::MAX - amount;
    apply_stake(&mut ctx.staker, &mut ctx.pool, amount, movable)?;
    ctx.pool_lamports = ctx.pool_lamports + amount;
    ctx.staker_lamports = ctx.staker_lamports - amount;
    Ok(StakeOccurred { staker: ctx.staker_key, pool: ctx.pool_key, amount })
}

/// Unstakes `amount` at time `now`, sampled once: the stored request and the
/// event both carry the unlock time `now + lock_period`. No value moves.
pub fn unstake(ctx: &mut Unstake, amount: u64, now: i64) -> (r: Result<UnstakeRequested, ErrorCode>)
    requires
        old(ctx).staker.balance <= old(ctx).pool.total_staked,
        i64::MIN <= now + old(ctx).config.lock_period <= i64::MAX,
    ensures
        amount == 0 ==> r == Err::<UnstakeRequested, ErrorCode>(ErrorCode::InvalidAmount),
        amount > old(ctx).staker.balance && amount > 0 ==> r == Err::<UnstakeRequested, ErrorCode>(
            ErrorCode::InsufficientFunds,
        ),
        0 < amount <= old(ctx).staker.balance ==> r == Ok::<UnstakeRequested, ErrorCode>(
            UnstakeRequested {
                staker: old(ctx).staker_key,
                pool: old(ctx).pool_key,
                amount,
                unlock_time: (now + old(ctx).config.lock_period) as i64,
            },
        ),
        r is Ok ==> ({
            &&& final(ctx).staker.balance == old(ctx).staker.balance - amount
            &&& final(ctx).pool.total_staked == old(ctx).pool.total_staked - amount
            &&& final(ctx).staker.withdrawal_requests@ == old(ctx).staker.withdrawal_requests@.push(
                WithdrawalRequest {
                    amount,
                    unlock_time: (now + old(ctx).config.lock_period) as i64,
                },
            )
            &&& final(ctx).config == old(ctx).config
            &&& final(ctx).staker_key == old(ctx).staker_key
            &&& final(ctx).pool_key == old(ctx).pool_key
        }),
        r is Err ==> *final(ctx) == *old(ctx),
        old(ctx).staker.wf() ==> final(ctx).staker.wf(),
{
    let unlock_time = now + ctx.config.lock_period;
    apply_unstake(&mut ctx.staker, &mut ctx.pool, amount, unlock_time)?;
    Ok(UnstakeRequested { staker: ctx.staker_key, pool: ctx.pool_key, amount, unlock_time })
}

/// Pays out every request matured at `now`, moving their total from the pool's
/// native balance to the staker's. The pool's staked total is left alone: it
/// shrank at unstake time.
pub fn withdraw(ctx: &mut Withdraw, now: i64) -> (r: Result<WithdrawalOccurred, ErrorCode>)
    requires
        matured_total(old(ctx).staker.withdrawal_requests@, now) <= u64::MAX,
    ensures
        ({
            let total = matured_total(old(ctx).staker.withdrawal_requests@, now);
            &&& total == 0 ==> r == Err::<WithdrawalOccurred, ErrorCode>(
                ErrorCode::NoWithdrawableFunds,
            )
            &&& total > 0 && !can_move(old(ctx).pool_lamports, old(ctx).staker_lamports, total as u64)
                ==> r == Err::<WithdrawalOccurred, ErrorCode>(ErrorCode::TransferFailure)
            &&& total > 0 && can_move(old(ctx).pool_lamports, old(ctx).staker_lamports, total as u64)
                ==> r == Ok::<WithdrawalOccurred, ErrorCode>(
                WithdrawalOccurred { staker: old(ctx).staker_key, amount: total as u64 },
            )
            &&& r is Ok ==> {
                &&& final(ctx).staker.balance == old(ctx).staker.balance
                &&& final(ctx).staker.withdrawal_requests@ == pending(
                    old(ctx).staker.withdrawal_requests@,
                    now,
                )
                &&& final(ctx).staker_lamports == old(ctx).staker_lamports + total
                &&& final(ctx).pool_lamports == old(ctx).pool_lamports - total
                &&& final(ctx).pool == old(ctx).pool
                &&& final(ctx).staker_key == old(ctx).staker_key
                &&& final(ctx).pool_key == old(ctx).pool_key
            }
        }),
        r is Err ==> *final(ctx) == *old(ctx),
        old(ctx).staker.wf() ==> final(ctx).staker.wf(),
{
    let total = withdrawable(&ctx.staker, now).unwrap();
    let movable = total <= ctx.pool_lamports && ctx.staker_lamports <= u64::MAX - total;
    let amount = apply_withdraw(&mut ctx.staker, now, movable)?;
    ctx.staker_lamports = ctx.staker_lamports + amount;
    ctx.pool_lamports = ctx.pool_lamports - amount;
    Ok(WithdrawalOccurred { staker: ctx.staker_key, amount })
}

} // verus!

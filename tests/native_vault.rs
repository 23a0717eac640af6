use multistaking::native_tokens::{
    stake, unstake, withdraw, Config, ErrorCode, Pool, Stake, StakeOccurred, Staker, Unstake,
    UnstakeRequested, Withdraw, WithdrawalOccurred, WithdrawalRequest,
};

const STAKER: [u8; 32] = [7; 32];
const POOL: [u8; 32] = [9; 32];

fn req(amount: u64, unlock_time: i64) -> WithdrawalRequest {
    WithdrawalRequest { amount, unlock_time }
}

fn stake_ctx(staker_lamports: u64, pool_lamports: u64) -> Stake {
    Stake {
        staker_key: STAKER,
        staker: Staker { balance: 0, withdrawal_requests: vec![] },
        staker_lamports,
        pool_key: POOL,
        pool: Pool { total_staked: 0 },
        pool_lamports,
    }
}

fn withdraw_ctx(requests: Vec<WithdrawalRequest>, staker_lamports: u64, pool_lamports: u64) -> Withdraw {
    Withdraw {
        staker_key: STAKER,
        staker: Staker { balance: 0, withdrawal_requests: requests },
        staker_lamports,
        pool_key: POOL,
        pool: Pool { total_staked: 0 },
        pool_lamports,
    }
}

#[test]
fn native_stake_moves_lamports_and_counters() {
    let mut ctx = stake_ctx(1000, 50);
    let ev = stake(&mut ctx, 300).unwrap();
    assert_eq!(ev, StakeOccurred { staker: STAKER, pool: POOL, amount: 300 });
    assert_eq!(ctx.staker_lamports, 700);
    assert_eq!(ctx.pool_lamports, 350);
    assert_eq!(ctx.staker.balance, 300);
    assert_eq!(ctx.pool.total_staked, 300);
}

#[test]
fn native_stake_beyond_lamports_fails_whole() {
    let mut ctx = stake_ctx(100, 50);
    let before = ctx.clone();
    assert_eq!(stake(&mut ctx, 101), Err(ErrorCode::TransferFailure));
    assert_eq!(ctx, before);
}

#[test]
fn native_stake_overflowing_pool_lamports_fails() {
    let mut ctx = stake_ctx(100, u64::MAX);
    let before = ctx.clone();
    assert_eq!(stake(&mut ctx, 1), Err(ErrorCode::TransferFailure));
    assert_eq!(ctx, before);
}

#[test]
fn native_stake_zero_is_invalid() {
    let mut ctx = stake_ctx(100, 50);
    let before = ctx.clone();
    assert_eq!(stake(&mut ctx, 0), Err(ErrorCode::InvalidAmount));
    assert_eq!(ctx, before);
}

#[test]
fn native_unstake_uses_one_time_sample() {
    let mut ctx = Unstake {
        staker_key: STAKER,
        staker: Staker { balance: 40, withdrawal_requests: vec![] },
        pool_key: POOL,
        pool: Pool { total_staked: 90 },
        config: Config { lock_period: 30, total_staked: 0 },
    };
    let ev = unstake(&mut ctx, 15, 1000).unwrap();
    assert_eq!(ev, UnstakeRequested { staker: STAKER, pool: POOL, amount: 15, unlock_time: 1030 });
    assert_eq!(ctx.staker.withdrawal_requests, vec![req(15, 1030)]);
    assert_eq!(ctx.staker.balance, 25);
    assert_eq!(ctx.pool.total_staked, 75);
    let before = ctx.clone();
    assert_eq!(unstake(&mut ctx, 26, 1001), Err(ErrorCode::InsufficientFunds));
    assert_eq!(unstake(&mut ctx, 0, 1001), Err(ErrorCode::InvalidAmount));
    assert_eq!(ctx, before);
}

#[test]
fn native_withdraw_moves_matured_total_back() {
    let mut ctx = withdraw_ctx(vec![req(5, 10), req(6, 99), req(7, 20)], 1, 100);
    let ev = withdraw(&mut ctx, 20).unwrap();
    assert_eq!(ev, WithdrawalOccurred { staker: STAKER, amount: 12 });
    assert_eq!(ctx.staker_lamports, 13);
    assert_eq!(ctx.pool_lamports, 88);
    assert_eq!(ctx.staker.withdrawal_requests, vec![req(6, 99)]);
    assert_eq!(ctx.pool.total_staked, 0);
}

#[test]
fn native_withdraw_short_pool_fails_whole() {
    let mut ctx = withdraw_ctx(vec![req(5, 10), req(7, 20)], 1, 11);
    let before = ctx.clone();
    assert_eq!(withdraw(&mut ctx, 20), Err(ErrorCode::TransferFailure));
    assert_eq!(ctx, before);
}

#[test]
fn native_withdraw_nothing_matured() {
    let mut ctx = withdraw_ctx(vec![req(5, 10)], 1, 100);
    let before = ctx.clone();
    assert_eq!(withdraw(&mut ctx, 9), Err(ErrorCode::NoWithdrawableFunds));
    assert_eq!(ctx, before);
}

#[test]
fn native_lock_period_scenario() {
    let config = Config { lock_period: 100, total_staked: 0 };
    let mut s = stake_ctx(1000, 0);
    stake(&mut s, 500).unwrap();
    assert_eq!((s.staker.balance, s.pool.total_staked), (500, 500));
    assert_eq!((s.staker_lamports, s.pool_lamports), (500, 500));

    let mut u = Unstake { staker_key: STAKER, staker: s.staker, pool_key: POOL, pool: s.pool, config };
    unstake(&mut u, 200, 10).unwrap();
    assert_eq!((u.staker.balance, u.pool.total_staked), (300, 300));
    unstake(&mut u, 100, 50).unwrap();
    assert_eq!((u.staker.balance, u.pool.total_staked), (200, 200));
    assert_eq!(u.staker.withdrawal_requests, vec![req(200, 110), req(100, 150)]);

    let mut w = Withdraw {
        staker_key: STAKER,
        staker: u.staker,
        staker_lamports: s.staker_lamports,
        pool_key: POOL,
        pool: u.pool,
        pool_lamports: s.pool_lamports,
    };
    assert_eq!(withdraw(&mut w, 120).unwrap().amount, 200);
    assert_eq!(w.staker.withdrawal_requests, vec![req(100, 150)]);
    assert_eq!((w.staker.balance, w.pool.total_staked), (200, 200));
    assert_eq!((w.staker_lamports, w.pool_lamports), (700, 300));
    assert_eq!(withdraw(&mut w, 120), Err(ErrorCode::NoWithdrawableFunds));
    assert_eq!(withdraw(&mut w, 160).unwrap().amount, 100);
    assert!(w.staker.withdrawal_requests.is_empty());
    assert_eq!((w.staker.balance, w.pool.total_staked), (200, 200));
    assert_eq!((w.staker_lamports, w.pool_lamports), (800, 200));
}

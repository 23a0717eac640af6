//! Records of the vault and the state machine shared by both deployment variants.
use vstd::prelude::*;

verus! {

/// Global configuration, written once at initialization.
#[derive(Clone, Copy, Debug, PartialEq, Eq, Structural)]
pub struct Config {
    /// Delay between an unstake request and the moment it may be withdrawn.
    pub lock_period: i64,
    /// Set to zero at creation and never updated; kept for record compatibility.
    pub total_staked: u64,
}

/// Aggregate of the value currently staked into one pool.
#[derive(Clone, Copy, Debug, PartialEq, Eq, Structural)]
pub struct Pool {
    pub total_staked: u64,
}

/// A claim created by an unstake, payable once `unlock_time` has passed.
#[derive(Clone, Copy, Debug, PartialEq, Eq, Structural)]
pub struct WithdrawalRequest {
    pub amount: u64,
    pub unlock_time: i64,
}

/// One participant: active balance and pending claims, oldest first.
#[derive(Clone, Debug, PartialEq, Eq)]
pub struct Staker {
    pub balance: u64,
    pub withdrawal_requests: Vec<WithdrawalRequest>,
}

/// Why an operation was refused. A refused operation changes nothing.
#[derive(Clone, Copy, Debug, PartialEq, Eq, Structural)]
pub enum ErrorCode {
    /// A zero amount was given to stake or unstake.
    InvalidAmount,
    /// An unstake asked for more than the active balance.
    InsufficientFunds,
    /// A withdrawal found no matured claim.
    NoWithdrawableFunds,
    /// The value transfer was declined.
    TransferFailure,
    /// The configuration record exists already.
    AlreadyInitialized,
}

/// A request has matured at `now` once its unlock time is not later than `now`.
pub open spec fn is_matured(r: WithdrawalRequest, now: i64) -> bool {
    r.unlock_time <= now
}

/// Sum of the amounts of the requests of `rs` that have matured at `now`.
pub open spec fn matured_total(rs: Seq<WithdrawalRequest>, now: i64) -> nat
    decreases rs.len(),
{
    if rs.len() == 0 {
        0
    } else {
        matured_total(rs.drop_last(), now) + if is_matured(rs.last(), now) {
            rs.last().amount as nat
        } else {
            0
        }
    }
}

/// The requests of `rs` that have not matured at `now`, in the order they were made.
pub open spec fn pending(rs: Seq<WithdrawalRequest>, now: i64) -> Seq<WithdrawalRequest> {
    rs.filter(|r: WithdrawalRequest| !is_matured(r, now))
}

/// One step of `pending`: an empty queue keeps nothing; otherwise the last
/// request is dropped when it has matured and kept after the rest otherwise.
pub proof fn lemma_pending_step(rs: Seq<WithdrawalRequest>, now: i64)
    ensures
        rs.len() == 0 ==> pending(rs, now) == rs,
        rs.len() > 0 ==> pending(rs, now) == if is_matured(rs.last(), now) {
            pending(rs.drop_last(), now)
        } else {
            pending(rs.drop_last(), now).push(rs.last())
        },
{
    reveal(Seq::filter);
}

impl Staker {
    /// Every pending claim carries a positive amount.
    pub open spec fn wf(&self) -> bool {
        forall|i: int|
            0 <= i < self.withdrawal_requests@.len() ==> #[trigger] self.withdrawal_requests@[i].amount
                > 0
    }
}

/// Splits `requests` at `now`: the total of the matured amounts and the
/// requests still pending, in order; `None` when that total does not fit in a `u64`.
pub fn split_matured(requests: &Vec<WithdrawalRequest>, now: i64) -> (r: Option<(u64, Vec<WithdrawalRequest>)>)
    ensures
        r is None <==> matured_total(requests@, now) > u64::MAX,
        r is Some ==> r->Some_0.0 as nat == matured_total(requests@, now) && r->Some_0.1@ == pending(
            requests@,
            now,
        ),
{
    let mut total: u64 = 0;
    let mut kept: Vec<WithdrawalRequest> = Vec::new();
    let mut i: usize = 0;
    proof {
        lemma_pending_step(requests@.subrange(0, 0), now);
    }
    while i < requests.len()
        invariant
            i <= requests@.len(),
            total as nat == matured_total(requests@.subrange(0, i as int), now),
            kept@ == pending(requests@.subrange(0, i as int), now),
        decreases requests@.len() - i,
    {
        let req = requests[i];
        proof {
            let next = requests@.subrange(0, i + 1);
            assert(next.drop_last() =~= requests@.subrange(0, i as int));
            lemma_pending_step(next, now);
            lemma_matured_total_prefix(requests@, i + 1, now);
        }
        if req.unlock_time <= now {
            match total.checked_add(req.amount) {
                Some(t) => total = t,
                None => return None,
            }
        } else {
            kept.push(req);
        }
        i = i + 1;
    }
    assert(requests@.subrange(0, requests@.len() as int) =~= requests@);
    Some((total, kept))
}

/// The matured total of a prefix never exceeds that of the whole sequence.
proof fn lemma_matured_total_prefix(rs: Seq<WithdrawalRequest>, n: int, now: i64)
    requires
        0 <= n <= rs.len(),
    ensures
        matured_total(rs.subrange(0, n), now) <= matured_total(rs, now),
    decreases rs.len(),
{
    if n < rs.len() {
        assert(rs.drop_last().subrange(0, n) =~= rs.subrange(0, n));
        lemma_matured_total_prefix(rs.drop_last(), n, now);
    } else {
        assert(rs.subrange(0, n) =~= rs);
    }
}


/// Every request kept by `pending` is a request of `rs`.
pub proof fn lemma_pending_from(rs: Seq<WithdrawalRequest>, now: i64)
    ensures
        forall|j: int|
            0 <= j < pending(rs, now).len() ==> exists|i: int|
                0 <= i < rs.len() && rs[i] == #[trigger] pending(rs, now)[j],
    decreases rs.len(),
{
    lemma_pending_step(rs, now);
    if rs.len() > 0 {
        let init = rs.drop_last();
        lemma_pending_from(init, now);
        assert forall|j: int| 0 <= j < pending(rs, now).len() implies exists|i: int|
            0 <= i < rs.len() && rs[i] == #[trigger] pending(rs, now)[j] by {
            if j < pending(init, now).len() {
                let i = choose|i: int| 0 <= i < init.len() && init[i] == pending(init, now)[j];
                assert(rs[i] == init[i]);
            } else {
                assert(rs[rs.len() - 1] == pending(rs, now)[j]);
            }
        }
    }
}

/// Records a stake of `amount` once its transfer into the pool's custody has
/// either succeeded or been declined.
pub fn apply_stake(staker: &mut Staker, pool: &mut Pool, amount: u64, transfer_succeeded: bool) -> (r:
    Result<(), ErrorCode>)
    requires
        old(staker).balance + amount <= u64::MAX,
        old(pool).total_staked + amount <= u64::MAX,
    ensures
        amount == 0 ==> r == Err::<(), ErrorCode>(ErrorCode::InvalidAmount),
        amount > 0 && !transfer_succeeded ==> r == Err::<(), ErrorCode>(ErrorCode::TransferFailure),
        amount > 0 && transfer_succeeded ==> r == Ok::<(), ErrorCode>(()),
        r is Ok ==> final(staker).balance == old(staker).balance + amount
            && final(pool).total_staked == old(pool).total_staked + amount
            && final(staker).withdrawal_requests == old(staker).withdrawal_requests,
        r is Err ==> *final(staker) == *old(staker) && *final(pool) == *old(pool),
{
    if amount == 0 {
        return Err(ErrorCode::InvalidAmount);
    }
    if !transfer_succeeded {
        return Err(ErrorCode::TransferFailure);
    }
    pool.total_staked = pool.total_staked + amount;
    staker.balance = staker.balance + amount;
    Ok(())
}

/// Moves `amount` of the active balance to a claim that unlocks at `unlock_time`.
pub fn apply_unstake(staker: &mut Staker, pool: &mut Pool, amount: u64, unlock_time: i64) -> (r:
    Result<(), ErrorCode>)
    requires
        old(staker).balance <= old(pool).total_staked,
    ensures
        amount == 0 ==> r == Err::<(), ErrorCode>(ErrorCode::InvalidAmount),
        amount > 0 && amount > old(staker).balance ==> r == Err::<(), ErrorCode>(
            ErrorCode::InsufficientFunds,
        ),
        0 < amount <= old(staker).balance ==> r == Ok::<(), ErrorCode>(()),
        r is Ok ==> final(staker).balance == old(staker).balance - amount
            && final(pool).total_staked == old(pool).total_staked - amount
            && final(staker).withdrawal_requests@ == old(staker).withdrawal_requests@.push(
            WithdrawalRequest { amount, unlock_time },
        ),
        r is Err ==> *final(staker) == *old(staker) && *final(pool) == *old(pool),
        old(staker).wf() ==> final(staker).wf(),
        final(staker).balance <= final(pool).total_staked,
{
    if amount == 0 {
        return Err(ErrorCode::InvalidAmount);
    }
    if staker.balance < amount {
        return Err(ErrorCode::InsufficientFunds);
    }
    staker.balance = staker.balance - amount;
    pool.total_staked = pool.total_staked - amount;
    staker.withdrawal_requests.push(WithdrawalRequest { amount, unlock_time });
    proof {
        assert(final(staker).withdrawal_requests@.last().amount > 0);
    }
    Ok(())
}

/// The amount that a withdrawal at `now` would pay; `None` when it does not
/// fit in a `u64`.
pub fn withdrawable(staker: &Staker, now: i64) -> (r: Option<u64>)
    ensures
        r is None <==> matured_total(staker.withdrawal_requests@, now) > u64::MAX,
        r is Some ==> r->Some_0 as nat == matured_total(staker.withdrawal_requests@, now),
{
    match split_matured(&staker.withdrawal_requests, now) {
        Some((total, _)) => Some(total),
        None => None,
    }
}

/// Pays out every claim matured at `now`, once the transfer of their total
/// out of the pool's custody has either succeeded or been declined. Returns the
/// amount paid.
pub fn apply_withdraw(staker: &mut Staker, now: i64, transfer_succeeded: bool) -> (r: Result<
    u64,
    ErrorCode,
>)
    requires
        matured_total(old(staker).withdrawal_requests@, now) <= u64::MAX,
    ensures
        matured_total(old(staker).withdrawal_requests@, now) == 0 ==> r == Err::<u64, ErrorCode>(
            ErrorCode::NoWithdrawableFunds,
        ),
        matured_total(old(staker).withdrawal_requests@, now) > 0 && !transfer_succeeded ==> r
            == Err::<u64, ErrorCode>(ErrorCode::TransferFailure),
        matured_total(old(staker).withdrawal_requests@, now) > 0 && transfer_succeeded ==> r
            == Ok::<u64, ErrorCode>(matured_total(old(staker).withdrawal_requests@, now) as u64),
        r is Ok ==> final(staker).balance == old(staker).balance
            && final(staker).withdrawal_requests@ == pending(old(staker).withdrawal_requests@, now),
        r is Err ==> *final(staker) == *old(staker),
        old(staker).wf() ==> final(staker).wf(),
{
    let (total, kept) = split_matured(&staker.withdrawal_requests, now).unwrap();
    if total == 0 {
        return Err(ErrorCode::NoWithdrawableFunds);
    }
    if !transfer_succeeded {
        return Err(ErrorCode::TransferFailure);
    }
    proof {
        lemma_pending_from(old(staker).withdrawal_requests@, now);
    }
    staker.withdrawal_requests = kept;
    Ok(total)
}


/// Accounts of an initialization: the configuration record, if it exists yet.
#[derive(Clone, Copy, Debug, PartialEq, Eq, Structural)]
pub struct Initialize {
    pub config: Option<Config>,
}

/// Creates the configuration with `lock_period` and a zero total; refuses to
/// overwrite one that exists.
pub fn initialize(ctx: &mut Initialize, lock_period: i64) -> (r: Result<(), ErrorCode>)
    requires
        lock_period >= 0,
    ensures
        old(ctx).config is None ==> r == Ok::<(), ErrorCode>(()) && final(ctx).config == Some(
            Config { lock_period, total_staked: 0 },
        ),
        old(ctx).config is Some ==> r == Err::<(), ErrorCode>(ErrorCode::AlreadyInitialized)
            && *final(ctx) == *old(ctx),
{
    if ctx.config.is_some() {
        return Err(ErrorCode::AlreadyInitialized);
    }
    ctx.config = Some(Config { lock_period, total_staked: 0 });
    Ok(())
}

} // verus!

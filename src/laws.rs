//! Properties of the withdrawal queue that relate several calls.
use vstd::prelude::*;

use crate::state::{is_matured, lemma_pending_step, matured_total, pending, WithdrawalRequest};

verus! {

/// When no request of the queue has matured at `now`, there is nothing to
/// withdraw and the queue would be kept whole: a withdrawal fails with
/// `NoWithdrawableFunds` and leaves the queue as it was.
pub proof fn lemma_nothing_matured(rs: Seq<WithdrawalRequest>, now: i64)
    requires
        forall|i: int| 0 <= i < rs.len() ==> !is_matured(#[trigger] rs[i], now),
    ensures
        matured_total(rs, now) == 0,
        pending(rs, now) == rs,
    decreases rs.len(),
{
    lemma_pending_step(rs, now);
    if rs.len() > 0 {
        let init = rs.drop_last();
        assert forall|i: int| 0 <= i < init.len() implies !is_matured(#[trigger] init[i], now) by {
            assert(init[i] == rs[i]);
        }
        lemma_nothing_matured(init, now);
        assert(!is_matured(rs[rs.len() - 1], now));
        assert(init.push(rs.last()) =~= rs);
    }
}

/// Nothing in the queue left by a withdrawal at `now` has matured at `now`.
pub proof fn lemma_pending_not_matured(rs: Seq<WithdrawalRequest>, now: i64)
    ensures
        forall|i: int|
            0 <= i < pending(rs, now).len() ==> !is_matured(#[trigger] pending(rs, now)[i], now),
    decreases rs.len(),
{
    lemma_pending_step(rs, now);
    if rs.len() > 0 {
        let init = rs.drop_last();
        lemma_pending_not_matured(init, now);
        assert forall|i: int| 0 <= i < pending(rs, now).len() implies !is_matured(
            #[trigger] pending(rs, now)[i],
            now,
        ) by {
            if i < pending(init, now).len() {
                assert(pending(rs, now)[i] == pending(init, now)[i]);
            }
        }
    }
}

/// Withdrawing twice in a row, with nothing of the remaining queue maturing in
/// between (at `later`), makes the second withdrawal find nothing: it fails
/// with `NoWithdrawableFunds` and keeps the queue.
pub proof fn lemma_withdraw_twice(rs: Seq<WithdrawalRequest>, now: i64, later: i64)
    requires
        forall|i: int|
            0 <= i < pending(rs, now).len() ==> !is_matured(#[trigger] pending(rs, now)[i], later),
    ensures
        matured_total(pending(rs, now), later) == 0,
        pending(pending(rs, now), later) == pending(rs, now),
{
    lemma_nothing_matured(pending(rs, now), later);
}

/// Withdrawing twice at the same instant: the second withdrawal finds nothing.
pub proof fn lemma_withdraw_twice_at_once(rs: Seq<WithdrawalRequest>, now: i64)
    ensures
        matured_total(pending(rs, now), now) == 0,
        pending(pending(rs, now), now) == pending(rs, now),
{
    lemma_pending_not_matured(rs, now);
    lemma_withdraw_twice(rs, now, now);
}

/// The requests kept by a withdrawal keep their relative order: the pending
/// part of a concatenation is the concatenation of the pending parts.
pub proof fn lemma_pending_concat(a: Seq<WithdrawalRequest>, b: Seq<WithdrawalRequest>, now: i64)
    ensures
        pending(a + b, now) == pending(a, now) + pending(b, now),
    decreases b.len(),
{
    lemma_pending_step(b, now);
    lemma_pending_step(a + b, now);
    if b.len() == 0 {
        assert(a + b =~= a);
        assert(pending(a, now) + pending(b, now) =~= pending(a, now));
    } else {
        assert((a + b).drop_last() =~= a + b.drop_last());
        assert((a + b).last() == b.last());
        lemma_pending_concat(a, b.drop_last(), now);
        if is_matured(b.last(), now) {
        } else {
            assert(pending(a, now) + pending(b.drop_last(), now).push(b.last()) =~= (pending(a, now)
                + pending(b.drop_last(), now)).push(b.last()));
        }
    }
}

/// Of three requests made in order, where the first and the last have matured
/// and the middle one has not, a withdrawal keeps exactly the middle one.
pub proof fn lemma_withdraw_keeps_middle(
    r1: WithdrawalRequest,
    r2: WithdrawalRequest,
    r3: WithdrawalRequest,
    now: i64,
)
    requires
        is_matured(r1, now),
        !is_matured(r2, now),
        is_matured(r3, now),
    ensures
        pending(seq![r1, r2, r3], now) == seq![r2],
        matured_total(seq![r1, r2, r3], now) == r1.amount + r3.amount,
{
    let s0 = Seq::<WithdrawalRequest>::empty();
    let s1 = s0.push(r1);
    let s2 = s1.push(r2);
    let s3 = s2.push(r3);
    assert(s1.drop_last() =~= s0);
    assert(s2.drop_last() =~= s1);
    assert(s3.drop_last() =~= s2);
    lemma_pending_step(s0, now);
    lemma_pending_step(s1, now);
    lemma_pending_step(s2, now);
    lemma_pending_step(s3, now);
    assert(pending(s0, now) =~= s0);
    assert(matured_total(s0, now) == 0);
    assert(pending(s1, now) == s0);
    assert(matured_total(s1, now) == r1.amount);
    assert(pending(s2, now) == s0.push(r2));
    assert(matured_total(s2, now) == r1.amount);
    assert(pending(s3, now) == s0.push(r2));
    assert(matured_total(s3, now) == r1.amount + r3.amount);
    assert(s3 =~= seq![r1, r2, r3]);
    assert(s0.push(r2) =~= seq![r2]);
}

} // verus!

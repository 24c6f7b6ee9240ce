use vstd::prelude::*;
use crate::record::RecordView;
use crate::state::{lemma_appended_inv, newest_first, StoreView};
use crate::stats::{initial_stats, successes};

verus! {

/// The state after recording each record of `rs` in turn, starting from `v`.
/// The laws below start from `v.cleared()`, which a fresh store also is.
pub open spec fn replay(v: StoreView, rs: Seq<RecordView>) -> StoreView
    decreases rs.len(),
{
    if rs.len() == 0 {
        v
    } else {
        replay(v, rs.drop_last()).appended(rs.last())
    }
}

pub open spec fn min_nat(a: nat, b: nat) -> nat {
    if a < b { a } else { b }
}

/// Bounded history: after `N` records on a cleared store, the history holds
/// exactly the last `min(N, max_history_size)` of them, in the order in which
/// they were recorded.
pub proof fn law_bounded_history(v: StoreView, rs: Seq<RecordView>)
    ensures
        replay(v.cleared(), rs).max_history_size == v.max_history_size,
        replay(v.cleared(), rs).history.len() == min_nat(rs.len(), v.max_history_size),
        replay(v.cleared(), rs).history == rs.subrange(
            rs.len() - min_nat(rs.len(), v.max_history_size),
            rs.len() as int,
        ),
    decreases rs.len(),
{
    if rs.len() > 0 {
        let p = rs.drop_last();
        law_bounded_history(v, p);
        let n = rs.len() as int;
        let m = min_nat(p.len(), v.max_history_size) as int;
        let window = replay(v.cleared(), p).history.push(rs.last());
        assert(window =~= rs.subrange(n - 1 - m, n));
        if window.len() > v.max_history_size {
            assert(window.drop_first() =~= rs.subrange(n - m, n));
        }
    } else {
        assert(rs.subrange(0, 0) =~= Seq::<RecordView>::empty());
    }
}

/// Running counters: after `N` records on a cleared store, both action
/// counters equal `N`, however many records the history has dropped.
pub proof fn law_total_counts(v: StoreView, rs: Seq<RecordView>)
    ensures
        replay(v.cleared(), rs).stats.total_actions == rs.len(),
        replay(v.cleared(), rs).stats.actions_today == rs.len(),
    decreases rs.len(),
{
    if rs.len() > 0 {
        law_total_counts(v, rs.drop_last());
    }
}

/// Success rate: after `N > 0` records on a cleared store, the rate is
/// `100 * successes / N`, where the successes are counted over the records
/// that the last recording saw: the last `min(N, max_history_size + 1)`. As
/// long as nothing was dropped, those are all the records.
pub proof fn law_success_rate(v: StoreView, rs: Seq<RecordView>)
    requires
        rs.len() > 0,
    ensures
        replay(v.cleared(), rs).stats.total_actions == rs.len(),
        replay(v.cleared(), rs).stats.successful_actions == successes(
            rs.subrange(rs.len() - min_nat(rs.len(), v.max_history_size + 1), rs.len() as int),
        ),
        rs.len() <= v.max_history_size + 1 ==> replay(v.cleared(), rs).stats.successful_actions
            == successes(rs),
{
    let p = rs.drop_last();
    law_bounded_history(v, p);
    law_total_counts(v, rs);
    let n = rs.len() as int;
    let m = min_nat(p.len(), v.max_history_size) as int;
    let window = replay(v.cleared(), p).history.push(rs.last());
    assert(window =~= rs.subrange(n - 1 - m, n));
    assert(rs.subrange(0, n) =~= rs);
}

/// Latency bounds: from any well-formed state, after any records, every
/// retained duration lies between the fastest and the slowest.
pub proof fn law_latency_bounds(v: StoreView, rs: Seq<RecordView>)
    requires
        v.inv(),
    ensures
        replay(v, rs).inv(),
        forall|i: int|
            0 <= i < replay(v, rs).history.len() ==> replay(v, rs).stats.fastest_action_ms
                <= #[trigger] replay(v, rs).history[i].duration_ms
                <= replay(v, rs).stats.slowest_action_ms,
    decreases rs.len(),
{
    if rs.len() > 0 {
        law_latency_bounds(v, rs.drop_last());
        lemma_appended_inv(replay(v, rs.drop_last()), rs.last());
    }
}

/// Idempotent clear: clearing twice is clearing once, and a cleared store
/// has the initial statistics and an empty history.
pub proof fn law_clear_idempotent(v: StoreView)
    ensures
        v.cleared().cleared() == v.cleared(),
        v.cleared().stats == initial_stats(),
        v.cleared().history.len() == 0,
        v.cleared().is_running == v.is_running,
{
}

/// Ordering: after `N` records on a cleared store, the `k` most recent are
/// the last `min(k, N, max_history_size)` records, newest first.
pub proof fn law_recent_order(v: StoreView, rs: Seq<RecordView>, k: nat)
    ensures
        newest_first(replay(v.cleared(), rs).history, k) == Seq::new(
            min_nat(k, min_nat(rs.len(), v.max_history_size)),
            |j: int| rs[rs.len() - 1 - j],
        ),
{
    law_bounded_history(v, rs);
    let h = replay(v.cleared(), rs).history;
    let m = min_nat(rs.len(), v.max_history_size) as int;
    let nf = newest_first(h, k);
    let expected = Seq::new(
        min_nat(k, min_nat(rs.len(), v.max_history_size)),
        |j: int| rs[rs.len() - 1 - j],
    );
    assert forall|j: int| 0 <= j < nf.len() implies #[trigger] nf[j] == expected[j] by {
        assert(h[h.len() - 1 - j] == rs.subrange(rs.len() - m, rs.len() as int)[m - 1 - j]);
    }
    assert(nf =~= expected);
}

} // verus!

use std::collections::VecDeque;
use vstd::prelude::*;
use crate::record::{ActionRecord, RecordView};
use crate::stats::{
    duration_total, fastest, initial_stats, slowest, stats_after, successes, AutomationStats,
    StatsView,
};

verus! {

/// The history size that `AutomationState::new` uses.
pub const DEFAULT_MAX_HISTORY_SIZE: usize = 100;

/// The mathematical content of an `AutomationState`.
pub ghost struct StoreView {
    pub is_running: bool,
    pub current_action: Option<RecordView>,
    /// Retained records, oldest first.
    pub history: Seq<RecordView>,
    pub stats: StatsView,
    pub max_history_size: nat,
}

/// The `k` last records of `history`, newest first.
pub open spec fn newest_first(history: Seq<RecordView>, k: nat) -> Seq<RecordView> {
    let n = if k < history.len() { k as int } else { history.len() as int };
    Seq::new(n as nat, |j: int| history[history.len() - 1 - j])
}

pub open spec fn records_view(s: Seq<ActionRecord>) -> Seq<RecordView> {
    s.map_values(|r: ActionRecord| r@)
}

impl StoreView {
    /// What every reachable state satisfies.
    pub open spec fn inv(self) -> bool {
        &&& self.history.len() <= self.max_history_size
        &&& self.history.len() <= self.stats.total_actions
        &&& self.stats.actions_today == self.stats.total_actions
        &&& forall|i: int|
            0 <= i < self.history.len() ==> self.stats.fastest_action_ms
                <= #[trigger] self.history[i].duration_ms <= self.stats.slowest_action_ms
    }

    /// The state after recording `r`: the statistics are recomputed over the
    /// retained history followed by `r`, then `r` joins the history and the
    /// oldest record leaves it when the history outgrows its bound.
    pub open spec fn appended(self, r: RecordView) -> StoreView {
        let window = self.history.push(r);
        StoreView {
            stats: stats_after(self.stats, window),
            history: if window.len() > self.max_history_size {
                window.drop_first()
            } else {
                window
            },
            ..self
        }
    }

    /// The state after the history is cleared.
    pub open spec fn cleared(self) -> StoreView {
        StoreView { history: Seq::empty(), stats: initial_stats(), ..self }
    }
}

/// The action store: a bounded history of completed actions, the statistics
/// derived from it, and whether an action is running.
#[derive(Debug)]
pub struct AutomationState {
    is_running: bool,
    current_action: Option<ActionRecord>,
    history: VecDeque<ActionRecord>,
    stats: AutomationStats,
    max_history_size: usize,
}

impl View for AutomationState {
    type V = StoreView;

    closed spec fn view(&self) -> StoreView {
        StoreView {
            is_running: self.is_running,
            current_action: match self.current_action {
                Some(r) => Some(r@),
                None => None,
            },
            history: records_view(self.history@),
            stats: self.stats@,
            max_history_size: self.max_history_size as nat,
        }
    }
}

/// The statistics after `record` is recorded on top of `history`.
fn window_stats(history: &VecDeque<ActionRecord>, record: &ActionRecord, prior: AutomationStats) -> (r:
    AutomationStats)
    requires
        prior.total_actions < usize::MAX,
        prior.actions_today < usize::MAX,
        history@.len() <= prior.total_actions,
    ensures
        r@ == stats_after(prior@, records_view(history@).push(record@)),
{
    let ghost hv = records_view(history@);
    let n = history.len();
    let mut succ: usize = 0;
    let mut sum: u128 = 0;
    let mut fast: u64 = 0;
    let mut slow: u64 = 0;
    let mut i: usize = 0;
    while i < n
        invariant
            n == history@.len(),
            n <= prior.total_actions,
            prior.total_actions < usize::MAX,
            hv == records_view(history@),
            i <= n,
            succ <= i,
            succ as nat == successes(hv.subrange(0, i as int)),
            sum as nat == duration_total(hv.subrange(0, i as int)),
            sum <= i as nat * 0xffff_ffff_ffff_ffffnat,
            fast as nat == fastest(hv.subrange(0, i as int)),
            slow as nat == slowest(hv.subrange(0, i as int)),
        decreases n - i,
    {
        let a = &history[i];
        let ghost sub = hv.subrange(0, i as int + 1);
        assert(sub.drop_last() =~= hv.subrange(0, i as int));
        assert(sub.last() == a@);
        if a.success {
            succ = succ + 1;
        }
        let d = a.duration_ms;
        assert(sum + d <= (i as nat + 1) * 0xffff_ffff_ffff_ffffnat) by (nonlinear_arith)
            requires
                sum <= i as nat * 0xffff_ffff_ffff_ffffnat,
                d <= 0xffff_ffff_ffff_ffffnat,
        ;
        assert((i as nat + 1) * 0xffff_ffff_ffff_ffffnat <= u128::MAX) by (nonlinear_arith)
            requires
                i as nat + 1 <= 0x1_0000_0000_0000_0000nat,
        ;
        sum = sum + d as u128;
        if i == 0 || d < fast {
            fast = d;
        }
        if d > slow {
            slow = d;
        }
        i = i + 1;
    }
    let ghost window = hv.push(record@);
    assert(window.drop_last() =~= hv);
    assert(hv.subrange(0, n as int) =~= hv);
    if record.success {
        succ = succ + 1;
    }
    let d = record.duration_ms;
    assert(sum + d <= (n as nat + 1) * 0xffff_ffff_ffff_ffffnat) by (nonlinear_arith)
        requires
            sum <= n as nat * 0xffff_ffff_ffff_ffffnat,
            d <= 0xffff_ffff_ffff_ffffnat,
    ;
    assert((n as nat + 1) * 0xffff_ffff_ffff_ffffnat <= u128::MAX) by (nonlinear_arith)
        requires
            n as nat + 1 <= 0x1_0000_0000_0000_0000nat,
    ;
    sum = sum + d as u128;
    if n == 0 || d < fast {
        fast = d;
    }
    if d > slow {
        slow = d;
    }
    AutomationStats {
        total_actions: prior.total_actions + 1,
        successful_actions: succ,
        latency_total_ms: sum,
        latency_samples: n + 1,
        actions_today: prior.actions_today + 1,
        fastest_action_ms: fast,
        slowest_action_ms: slow,
    }
}

/// Every duration in a non-empty sequence lies between its fastest and its
/// slowest.
pub proof fn lemma_window_bounds(s: Seq<RecordView>)
    ensures
        forall|i: int|
            0 <= i < s.len() ==> fastest(s) <= #[trigger] s[i].duration_ms <= slowest(s),
    decreases s.len(),
{
    if s.len() > 0 {
        let p = s.drop_last();
        lemma_window_bounds(p);
        assert forall|i: int| 0 <= i < s.len() implies fastest(s) <= #[trigger] s[i].duration_ms
            <= slowest(s) by {
            if i < s.len() - 1 {
                assert(s[i] == p[i]);
            }
        }
    }
}

/// Recording one more action keeps the state invariant.
pub proof fn lemma_appended_inv(v: StoreView, r: RecordView)
    requires
        v.inv(),
    ensures
        v.appended(r).inv(),
{
    let window = v.history.push(r);
    lemma_window_bounds(window);
    let w = v.appended(r);
    if window.len() > v.max_history_size {
        assert forall|i: int| 0 <= i < w.history.len() implies w.stats.fastest_action_ms
            <= #[trigger] w.history[i].duration_ms <= w.stats.slowest_action_ms by {
            assert(w.history[i] == window[i + 1]);
        }
    } else {
        assert forall|i: int| 0 <= i < w.history.len() implies w.stats.fastest_action_ms
            <= #[trigger] w.history[i].duration_ms <= w.stats.slowest_action_ms by {
            assert(w.history[i] == window[i]);
        }
    }
}

impl AutomationState {
    /// The state is well formed.
    pub open spec fn wf(&self) -> bool {
        self@.inv()
    }

    /// A store with an empty history, default statistics and room for
    /// `DEFAULT_MAX_HISTORY_SIZE` records.
    pub fn new() -> (r: AutomationState)
        ensures
            r.wf(),
            r@ == (StoreView {
                is_running: false,
                current_action: None,
                history: Seq::empty(),
                stats: initial_stats(),
                max_history_size: DEFAULT_MAX_HISTORY_SIZE as nat,
            }),
    {
        AutomationState::with_max_history_size(DEFAULT_MAX_HISTORY_SIZE)
    }

    /// A store with an empty history, default statistics and room for
    /// `max_history_size` records.
    pub fn with_max_history_size(max_history_size: usize) -> (r: AutomationState)
        ensures
            r.wf(),
            r@ == (StoreView {
                is_running: false,
                current_action: None,
                history: Seq::empty(),
                stats: initial_stats(),
                max_history_size: max_history_size as nat,
            }),
    {
        let r = AutomationState {
            is_running: false,
            current_action: None,
            history: VecDeque::new(),
            stats: AutomationStats::default(),
            max_history_size,
        };
        assert(records_view(r.history@) =~= Seq::<RecordView>::empty());
        r
    }

    /// Marks an action as running.
    pub fn begin_execution(&mut self)
        requires
            old(self).wf(),
        ensures
            final(self).wf(),
            final(self)@ == (StoreView { is_running: true, ..old(self)@ }),
    {
        self.is_running = true;
    }

    /// Marks that no action is running any more.
    pub fn end_execution(&mut self)
        requires
            old(self).wf(),
        ensures
            final(self).wf(),
            final(self)@ == (StoreView { is_running: false, current_action: None, ..old(self)@ }),
    {
        self.is_running = false;
        self.current_action = None;
    }

    /// Records a completed action: the statistics are recomputed over the
    /// retained history and `action`, then `action` joins the history, whose
    /// oldest record leaves when the bound is exceeded.
    pub fn add_action(&mut self, action: ActionRecord)
        requires
            old(self).wf(),
            old(self)@.stats.total_actions < usize::MAX,
        ensures
            final(self).wf(),
            final(self)@ == old(self)@.appended(action@),
    {
        proof {
            lemma_appended_inv(self@, action@);
        }
        let ghost before = self@;
        let stats = window_stats(&self.history, &action, self.stats);
        self.stats = stats;
        self.history.push_back(action);
        assert(records_view(self.history@) =~= before.history.push(action@));
        if self.history.len() > self.max_history_size {
            let ghost pushed = self.history@;
            let _ = self.history.pop_front();
            assert(records_view(self.history@) =~= records_view(pushed).drop_first());
        }
        assert(self@ == before.appended(action@));
    }

    /// Records the outcome of the running action and marks that none runs.
    pub fn finish_execution(&mut self, action: ActionRecord)
        requires
            old(self).wf(),
            old(self)@.stats.total_actions < usize::MAX,
        ensures
            final(self).wf(),
            final(self)@ == (StoreView {
                is_running: false,
                current_action: None,
                ..old(self)@.appended(action@)
            }),
    {
        self.add_action(action);
        self.end_execution();
    }

    /// Empties the history and resets the statistics; the running flag stays.
    pub fn clear_history(&mut self)
        requires
            old(self).wf(),
        ensures
            final(self).wf(),
            final(self)@ == old(self)@.cleared(),
    {
        self.history.clear();
        self.stats = AutomationStats::default();
        assert(records_view(self.history@) =~= Seq::<RecordView>::empty());
    }

    /// Copies of the `limit` most recent records (all of them if fewer are
    /// retained), newest first.
    pub fn get_recent_actions(&self, limit: usize) -> (r: Vec<ActionRecord>)
        ensures
            r@.len() == newest_first(self@.history, limit as nat).len(),
            records_view(r@) == newest_first(self@.history, limit as nat),
    {
        let n = self.history.len();
        let k = if limit < n { limit } else { n };
        let ghost hv = self@.history;
        let mut r: Vec<ActionRecord> = Vec::new();
        let mut j: usize = 0;
        while j < k
            invariant
                k <= n,
                n == self.history@.len(),
                hv == records_view(self.history@),
                j <= k,
                r@.len() == j,
                forall|t: int| 0 <= t < j ==> #[trigger] r@[t]@ == hv[n - 1 - t],
            decreases k - j,
        {
            r.push(self.history[n - 1 - j].duplicate());
            j = j + 1;
        }
        assert(records_view(r@) =~= newest_first(hv, limit as nat));
        r
    }

    /// A copy of the current statistics.
    pub fn get_stats(&self) -> (r: AutomationStats)
        ensures
            r@ == self@.stats,
    {
        self.stats
    }

    /// Whether an action is running.
    pub fn is_running(&self) -> (r: bool)
        ensures
            r == self@.is_running,
    {
        self.is_running
    }

    /// The bound on the number of retained records.
    pub fn max_history_size(&self) -> (r: usize)
        ensures
            r as nat == self@.max_history_size,
    {
        self.max_history_size
    }
}

} // verus!

use vstd::prelude::*;
use crate::record::RecordView;

verus! {

/// Number of successful records in `s`.
pub open spec fn successes(s: Seq<RecordView>) -> nat
    decreases s.len(),
{
    if s.len() == 0 {
        0
    } else {
        successes(s.drop_last()) + if s.last().success { 1nat } else { 0nat }
    }
}

/// Sum of the durations of the records in `s`.
pub open spec fn duration_total(s: Seq<RecordView>) -> nat
    decreases s.len(),
{
    if s.len() == 0 {
        0
    } else {
        duration_total(s.drop_last()) + s.last().duration_ms
    }
}

/// Smallest duration in a non-empty `s` (zero for an empty one).
pub open spec fn fastest(s: Seq<RecordView>) -> nat
    decreases s.len(),
{
    if s.len() == 0 {
        0
    } else if s.len() == 1 {
        s[0].duration_ms
    } else {
        let m = fastest(s.drop_last());
        if s.last().duration_ms < m { s.last().duration_ms } else { m }
    }
}

/// Largest duration in `s` (zero for an empty one).
pub open spec fn slowest(s: Seq<RecordView>) -> nat
    decreases s.len(),
{
    if s.len() == 0 {
        0
    } else {
        let m = slowest(s.drop_last());
        if s.last().duration_ms > m { s.last().duration_ms } else { m }
    }
}

/// Aggregate statistics over the recorded actions, held as exact integers.
///
/// The success rate is `100 * successful_actions / total_actions` percent
/// (100 when no action was recorded), and the mean latency is
/// `latency_total_ms / latency_samples` (0 when there is no sample).
#[derive(Debug, Clone, Copy, PartialEq, Eq, Structural)]
pub struct AutomationStats {
    pub total_actions: usize,
    pub successful_actions: usize,
    pub latency_total_ms: u128,
    pub latency_samples: usize,
    pub actions_today: usize,
    pub fastest_action_ms: u64,
    pub slowest_action_ms: u64,
}

/// The mathematical content of `AutomationStats`.
pub ghost struct StatsView {
    pub total_actions: nat,
    pub successful_actions: nat,
    pub latency_total_ms: nat,
    pub latency_samples: nat,
    pub actions_today: nat,
    pub fastest_action_ms: nat,
    pub slowest_action_ms: nat,
}

impl View for AutomationStats {
    type V = StatsView;

    open spec fn view(&self) -> StatsView {
        StatsView {
            total_actions: self.total_actions as nat,
            successful_actions: self.successful_actions as nat,
            latency_total_ms: self.latency_total_ms as nat,
            latency_samples: self.latency_samples as nat,
            actions_today: self.actions_today as nat,
            fastest_action_ms: self.fastest_action_ms as nat,
            slowest_action_ms: self.slowest_action_ms as nat,
        }
    }
}

/// The statistics of a store with no recorded action.
pub open spec fn initial_stats() -> StatsView {
    StatsView {
        total_actions: 0,
        successful_actions: 0,
        latency_total_ms: 0,
        latency_samples: 0,
        actions_today: 0,
        fastest_action_ms: 0,
        slowest_action_ms: 0,
    }
}

/// The statistics after one more action, computed over `window`: the
/// retained history followed by the action just recorded.
pub open spec fn stats_after(prior: StatsView, window: Seq<RecordView>) -> StatsView {
    StatsView {
        total_actions: prior.total_actions + 1,
        successful_actions: successes(window),
        latency_total_ms: duration_total(window),
        latency_samples: window.len(),
        actions_today: prior.actions_today + 1,
        fastest_action_ms: fastest(window),
        slowest_action_ms: slowest(window),
    }
}

impl Default for AutomationStats {
    fn default() -> (r: AutomationStats)
        ensures
            r@ == initial_stats(),
    {
        AutomationStats {
            total_actions: 0,
            successful_actions: 0,
            latency_total_ms: 0,
            latency_samples: 0,
            actions_today: 0,
            fastest_action_ms: 0,
            slowest_action_ms: 0,
        }
    }
}

impl AutomationStats {
    /// The success rate as a fraction `(numerator, denominator)` of percent.
    pub fn success_rate_fraction(&self) -> (r: (u128, u128))
        ensures
            self.total_actions == 0 ==> r == (100u128, 1u128),
            self.total_actions > 0 ==> r.0 == 100 * self.successful_actions && r.1
                == self.total_actions,
    {
        if self.total_actions == 0 {
            (100, 1)
        } else {
            (100 * self.successful_actions as u128, self.total_actions as u128)
        }
    }

    /// The mean latency as a fraction `(numerator, denominator)` of milliseconds.
    pub fn avg_latency_fraction(&self) -> (r: (u128, u128))
        ensures
            self.latency_samples == 0 ==> r == (0u128, 1u128),
            self.latency_samples > 0 ==> r.0 == self.latency_total_ms && r.1
                == self.latency_samples,
    {
        if self.latency_samples == 0 {
            (0, 1)
        } else {
            (self.latency_total_ms, self.latency_samples as u128)
        }
    }
}

} // verus!

use automation_state::{ActionRecord, AutomationState, AutomationStats, DEFAULT_MAX_HISTORY_SIZE};

fn record(id: &str, success: bool, duration_ms: u64) -> ActionRecord {
    ActionRecord::new(
        id.to_string(),
        format!("prompt {}", id),
        vec!["Analyzed screen".to_string(), "Executed action".to_string()],
        success,
        duration_ms,
        "2024-01-01T00:00:00+00:00".to_string(),
        vec![],
    )
}

fn ids(records: &[ActionRecord]) -> Vec<String> {
    records.iter().map(|r| r.id.clone()).collect()
}

fn durations(state: &AutomationState) -> Vec<u64> {
    let mut d: Vec<u64> = state.get_recent_actions(usize::MAX).iter().map(|r| r.duration_ms).collect();
    d.reverse();
    d
}

fn initial() -> AutomationStats {
    AutomationStats {
        total_actions: 0,
        successful_actions: 0,
        latency_total_ms: 0,
        latency_samples: 0,
        actions_today: 0,
        fastest_action_ms: 0,
        slowest_action_ms: 0,
    }
}

#[test]
fn new_state_is_empty() {
    let s = AutomationState::new();
    assert!(!s.is_running());
    assert_eq!(s.max_history_size(), DEFAULT_MAX_HISTORY_SIZE);
    assert_eq!(s.max_history_size(), 100);
    assert_eq!(s.get_stats(), initial());
    assert_eq!(s.get_stats().success_rate_fraction(), (100, 1));
    assert_eq!(s.get_stats().avg_latency_fraction(), (0, 1));
    assert!(s.get_recent_actions(50).is_empty());
}

#[test]
fn eviction_with_bound_two() {
    let mut s = AutomationState::with_max_history_size(2);
    s.add_action(record("a", true, 100));
    s.add_action(record("b", true, 200));
    s.add_action(record("c", true, 300));
    assert_eq!(durations(&s), vec![200, 300]);
    let st = s.get_stats();
    assert_eq!(st.total_actions, 3);
    assert_eq!(st.actions_today, 3);
    assert_eq!(st.slowest_action_ms, 300);
    // The third insertion saw the two retained records and itself.
    assert_eq!(st.fastest_action_ms, 100);
    assert_eq!(st.avg_latency_fraction(), (600, 3));
    assert_eq!(st.success_rate_fraction(), (300, 3));
}

#[test]
fn clear_on_fresh_state_is_noop() {
    let mut s = AutomationState::new();
    s.clear_history();
    assert_eq!(s.get_stats(), initial());
    assert_eq!(s.get_stats().success_rate_fraction(), (100, 1));
    assert!(s.get_recent_actions(10).is_empty());
    assert!(!s.is_running());
}

#[test]
fn recent_zero_is_empty() {
    let mut s = AutomationState::new();
    assert!(s.get_recent_actions(0).is_empty());
    s.add_action(record("a", true, 10));
    s.add_action(record("b", false, 20));
    assert!(s.get_recent_actions(0).is_empty());
}

#[test]
fn history_is_bounded() {
    let mut s = AutomationState::with_max_history_size(3);
    for i in 0..10u64 {
        s.add_action(record(&i.to_string(), true, i));
        let expected = std::cmp::min(i as usize + 1, 3);
        assert_eq!(s.get_recent_actions(usize::MAX).len(), expected);
    }
    assert_eq!(durations(&s), vec![7, 8, 9]);
}

#[test]
fn total_counts_every_append() {
    let mut s = AutomationState::with_max_history_size(2);
    for i in 0..5u64 {
        s.add_action(record(&i.to_string(), i % 2 == 0, 100));
    }
    assert_eq!(s.get_stats().total_actions, 5);
    assert_eq!(s.get_stats().actions_today, 5);
    assert_eq!(s.get_recent_actions(10).len(), 2);
    s.clear_history();
    s.add_action(record("x", true, 1));
    assert_eq!(s.get_stats().total_actions, 1);
}

#[test]
fn success_rate_without_eviction() {
    let mut s = AutomationState::new();
    s.add_action(record("a", true, 100));
    s.add_action(record("b", false, 200));
    s.add_action(record("c", true, 300));
    s.add_action(record("d", false, 400));
    let st = s.get_stats();
    assert_eq!(st.successful_actions, 2);
    assert_eq!(st.success_rate_fraction(), (200, 4));
    assert_eq!(st.avg_latency_fraction(), (1000, 4));
    assert_eq!(st.fastest_action_ms, 100);
    assert_eq!(st.slowest_action_ms, 400);
}

#[test]
fn success_rate_over_window_after_eviction() {
    let mut s = AutomationState::with_max_history_size(1);
    s.add_action(record("a", false, 10));
    s.add_action(record("b", false, 10));
    s.add_action(record("c", true, 10));
    s.add_action(record("d", true, 10));
    // The last insertion saw "c" and "d" only.
    let st = s.get_stats();
    assert_eq!(st.total_actions, 4);
    assert_eq!(st.successful_actions, 2);
    assert_eq!(st.success_rate_fraction(), (200, 4));
}

#[test]
fn latency_bounds_hold_for_retained() {
    let mut s = AutomationState::with_max_history_size(3);
    for d in [250u64, 40, 990, 7, 630, 120] {
        s.add_action(record(&d.to_string(), true, d));
        let st = s.get_stats();
        for r in s.get_recent_actions(usize::MAX) {
            assert!(st.fastest_action_ms <= r.duration_ms);
            assert!(r.duration_ms <= st.slowest_action_ms);
        }
    }
}

#[test]
fn clear_twice_equals_once() {
    let mut s = AutomationState::new();
    s.add_action(record("a", true, 5));
    s.begin_execution();
    s.clear_history();
    let once = s.get_stats();
    s.clear_history();
    assert_eq!(s.get_stats(), once);
    assert_eq!(once, initial());
    assert!(s.get_recent_actions(5).is_empty());
    assert!(s.is_running());
}

#[test]
fn recent_actions_newest_first() {
    let mut s = AutomationState::new();
    for id in ["a", "b", "c", "d"] {
        s.add_action(record(id, true, 1));
    }
    assert_eq!(ids(&s.get_recent_actions(2)), vec!["d", "c"]);
    assert_eq!(ids(&s.get_recent_actions(10)), vec!["d", "c", "b", "a"]);
}

#[test]
fn recent_actions_are_full_copies() {
    let mut s = AutomationState::new();
    let r = ActionRecord::new(
        "id-1".to_string(),
        "open the editor".to_string(),
        vec!["Launched application".to_string(), "Window opened".to_string()],
        false,
        321,
        "2024-05-06T07:08:09+00:00".to_string(),
        vec!["data:image/png;base64,AAAA".to_string()],
    );
    s.add_action(r);
    let got = s.get_recent_actions(1);
    assert_eq!(got.len(), 1);
    let g = &got[0];
    assert_eq!(g.id, "id-1");
    assert_eq!(g.prompt, "open the editor");
    assert_eq!(g.actions, vec!["Launched application", "Window opened"]);
    assert!(!g.success);
    assert_eq!(g.duration_ms, 321);
    assert_eq!(g.timestamp, "2024-05-06T07:08:09+00:00");
    assert_eq!(g.screenshots, vec!["data:image/png;base64,AAAA"]);
}

#[test]
fn running_flag_lifecycle() {
    let mut s = AutomationState::new();
    s.begin_execution();
    assert!(s.is_running());
    s.finish_execution(record("a", true, 42));
    assert!(!s.is_running());
    assert_eq!(s.get_stats().total_actions, 1);
    s.end_execution();
    s.end_execution();
    assert!(!s.is_running());
}

#[test]
fn zero_bound_keeps_nothing() {
    let mut s = AutomationState::with_max_history_size(0);
    s.add_action(record("a", true, 9));
    assert!(s.get_recent_actions(5).is_empty());
    assert_eq!(s.get_stats().total_actions, 1);
    assert_eq!(s.get_stats().fastest_action_ms, 9);
    assert_eq!(s.get_stats().slowest_action_ms, 9);
}

#[test]
fn largest_durations_sum_exactly() {
    let mut s = AutomationState::new();
    s.add_action(record("a", true, u64::MAX));
    s.add_action(record("b", true, u64::MAX));
    let st = s.get_stats();
    assert_eq!(st.latency_total_ms, 2 * (u64::MAX as u128));
    assert_eq!(st.fastest_action_ms, u64::MAX);
}

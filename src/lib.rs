//! A bounded store of completed automation actions with running statistics.
//!
//! `AutomationState` keeps the most recent records up to a fixed bound,
//! evicting the oldest first, and recomputes its statistics on every
//! insertion. `laws` states and proves what holds over any run of operations.
mod laws;
mod random;
mod record;
mod simulation;
mod state;
mod stats;

pub use laws::{
    law_bounded_history, law_clear_idempotent, law_latency_bounds, law_recent_order,
    law_success_rate, law_total_counts,
};
pub use random::random;
pub use record::{ActionRecord, RecordView};
pub use simulation::{
    simulated_delay_ms, simulated_duration_ms, simulated_steps, simulated_success,
    steps_for_lowered,
};
pub use state::{AutomationState, StoreView, DEFAULT_MAX_HISTORY_SIZE};
pub use stats::{AutomationStats, StatsView};

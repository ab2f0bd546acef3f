//! Reachability monitoring: targets to probe, the debounced availability
//! state machine, and the decisions of the per-target monitor loop.

pub mod built_info;
pub mod log;
pub mod metric;
pub mod runner;

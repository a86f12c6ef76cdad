//! Host heartbeat: rolling baselines over sampled resource metrics, the two
//! anomaly rules evaluated against them, the snapshot assembled at each
//! tick, and the tick loop as a state machine.
//!
//! The library reads nothing itself. Whoever drives it hands in the
//! readings of the host and the time, and does the waiting and the writing.
//!
//! Every quantity is an integer. Percentages, CPU usage and load are carried
//! in hundredths; memory is reported in whole megabytes, disk space in
//! bytes.

pub mod detector;
pub mod history;
pub mod identity;
pub mod metrics;
pub mod monitor;
pub mod ranking;
pub mod scheduler;

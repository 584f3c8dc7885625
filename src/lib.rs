//! Request-scoped host profiling: a lazily created, refreshed snapshot of host
//! CPU and memory state, and the open/close lifecycle of a profiling record.

pub mod monitor;
pub mod record;
pub mod time;

pub use crate::monitor::{BYTES_PER_MB, CpuUsage, MemoryUsage, SystemMonitor, SystemSummary};
pub use crate::record::{ProfilingMetrics, start_profiling, stop_profiling};
pub use crate::time::{Timestamp, MAX_TIMESTAMP_SECS, MIN_TIMESTAMP_SECS};

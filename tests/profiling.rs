use timeglass::{
    start_profiling, stop_profiling, CpuUsage, MemoryUsage, ProfilingMetrics, SystemMonitor,
    SystemSummary, Timestamp, BYTES_PER_MB, MAX_TIMESTAMP_SECS, MIN_TIMESTAMP_SECS,
};

fn ts(secs: i64, nanos: u32) -> Timestamp {
    Timestamp { secs, nanos }
}

fn mem(used_bytes: u64, total_bytes: u64) -> MemoryUsage {
    MemoryUsage { used_bytes, total_bytes }
}

fn nanos_of(t: Timestamp) -> i128 {
    t.secs as i128 * 1_000_000_000 + t.nanos as i128
}

#[test]
fn open_then_close_scenario() {
    let t0 = ts(1_700_000_000, 250_000_000);
    let t1 = ts(1_700_000_003, 750_000_000);
    let cpu0 = CpuUsage { percent_bits: 11 };
    let cpu1 = CpuUsage { percent_bits: 22 };
    let open = ProfilingMetrics::open("r1".to_string(), t0, cpu0, mem(1, 10));
    assert_eq!(open.start_time, t0);
    assert_eq!(open.end_time, None);
    assert_eq!(open.duration_ms, None);
    assert_eq!(open.cpu_usage, Some(cpu0));
    let closed = open.close(t1, cpu1, mem(5, 10));
    assert_eq!(closed.request_id, "r1");
    assert_eq!(closed.start_time, t0);
    assert_eq!(closed.end_time, Some(t1));
    assert_eq!(closed.duration_ms, Some(3500));
    assert_eq!(closed.cpu_usage, Some(cpu1));
    assert_eq!(closed.memory_usage, Some(mem(5, 10)));
}

#[test]
fn duration_truncates_toward_zero() {
    let z = CpuUsage::zero();
    let forward = ProfilingMetrics::open("a".to_string(), ts(0, 0), z, MemoryUsage::zero())
        .close(ts(0, 1_999_999), z, MemoryUsage::zero());
    assert_eq!(forward.duration_ms, Some(1));
    let backward = ProfilingMetrics::open("b".to_string(), ts(0, 1_500_000), z, MemoryUsage::zero())
        .close(ts(0, 0), z, MemoryUsage::zero());
    assert_eq!(backward.duration_ms, Some(-1));
    let across = ProfilingMetrics::open("c".to_string(), ts(12, 500_000_000), z, MemoryUsage::zero())
        .close(ts(10, 100_000_000), z, MemoryUsage::zero());
    assert_eq!(across.duration_ms, Some(-2400));
}

#[test]
fn duration_at_same_instant_is_zero() {
    let z = CpuUsage::zero();
    let t = ts(5, 999_999_999);
    let r = ProfilingMetrics::open("same".to_string(), t, z, MemoryUsage::zero()).close(
        t,
        z,
        MemoryUsage::zero(),
    );
    assert_eq!(r.duration_ms, Some(0));
}

#[test]
fn duration_over_whole_range() {
    let z = CpuUsage::zero();
    let start = ts(MIN_TIMESTAMP_SECS, 0);
    let end = ts(MAX_TIMESTAMP_SECS, 999_999_999);
    assert!(start.is_valid());
    assert!(end.is_valid());
    let r = ProfilingMetrics::open("wide".to_string(), start, z, MemoryUsage::zero()).close(
        end,
        z,
        MemoryUsage::zero(),
    );
    assert_eq!(r.duration_ms, Some(16_544_868_105_599_999));
}

#[test]
fn timestamp_validity_edges() {
    assert!(ts(0, 0).is_valid());
    assert!(ts(MAX_TIMESTAMP_SECS, 999_999_999).is_valid());
    assert!(!ts(MAX_TIMESTAMP_SECS + 1, 0).is_valid());
    assert!(!ts(MIN_TIMESTAMP_SECS - 1, 0).is_valid());
    assert!(!ts(0, 1_000_000_000).is_valid());
}

#[test]
fn begin_then_end_has_nonnegative_duration() {
    let mut monitor = SystemMonitor::new();
    let open = start_profiling(&mut monitor, "req".to_string());
    assert!(open.start_time.is_valid());
    assert_eq!(open.end_time, None);
    assert_eq!(open.duration_ms, None);
    assert!(open.cpu_usage.is_some());
    assert!(open.memory_usage.is_some());
    let start = open.start_time;
    let closed = stop_profiling(&mut monitor, "req".to_string(), open);
    assert_eq!(closed.request_id, "req");
    assert_eq!(closed.start_time, start);
    let d = closed.duration_ms.unwrap();
    assert!(d >= 0);
}

#[test]
fn closed_duration_matches_timestamps() {
    let mut monitor = SystemMonitor::new();
    let open = start_profiling(&mut monitor, "dur".to_string());
    let closed = stop_profiling(&mut monitor, "dur".to_string(), open);
    let end = closed.end_time.unwrap();
    let elapsed = nanos_of(end) - nanos_of(closed.start_time);
    assert_eq!(closed.duration_ms.unwrap() as i128, elapsed / 1_000_000);
}

#[test]
fn many_interleaved_spans_keep_their_own_values() {
    let mut monitor = SystemMonitor::new();
    let mut open = Vec::new();
    for i in 0..50 {
        open.push(start_profiling(&mut monitor, format!("request-{}", i)));
    }
    let starts: Vec<Timestamp> = open.iter().map(|r| r.start_time).collect();
    let mut i = 50;
    while let Some(record) = open.pop() {
        i -= 1;
        let closed = stop_profiling(&mut monitor, format!("request-{}", i), record);
        assert_eq!(closed.request_id, format!("request-{}", i));
        assert_eq!(closed.start_time, starts[i]);
        assert!(closed.duration_ms.unwrap() >= 0);
    }
}

#[test]
fn mismatched_request_id_is_accepted() {
    let mut monitor = SystemMonitor::new();
    let open = start_profiling(&mut monitor, "A".to_string());
    let closed = stop_profiling(&mut monitor, "B".to_string(), open);
    assert_eq!(closed.request_id, "A");
    assert!(closed.end_time.is_some());
}

#[test]
fn monitor_starts_empty_and_initializes_on_read() {
    let mut monitor = SystemMonitor::new();
    assert!(!monitor.initialized());
    let _ = monitor.read_memory();
    assert!(monitor.initialized());
    monitor.refresh();
    assert!(monitor.initialized());
}

#[test]
fn real_host_summary() {
    let mut monitor = SystemMonitor::new();
    let summary = monitor.read_summary().unwrap();
    assert!(summary.cpu_count >= 1);
    let memory = monitor.read_memory();
    assert!(memory.has_total());
    assert_eq!(summary.total_memory_mb, memory.total_bytes / BYTES_PER_MB);
    let _ = monitor.read_cpu_usage();
}

#[test]
fn summary_from_host_values() {
    assert_eq!(
        SystemSummary::from_host(3 * 1_048_576 + 5, 8),
        SystemSummary { total_memory_mb: 3, cpu_count: 8 }
    );
    assert_eq!(
        SystemSummary::from_host(1_048_575, 1),
        SystemSummary { total_memory_mb: 0, cpu_count: 1 }
    );
    assert_eq!(SystemSummary::from_host(0, 0).total_memory_mb, 0);
}

#[test]
fn zero_readings() {
    assert_eq!(CpuUsage::zero().percent_bits, 0);
    assert_eq!(MemoryUsage::zero(), mem(0, 0));
    assert!(!MemoryUsage::zero().has_total());
    assert!(mem(0, 1).has_total());
}

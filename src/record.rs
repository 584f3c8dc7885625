use vstd::prelude::*;

use crate::monitor::{CpuUsage, MemoryUsage, SystemMonitor};
use crate::time::{Timestamp, millis_between, elapsed_millis, now};

verus! {

/// One profiling record. It is open while `end_time` and `duration_ms` are
/// absent, and closed once both are present.
#[derive(Clone, Debug)]
pub struct ProfilingMetrics {
    pub start_time: Timestamp,
    pub end_time: Option<Timestamp>,
    pub duration_ms: Option<i64>,
    pub cpu_usage: Option<CpuUsage>,
    pub memory_usage: Option<MemoryUsage>,
    pub request_id: String,
}

impl ProfilingMetrics {
    /// The open record for `request_id` begun at `start_time` with the given
    /// host readings.
    pub open spec fn opened(
        request_id: String,
        start_time: Timestamp,
        cpu: CpuUsage,
        memory: MemoryUsage,
    ) -> ProfilingMetrics {
        ProfilingMetrics {
            start_time,
            end_time: None,
            duration_ms: None,
            cpu_usage: Some(cpu),
            memory_usage: Some(memory),
            request_id,
        }
    }

    /// This record closed at `end_time` with fresh host readings: the start
    /// time and request id are kept, everything else is replaced.
    pub open spec fn closed(
        self,
        end_time: Timestamp,
        cpu: CpuUsage,
        memory: MemoryUsage,
    ) -> ProfilingMetrics {
        ProfilingMetrics {
            start_time: self.start_time,
            end_time: Some(end_time),
            duration_ms: Some(millis_between(self.start_time, end_time) as i64),
            cpu_usage: Some(cpu),
            memory_usage: Some(memory),
            request_id: self.request_id,
        }
    }

    /// A record as this library produces it: a valid start time, and either
    /// no end at all or a valid end time together with the duration from the
    /// start to it.
    pub open spec fn wf(self) -> bool {
        &&& self.start_time.wf()
        &&& self.end_time.is_some() == self.duration_ms.is_some()
        &&& self.end_time.is_some() ==> {
            &&& self.end_time.unwrap().wf()
            &&& self.duration_ms.unwrap() as int == millis_between(
                self.start_time,
                self.end_time.unwrap(),
            )
        }
    }

    pub open spec fn is_open(self) -> bool {
        self.end_time.is_none() && self.duration_ms.is_none()
    }

    pub open spec fn is_closed(self) -> bool {
        self.end_time.is_some() && self.duration_ms.is_some()
    }

    /// Opens a record for `request_id` at `start_time`.
    pub fn open(
        request_id: String,
        start_time: Timestamp,
        cpu: CpuUsage,
        memory: MemoryUsage,
    ) -> (r: ProfilingMetrics)
        ensures
            r == Self::opened(request_id, start_time, cpu, memory),
            start_time.wf() ==> r.wf(),
    {
        ProfilingMetrics {
            start_time,
            end_time: None,
            duration_ms: None,
            cpu_usage: Some(cpu),
            memory_usage: Some(memory),
            request_id,
        }
    }

    /// Closes this record at `end_time`: the duration is the whole number of
    /// milliseconds from the record's own start time, rounded toward zero.
    pub fn close(self, end_time: Timestamp, cpu: CpuUsage, memory: MemoryUsage) -> (r:
        ProfilingMetrics)
        requires
            self.start_time.wf(),
            end_time.wf(),
        ensures
            r == self.closed(end_time, cpu, memory),
            r.wf(),
    {
        let duration = elapsed_millis(&self.start_time, &end_time);
        ProfilingMetrics {
            start_time: self.start_time,
            end_time: Some(end_time),
            duration_ms: Some(duration),
            cpu_usage: Some(cpu),
            memory_usage: Some(memory),
            request_id: self.request_id,
        }
    }
}

/// Begins a measurement span: reads the clock, then the host's CPU usage and
/// memory, each through its own refresh of `monitor`, and returns the open
/// record. The memory reading comes from the snapshot the monitor is left with.
pub fn start_profiling(monitor: &mut SystemMonitor, request_id: String) -> (r: ProfilingMetrics)
    ensures
        final(monitor).is_initialized(),
        r.wf(),
        r.is_open(),
        r.cpu_usage.is_some(),
        r.memory_usage == Some(final(monitor).memory_reading()),
        r == ProfilingMetrics::opened(
            request_id,
            r.start_time,
            r.cpu_usage.unwrap(),
            r.memory_usage.unwrap(),
        ),
{
    let start_time = now();
    let cpu = monitor.read_cpu_usage();
    let memory = monitor.read_memory();
    ProfilingMetrics::open(request_id, start_time, cpu, memory)
}

/// Ends the measurement span of `record`: reads the clock, then fresh host
/// readings, each through its own refresh of `monitor`, and returns the closed
/// record. The memory reading comes from the snapshot the monitor is left with.
/// `request_id` is accepted but not compared with the record's own id: the
/// caller is trusted to hand in the matching record.
pub fn stop_profiling(
    monitor: &mut SystemMonitor,
    request_id: String,
    record: ProfilingMetrics,
) -> (r: ProfilingMetrics)
    requires
        record.start_time.wf(),
    ensures
        final(monitor).is_initialized(),
        r.wf(),
        r.is_closed(),
        r.cpu_usage.is_some(),
        r.memory_usage == Some(final(monitor).memory_reading()),
        r == record.closed(r.end_time.unwrap(), r.cpu_usage.unwrap(), r.memory_usage.unwrap()),
{
    let end_time = now();
    let cpu = monitor.read_cpu_usage();
    let memory = monitor.read_memory();
    record.close(end_time, cpu, memory)
}

/// The millisecond distance between two well-formed instants fits in an `i64`.
proof fn lemma_millis_fit(start: Timestamp, end: Timestamp)
    requires
        start.wf(),
        end.wf(),
    ensures
        i64::MIN <= millis_between(start, end) <= i64::MAX,
{
    let d = end.total_nanos() - start.total_nanos();
    assert(-20_000_000_000_000_000_000_000 < d < 20_000_000_000_000_000_000_000) by (nonlinear_arith)
        requires
            start.wf(),
            end.wf(),
            d == end.total_nanos() - start.total_nanos(),
    ;
    if d >= 0 {
        assert(0 <= d / 1_000_000 <= d) by (nonlinear_arith)
            requires
                d >= 0,
        ;
        assert(d / 1_000_000 < 20_000_000_000_000_000) by (nonlinear_arith)
            requires
                0 <= d < 20_000_000_000_000_000_000_000,
        ;
    } else {
        assert((-d) / 1_000_000 < 20_000_000_000_000_000) by (nonlinear_arith)
            requires
                0 < -d < 20_000_000_000_000_000_000_000,
        ;
        assert((-d) / 1_000_000 >= 0) by (nonlinear_arith)
            requires
                -d > 0,
        ;
    }
}

/// A record opened at `t0` and closed at `t1`, with `t0` no later than `t1`,
/// has a duration of zero milliseconds or more.
pub proof fn lemma_duration_nonnegative(
    request_id: String,
    t0: Timestamp,
    cpu0: CpuUsage,
    memory0: MemoryUsage,
    t1: Timestamp,
    cpu1: CpuUsage,
    memory1: MemoryUsage,
)
    requires
        t0.wf(),
        t1.wf(),
        t0.le(t1),
    ensures
        ProfilingMetrics::opened(request_id, t0, cpu0, memory0).closed(
            t1,
            cpu1,
            memory1,
        ).duration_ms.unwrap() >= 0,
{
    lemma_millis_fit(t0, t1);
    let d = t1.total_nanos() - t0.total_nanos();
    assert(d / 1_000_000 >= 0) by (nonlinear_arith)
        requires
            d >= 0,
    ;
}

/// In every closed record the duration is the time from its start to its end,
/// in whole milliseconds rounded toward zero: `duration_ms` million
/// nanoseconds lie within one millisecond of that time, on the side of zero.
pub proof fn lemma_closed_duration_exact(
    record: ProfilingMetrics,
    end_time: Timestamp,
    cpu: CpuUsage,
    memory: MemoryUsage,
)
    requires
        record.start_time.wf(),
        end_time.wf(),
    ensures
        ({
            let r = record.closed(end_time, cpu, memory);
            let d = r.duration_ms.unwrap() as int;
            let elapsed = r.end_time.unwrap().total_nanos() - r.start_time.total_nanos();
            &&& d == millis_between(r.start_time, r.end_time.unwrap())
            &&& elapsed >= 0 ==> d * 1_000_000 <= elapsed < d * 1_000_000 + 1_000_000
            &&& elapsed < 0 ==> d * 1_000_000 - 1_000_000 < elapsed <= d * 1_000_000
        }),
{
    lemma_millis_fit(record.start_time, end_time);
    let elapsed = end_time.total_nanos() - record.start_time.total_nanos();
    let d = millis_between(record.start_time, end_time);
    if elapsed >= 0 {
        assert(d == elapsed / 1_000_000);
        assert(d * 1_000_000 <= elapsed < d * 1_000_000 + 1_000_000) by (nonlinear_arith)
            requires
                elapsed >= 0,
                d == elapsed / 1_000_000,
        ;
    } else {
        assert(d == -((-elapsed) / 1_000_000));
        assert(d * 1_000_000 - 1_000_000 < elapsed <= d * 1_000_000) by (nonlinear_arith)
            requires
                elapsed < 0,
                d == -((-elapsed) / 1_000_000),
        ;
    }
}

/// Opening then closing a record keeps to the values of that one span: the
/// request id and start time handed to the opening, the end time and host
/// readings handed to the closing, whatever other records exist.
pub proof fn lemma_span_keeps_own_values(
    request_id: String,
    t0: Timestamp,
    cpu0: CpuUsage,
    memory0: MemoryUsage,
    t1: Timestamp,
    cpu1: CpuUsage,
    memory1: MemoryUsage,
)
    requires
        t0.wf(),
        t1.wf(),
    ensures
        ({
            let r = ProfilingMetrics::opened(request_id, t0, cpu0, memory0).closed(
                t1,
                cpu1,
                memory1,
            );
            &&& r.request_id == request_id
            &&& r.start_time == t0
            &&& r.end_time == Some(t1)
            &&& r.duration_ms.unwrap() as int == millis_between(t0, t1)
            &&& r.cpu_usage == Some(cpu1)
            &&& r.memory_usage == Some(memory1)
        }),
{
    lemma_millis_fit(t0, t1);
}

} // verus!

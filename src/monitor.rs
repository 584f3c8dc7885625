use vstd::prelude::*;

use sysinfo::System;

verus! {

/// Bytes in one mebibyte.
pub const BYTES_PER_MB: u64 = 1_048_576;

#[verifier::external_type_specification]
#[verifier::external_body]
pub struct ExSystem(sysinfo::System);

/// Relies on sysinfo's `System::new_all`: a handle with every kind of host data
/// loaded by a first scan.
pub assume_specification[ sysinfo::System::new_all ]() -> sysinfo::System;

/// Relies on sysinfo's `System::refresh_all`: rescans the host in place.
pub assume_specification[ sysinfo::System::refresh_all ](s: &mut sysinfo::System);

/// The host's RAM in bytes, as recorded in the snapshot `s`.
pub uninterp spec fn total_bytes_of(s: System) -> u64;

/// The host's used RAM in bytes, as recorded in the snapshot `s`.
pub uninterp spec fn used_bytes_of(s: System) -> u64;

/// The IEEE-754 bit pattern of the host-wide CPU percentage recorded in the
/// snapshot `s`.
pub uninterp spec fn cpu_usage_bits_of(s: System) -> u32;

/// The number of logical CPUs recorded in the snapshot `s`.
pub uninterp spec fn cpu_count_of(s: System) -> usize;

/// Relies on sysinfo's `System::total_memory`: the host's RAM in bytes, a
/// field of the snapshot that the last scan filled.
pub assume_specification[ sysinfo::System::total_memory ](s: &sysinfo::System) -> (r: u64)
    ensures
        r == total_bytes_of(*s),
;

/// Relies on sysinfo's `System::used_memory`: the host's used RAM in bytes,
/// computed from fields of the snapshot that the last scan filled.
pub assume_specification[ sysinfo::System::used_memory ](s: &sysinfo::System) -> (r: u64)
    ensures
        r == used_bytes_of(*s),
;

/// Relies on sysinfo's `System::global_cpu_usage`: the host-wide CPU usage, a
/// percentage as an `f32`, handed on as its IEEE-754 bit pattern.
/// The value is a field of the snapshot that the last scan filled.
#[verifier::external_body]
fn global_cpu_usage_bits(s: &System) -> (r: u32)
    ensures
        r == cpu_usage_bits_of(*s),
{
    s.global_cpu_usage().to_bits()
}

/// Relies on sysinfo's `System::cpus`: the number of logical CPUs observed,
/// the length of a list held in the snapshot.
#[verifier::external_body]
fn logical_cpu_count(s: &System) -> (r: usize)
    ensures
        r == cpu_count_of(*s),
{
    s.cpus().len()
}

/// Host-wide CPU utilisation, a percentage held as the IEEE-754 single-precision
/// bit pattern in which the host reported it. Zero bits stand for 0.0.
#[derive(Clone, Copy, Debug, PartialEq, Eq, Structural)]
pub struct CpuUsage {
    pub percent_bits: u32,
}

impl CpuUsage {
    /// The reading used when no snapshot of the host exists.
    pub fn zero() -> (r: CpuUsage)
        ensures
            r.percent_bits == 0,
    {
        CpuUsage { percent_bits: 0 }
    }
}

/// Host memory at one moment, in bytes.
#[derive(Clone, Copy, Debug, PartialEq, Eq, Structural)]
pub struct MemoryUsage {
    pub used_bytes: u64,
    pub total_bytes: u64,
}

impl MemoryUsage {
    /// The reading used when no snapshot of the host exists.
    pub fn zero() -> (r: MemoryUsage)
        ensures
            r.used_bytes == 0,
            r.total_bytes == 0,
    {
        MemoryUsage { used_bytes: 0, total_bytes: 0 }
    }

    /// Whether a used-memory percentage is defined: total memory is reported
    /// as nonzero.
    pub fn has_total(&self) -> (r: bool)
        ensures
            r == (self.total_bytes > 0),
    {
        self.total_bytes > 0
    }
}

/// A short description of the host.
#[derive(Clone, Copy, Debug, PartialEq, Eq, Structural)]
pub struct SystemSummary {
    pub total_memory_mb: u64,
    pub cpu_count: usize,
}

impl SystemSummary {
    /// The summary of a host with `total_memory_bytes` of RAM and `cpu_count`
    /// logical CPUs: memory in whole mebibytes, rounded down.
    pub fn from_host(total_memory_bytes: u64, cpu_count: usize) -> (r: SystemSummary)
        ensures
            r.total_memory_mb == total_memory_bytes / BYTES_PER_MB,
            r.cpu_count == cpu_count,
    {
        SystemSummary { total_memory_mb: total_memory_bytes / BYTES_PER_MB, cpu_count }
    }
}

/// A lazily created snapshot of the host's CPU and memory state. It holds no
/// snapshot until the first refresh, which scans the host in full; each later
/// refresh rescans in place.
pub struct SystemMonitor {
    system: Option<System>,
}

impl SystemMonitor {
    /// Whether a snapshot of the host exists.
    pub closed spec fn is_initialized(&self) -> bool {
        self.system.is_some()
    }

    /// The current snapshot of the host; meaningful once initialized.
    pub closed spec fn snapshot(&self) -> System {
        self.system.unwrap()
    }

    /// The CPU reading of the current snapshot.
    pub open spec fn cpu_reading(&self) -> CpuUsage {
        CpuUsage { percent_bits: cpu_usage_bits_of(self.snapshot()) }
    }

    /// Used and total memory of the current snapshot, both from that one
    /// snapshot.
    pub open spec fn memory_reading(&self) -> MemoryUsage {
        MemoryUsage {
            used_bytes: used_bytes_of(self.snapshot()),
            total_bytes: total_bytes_of(self.snapshot()),
        }
    }

    /// The summary of the current snapshot: its total memory in whole
    /// mebibytes and its CPU count, both from that one snapshot.
    pub open spec fn summary_reading(&self) -> SystemSummary {
        SystemSummary {
            total_memory_mb: total_bytes_of(self.snapshot()) / BYTES_PER_MB,
            cpu_count: cpu_count_of(self.snapshot()),
        }
    }

    /// A monitor that has not scanned the host yet.
    pub fn new() -> (r: SystemMonitor)
        ensures
            !r.is_initialized(),
    {
        SystemMonitor { system: None }
    }

    /// Whether a snapshot of the host exists.
    pub fn initialized(&self) -> (r: bool)
        ensures
            r == self.is_initialized(),
    {
        self.system.is_some()
    }

    /// Creates the snapshot with a full scan of the host if there is none yet,
    /// else rescans the host into the existing one: one scan per call.
    pub fn refresh(&mut self)
        ensures
            final(self).is_initialized(),
    {
        match &mut self.system {
            Some(s) => s.refresh_all(),
            None => {
                let mut s = System::new_all();
                s.refresh_all();
                self.system = Some(s);
            },
        }
    }

    /// The CPU reading of the current snapshot, zero when there is none.
    fn cpu_usage_now(&self) -> (r: CpuUsage)
        ensures
            !self.is_initialized() ==> r.percent_bits == 0,
            self.is_initialized() ==> r == self.cpu_reading(),
    {
        match &self.system {
            Some(s) => CpuUsage { percent_bits: global_cpu_usage_bits(s) },
            None => CpuUsage::zero(),
        }
    }

    /// The memory reading of the current snapshot, zero when there is none.
    fn memory_now(&self) -> (r: MemoryUsage)
        ensures
            !self.is_initialized() ==> r.used_bytes == 0 && r.total_bytes == 0,
            self.is_initialized() ==> r == self.memory_reading(),
    {
        match &self.system {
            Some(s) => MemoryUsage { used_bytes: s.used_memory(), total_bytes: s.total_memory() },
            None => MemoryUsage::zero(),
        }
    }

    /// The summary of the current snapshot, none when there is no snapshot.
    fn summary_now(&self) -> (r: Option<SystemSummary>)
        ensures
            r.is_some() == self.is_initialized(),
            self.is_initialized() ==> r == Some(self.summary_reading()),
    {
        match &self.system {
            Some(s) => Some(SystemSummary::from_host(s.total_memory(), logical_cpu_count(s))),
            None => None,
        }
    }

    /// Refreshes the snapshot, then reads the host-wide CPU usage from the
    /// snapshot that this refresh left, unmodified.
    pub fn read_cpu_usage(&mut self) -> (r: CpuUsage)
        ensures
            final(self).is_initialized(),
            r == final(self).cpu_reading(),
    {
        self.refresh();
        self.cpu_usage_now()
    }

    /// Refreshes the snapshot, then reads used and total memory from the
    /// snapshot that this refresh left.
    pub fn read_memory(&mut self) -> (r: MemoryUsage)
        ensures
            final(self).is_initialized(),
            r == final(self).memory_reading(),
    {
        self.refresh();
        self.memory_now()
    }

    /// Refreshes the snapshot, then summarises the host from it. There is
    /// always a snapshot after the refresh, so the summary is always present.
    pub fn read_summary(&mut self) -> (r: Option<SystemSummary>)
        ensures
            final(self).is_initialized(),
            r == Some(final(self).summary_reading()),
    {
        self.refresh();
        self.summary_now()
    }
}

} // verus!

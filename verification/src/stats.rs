//! The snapshot record and its builders.
//!
//! Readings arrive as plain numbers: per-core CPU usage, memory byte counts,
//! and — when an accelerator session exists and its query succeeded — one
//! device's figures. The builders here derive the percentages and assemble
//! the record; every derived figure is stated exactly.
//!
//! Percentages are carried in hundredths of a percent (so 10000 stands for
//! 100%), rounded toward zero.

use vstd::prelude::*;

verus! {

use vstd::arithmetic::div_mod::{lemma_div_is_ordered, lemma_div_multiples_vanish};

/// Sum of a sequence of per-core readings.
pub open spec fn usage_sum(s: Seq<u32>) -> int
    decreases s.len(),
{
    if s.len() == 0 {
        0
    } else {
        usage_sum(s.drop_last()) + s.last()
    }
}

/// Integer mean of per-core readings; zero for an empty list, so an empty
/// core enumeration yields a defined figure instead of a division by zero.
pub open spec fn usage_mean(s: Seq<u32>) -> int {
    if s.len() == 0 {
        0
    } else {
        usage_sum(s) / s.len() as int
    }
}

/// `part` as hundredths of a percent of `whole`, rounded toward zero and
/// capped at `u64::MAX`; zero when `whole` is zero.
pub open spec fn centipercent(part: u64, whole: u64) -> int {
    if whole == 0 {
        0
    } else if part * 10000 / (whole as int) > u64::MAX {
        u64::MAX as int
    } else {
        part * 10000 / (whole as int)
    }
}

/// Per-core CPU figures: the core count, each core's usage, their mean,
/// and the processor brand.
#[derive(Clone, Debug, PartialEq, Eq)]
pub struct CpuUsage {
    pub cores_total: usize,
    /// One entry per core, in enumeration order, in hundredths of a percent.
    pub cores_usage: Vec<u32>,
    /// Integer mean of `cores_usage`; zero when no core was enumerated.
    pub average_usage_percentage: u32,
    /// Brand of the first enumerated core, or a placeholder.
    pub brand: String,
}

impl CpuUsage {
    /// The core count matches the list, and the mean is the list's mean.
    pub open spec fn wf(self) -> bool {
        &&& self.cores_total == self.cores_usage@.len()
        &&& self.average_usage_percentage == usage_mean(self.cores_usage@)
    }
}

/// Memory figures: used and total bytes, and used as a share of total.
#[derive(Clone, Debug, PartialEq, Eq)]
pub struct MemoryUsage {
    pub used_bytes: u64,
    pub total_bytes: u64,
    /// `used_bytes` as hundredths of a percent of `total_bytes`.
    pub used_percentage: u64,
}

impl MemoryUsage {
    /// The percentage is derived from the two byte counts.
    pub open spec fn wf(self) -> bool {
        self.used_percentage == centipercent(self.used_bytes, self.total_bytes)
    }
}

/// One accelerator device's figures, always for device slot zero.
#[derive(Clone, Debug, PartialEq, Eq)]
pub struct GpuUsage {
    pub name: String,
    pub memory_used_bytes: u64,
    pub memory_total_bytes: u64,
    /// Used device memory as hundredths of a percent of the total.
    pub memory_used_percentage: u64,
    /// Device utilization in whole percent, as the driver reports it.
    pub utilization_percentage: u32,
    pub temperature_celsius: u32,
}

impl GpuUsage {
    /// The memory percentage is derived from the two byte counts.
    pub open spec fn wf(self) -> bool {
        self.memory_used_percentage == centipercent(
            self.memory_used_bytes,
            self.memory_total_bytes,
        )
    }
}

/// Why no accelerator figures could be produced for a request.
#[derive(Clone, Copy, Debug, PartialEq, Eq, Structural)]
pub enum GpuError {
    /// The session is up but enumerates zero devices.
    NoDevices,
    /// A per-request driver query failed.
    QueryFailed,
}

impl GpuError {
    /// Diagnostic text for the error, as the server logs it.
    pub fn message(&self) -> (r: String)
        ensures
            self is NoDevices ==> r@ == "No NVIDIA devices found"@,
            self is QueryFailed ==> r@ == "GPU query failed"@,
    {
        match self {
            GpuError::NoDevices => "No NVIDIA devices found".to_owned(),
            GpuError::QueryFailed => "GPU query failed".to_owned(),
        }
    }
}

/// The response envelope: one fresh snapshot per request.
#[derive(Clone, Debug, PartialEq, Eq)]
pub struct SystemStats {
    pub cpu_usage: CpuUsage,
    pub memory_usage: MemoryUsage,
    /// Present exactly when a session existed and its query succeeded.
    pub gpu_usage: Option<GpuUsage>,
    /// Unix time, in seconds, at which the snapshot was stamped.
    pub timestamp: u64,
}

impl SystemStats {
    /// Every part is internally consistent.
    pub open spec fn wf(self) -> bool {
        &&& self.cpu_usage.wf()
        &&& self.memory_usage.wf()
        &&& (match self.gpu_usage {
            Some(g) => g.wf(),
            None => true,
        })
    }
}

/// Integer mean of the readings, rounded toward zero; zero for an empty
/// list.
pub fn average_usage(cores: &Vec<u32>) -> (r: u32)
    ensures
        r == usage_mean(cores@),
{
    let n = cores.len();
    if n == 0 {
        return 0;
    }
    let mut total: u128 = 0;
    let mut i: usize = 0;
    while i < n
        invariant
            i <= n,
            n == cores@.len(),
            total == usage_sum(cores@.take(i as int)),
            total <= i * (u32::MAX as int),
        decreases n - i,
    {
        proof {
            assert(cores@.take(i as int + 1).drop_last() =~= cores@.take(i as int));
            assert(cores@.take(i as int + 1).last() == cores@[i as int]);
        }
        total = total + (cores[i] as u128);
        i = i + 1;
    }
    proof {
        assert(cores@.take(n as int) =~= cores@);
        lemma_div_is_ordered(total as int, n as int * (u32::MAX as int), n as int);
        lemma_div_multiples_vanish(u32::MAX as int, n as int);
    }
    let avg: u128 = total / (n as u128);
    avg as u32
}

/// `part` as hundredths of a percent of `whole`, rounded toward zero and
/// capped at `u64::MAX`; zero when `whole` is zero.
pub fn ratio_centipercent(part: u64, whole: u64) -> (r: u64)
    ensures
        r == centipercent(part, whole),
{
    if whole == 0 {
        return 0;
    }
    let q: u128 = (part as u128) * 10000 / (whole as u128);
    if q > (u64::MAX as u128) {
        u64::MAX
    } else {
        q as u64
    }
}

/// Assembles the CPU figures from the enumerated cores' usage readings and
/// the first core's brand; with no cores, the mean is zero and the brand a
/// placeholder.
pub fn build_cpu_usage(cores_usage: Vec<u32>, first_core_brand: Option<String>) -> (r: CpuUsage)
    ensures
        r.cores_total == cores_usage@.len(),
        r.cores_usage@ == cores_usage@,
        r.average_usage_percentage == usage_mean(cores_usage@),
        (match first_core_brand {
            Some(b) => r.brand@ == b@,
            None => r.brand@ == "Unknown"@,
        }),
        r.wf(),
{
    let average = average_usage(&cores_usage);
    let brand = match first_core_brand {
        Some(b) => b,
        None => "Unknown".to_owned(),
    };
    CpuUsage {
        cores_total: cores_usage.len(),
        cores_usage,
        average_usage_percentage: average,
        brand,
    }
}

/// Assembles the memory figures from the two byte counts.
pub fn build_memory_usage(used_bytes: u64, total_bytes: u64) -> (r: MemoryUsage)
    ensures
        r.used_bytes == used_bytes,
        r.total_bytes == total_bytes,
        r.used_percentage == centipercent(used_bytes, total_bytes),
        r.wf(),
{
    let used_percentage = ratio_centipercent(used_bytes, total_bytes);
    MemoryUsage { used_bytes, total_bytes, used_percentage }
}

/// Assembles one device's figures from the driver's readings.
pub fn build_gpu_usage(
    name: String,
    memory_used_bytes: u64,
    memory_total_bytes: u64,
    utilization_percentage: u32,
    temperature_celsius: u32,
) -> (r: GpuUsage)
    ensures
        r.name == name,
        r.memory_used_bytes == memory_used_bytes,
        r.memory_total_bytes == memory_total_bytes,
        r.memory_used_percentage == centipercent(memory_used_bytes, memory_total_bytes),
        r.utilization_percentage == utilization_percentage,
        r.temperature_celsius == temperature_celsius,
        r.wf(),
{
    let memory_used_percentage = ratio_centipercent(memory_used_bytes, memory_total_bytes);
    GpuUsage {
        name,
        memory_used_bytes,
        memory_total_bytes,
        memory_used_percentage,
        utilization_percentage,
        temperature_celsius,
    }
}

/// A device enumeration of zero is the "no devices" error; any positive
/// count lets the query proceed.
pub fn check_device_count(device_count: u32) -> (r: Result<(), GpuError>)
    ensures
        r is Ok <==> device_count > 0,
        device_count == 0 ==> r == Result::<(), GpuError>::Err(GpuError::NoDevices),
{
    if device_count == 0 {
        Err(GpuError::NoDevices)
    } else {
        Ok(())
    }
}

/// What the snapshot's GPU field holds for a given query outcome: the
/// figures on success, nothing when the session is absent or the query
/// failed.
pub open spec fn gpu_field(gpu_query: Option<Result<GpuUsage, GpuError>>) -> Option<GpuUsage> {
    match gpu_query {
        Some(Ok(g)) => Some(g),
        _ => None,
    }
}

/// The GPU field is present exactly when a session existed and its query
/// succeeded.
pub open spec fn gpu_present(gpu_query: Option<Result<GpuUsage, GpuError>>) -> bool {
    match gpu_query {
        Some(q) => q is Ok,
        None => false,
    }
}

/// Whatever figures the query produced are internally consistent.
pub open spec fn gpu_query_wf(gpu_query: Option<Result<GpuUsage, GpuError>>) -> bool {
    match gpu_query {
        Some(Ok(g)) => g.wf(),
        _ => true,
    }
}

/// Assembles the response record: the CPU and memory figures as given, the
/// GPU field exactly when the query succeeded, the timestamp as sampled. A
/// failed or absent query degrades the record by omitting the GPU field and
/// touches nothing else.
pub fn build_system_stats(
    cpu_usage: CpuUsage,
    memory_usage: MemoryUsage,
    gpu_query: Option<Result<GpuUsage, GpuError>>,
    timestamp: u64,
) -> (r: SystemStats)
    ensures
        r.cpu_usage == cpu_usage,
        r.memory_usage == memory_usage,
        r.gpu_usage == gpu_field(gpu_query),
        (r.gpu_usage is Some <==> gpu_present(gpu_query)),
        r.timestamp == timestamp,
        cpu_usage.wf() && memory_usage.wf() && gpu_query_wf(gpu_query) ==> r.wf(),
{
    let gpu_usage = match gpu_query {
        Some(Ok(g)) => Some(g),
        _ => None,
    };
    SystemStats { cpu_usage, memory_usage, gpu_usage, timestamp }
}

/// Snapshots carry exactly the clock value they were stamped with, so two
/// snapshots stamped from clock readings taken in order carry timestamps
/// in the same order.
pub proof fn lemma_timestamp_monotonic(
    earlier: SystemStats,
    later: SystemStats,
    t_earlier: u64,
    t_later: u64,
)
    requires
        earlier.timestamp == t_earlier,
        later.timestamp == t_later,
        t_earlier <= t_later,
    ensures
        earlier.timestamp <= later.timestamp,
{
}

} // verus!

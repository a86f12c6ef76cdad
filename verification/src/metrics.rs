//! The records of a snapshot, the raw readings they are made from, and the
//! fields derived on the way.
//!
//! Sizes are read in bytes. Memory is reported in whole megabytes, disk
//! space in bytes. Percentages, CPU usage and load are in hundredths.

use crate::ranking::{
    is_top_ranking, lemma_top_ranking_descends, lemma_top_ranking_exists, rank_top, top_ranking,
};
use vstd::prelude::*;

verus! {

/// A decimal quantity in hundredths: 12.34 is carried as 1234.
pub type Hundredths = u64;

/// Bytes in a megabyte.
pub const BYTES_PER_MEGABYTE: u64 = 1_048_576;

/// `part` as a percentage of `whole`, in hundredths of a percent and rounded
/// down; zero where `whole` is zero.
pub open spec fn percent_of(part: nat, whole: nat) -> nat {
    if whole == 0 {
        0
    } else {
        part * 10_000 / whole
    }
}

/// Space in use on a disk of `total` bytes with `available` bytes free;
/// zero where more is reported free than there is.
pub open spec fn used_space(total: u64, available: u64) -> u64 {
    if available <= total {
        (total - available) as u64
    } else {
        0
    }
}

/// Usage of one processor core.
#[derive(Clone, Copy, Debug, PartialEq, Eq)]
pub struct CoreMetrics {
    pub core_id: usize,
    pub usage_percent: Hundredths,
}

/// One mounted disk, as read.
#[derive(Debug, PartialEq, Eq)]
pub struct DiskReading {
    pub name: String,
    pub mount_point: String,
    pub total_space: u64,
    pub available_space: u64,
    pub is_removable: bool,
    pub disk_kind: String,
    pub file_system: String,
}

/// One mounted disk, as reported.
#[derive(Debug, PartialEq, Eq)]
pub struct DiskMetrics {
    pub name: String,
    pub mount_point: String,
    pub total_space_bytes: u64,
    pub available_space_bytes: u64,
    pub used_space_bytes: u64,
    pub usage_percent: Hundredths,
    pub is_removable: bool,
    pub disk_kind: String,
    pub file_system: String,
}

/// Cumulative counters of one network interface.
#[derive(Debug, PartialEq, Eq)]
pub struct NetworkMetrics {
    pub interface_name: String,
    pub bytes_received: u64,
    pub bytes_transmitted: u64,
    pub packets_received: u64,
    pub packets_transmitted: u64,
    pub errors_received: u64,
    pub errors_transmitted: u64,
}

/// One process, as read.
#[derive(Debug, PartialEq, Eq)]
pub struct ProcessReading {
    pub pid: u32,
    pub name: String,
    pub cpu_usage: Hundredths,
    pub memory: u64,
    pub disk_read_bytes: u64,
    pub disk_write_bytes: u64,
}

/// One process, as reported.
#[derive(Debug, PartialEq, Eq)]
pub struct ProcessMetrics {
    pub pid: u32,
    pub name: String,
    pub cpu_usage: Hundredths,
    pub memory_mb: u64,
    pub disk_read_bytes: u64,
    pub disk_write_bytes: u64,
}

/// Load averages over the last one, five and fifteen minutes.
#[derive(Clone, Copy, Debug, PartialEq, Eq)]
pub struct LoadAverage {
    pub one_minute: Hundredths,
    pub five_minutes: Hundredths,
    pub fifteen_minutes: Hundredths,
}

/// Memory in use as a percentage of all memory, both taken in whole
/// megabytes.
pub fn memory_usage_percent(used_bytes: u64, total_bytes: u64) -> (percent: Hundredths)
    ensures
        percent == percent_of(
            (used_bytes / BYTES_PER_MEGABYTE) as nat,
            (total_bytes / BYTES_PER_MEGABYTE) as nat,
        ),
{
    let used_mb: u64 = used_bytes / BYTES_PER_MEGABYTE;
    let total_mb: u64 = total_bytes / BYTES_PER_MEGABYTE;
    if total_mb == 0 {
        0
    } else {
        used_mb * 10_000 / total_mb
    }
}

/// Space in use on a disk as a percentage of its size; zero for a disk of
/// no size.
pub fn disk_usage_percent(total: u64, available: u64) -> (percent: Hundredths)
    ensures
        percent == percent_of(used_space(total, available) as nat, total as nat),
        percent <= 10_000,
        total == 0 ==> percent == 0,
{
    if total == 0 {
        return 0;
    }
    let used: u64 = if available <= total {
        total - available
    } else {
        0
    };
    let scaled: u128 = used as u128 * 10_000 / total as u128;
    proof {
        let u = used as int;
        let t = total as int;
        assert(u * 10_000 / t <= 10_000) by (nonlinear_arith)
            requires
                0 <= u <= t,
                t > 0,
        ;
    }
    scaled as u64
}

impl CoreMetrics {
    /// The cores in the order their usage came in, each known by its place.
    pub open spec fn all_of(usage: Seq<Hundredths>) -> Seq<CoreMetrics> {
        Seq::new(
            usage.len(),
            |i: int| CoreMetrics { core_id: i as usize, usage_percent: usage[i] },
        )
    }

    /// Numbers the cores by their place in `usage`.
    pub fn from_usage(usage: &Vec<Hundredths>) -> (cores: Vec<CoreMetrics>)
        ensures
            cores@ == CoreMetrics::all_of(usage@),
    {
        let mut cores: Vec<CoreMetrics> = Vec::with_capacity(usage.len());
        let mut i: usize = 0;
        while i < usage.len()
            invariant
                i <= usage.len(),
                cores@ == CoreMetrics::all_of(usage@.take(i as int)),
            decreases usage.len() - i,
        {
            cores.push(CoreMetrics { core_id: i, usage_percent: usage[i] });
            assert(cores@ =~= CoreMetrics::all_of(usage@.take(i + 1)));
            i += 1;
        }
        assert(usage@.take(usage.len() as int) =~= usage@);
        cores
    }
}

impl DiskMetrics {
    /// What is reported of a disk read as `reading`.
    pub open spec fn of(reading: DiskReading) -> DiskMetrics {
        DiskMetrics {
            name: reading.name,
            mount_point: reading.mount_point,
            total_space_bytes: reading.total_space,
            available_space_bytes: reading.available_space,
            used_space_bytes: used_space(reading.total_space, reading.available_space),
            usage_percent: percent_of(
                used_space(reading.total_space, reading.available_space) as nat,
                reading.total_space as nat,
            ) as u64,
            is_removable: reading.is_removable,
            disk_kind: reading.disk_kind,
            file_system: reading.file_system,
        }
    }

    /// Derives the space in use and its percentage for one disk.
    pub fn from_reading(reading: &DiskReading) -> (disk: DiskMetrics)
        ensures
            disk == DiskMetrics::of(*reading),
    {
        let used: u64 = if reading.available_space <= reading.total_space {
            reading.total_space - reading.available_space
        } else {
            0
        };
        DiskMetrics {
            name: reading.name.clone(),
            mount_point: reading.mount_point.clone(),
            total_space_bytes: reading.total_space,
            available_space_bytes: reading.available_space,
            used_space_bytes: used,
            usage_percent: disk_usage_percent(reading.total_space, reading.available_space),
            is_removable: reading.is_removable,
            disk_kind: reading.disk_kind.clone(),
            file_system: reading.file_system.clone(),
        }
    }

    /// What is reported of the disks read as `readings`, in their order.
    pub open spec fn all_of(readings: Seq<DiskReading>) -> Seq<DiskMetrics> {
        readings.map_values(|reading: DiskReading| DiskMetrics::of(reading))
    }

    /// Derives the reported record of every disk.
    pub fn from_readings(readings: &Vec<DiskReading>) -> (disks: Vec<DiskMetrics>)
        ensures
            disks@ == DiskMetrics::all_of(readings@),
    {
        let mut disks: Vec<DiskMetrics> = Vec::with_capacity(readings.len());
        let mut i: usize = 0;
        while i < readings.len()
            invariant
                i <= readings.len(),
                disks@ == DiskMetrics::all_of(readings@.take(i as int)),
            decreases readings.len() - i,
        {
            disks.push(DiskMetrics::from_reading(&readings[i]));
            assert(disks@ =~= DiskMetrics::all_of(readings@.take(i + 1)));
            i += 1;
        }
        assert(readings@.take(readings.len() as int) =~= readings@);
        disks
    }
}

impl ProcessMetrics {
    /// What is reported of a process read as `reading`.
    pub open spec fn of(reading: ProcessReading) -> ProcessMetrics {
        ProcessMetrics {
            pid: reading.pid,
            name: reading.name,
            cpu_usage: reading.cpu_usage,
            memory_mb: reading.memory / BYTES_PER_MEGABYTE,
            disk_read_bytes: reading.disk_read_bytes,
            disk_write_bytes: reading.disk_write_bytes,
        }
    }

    /// Converts the memory of one process to megabytes.
    pub fn from_reading(reading: &ProcessReading) -> (process: ProcessMetrics)
        ensures
            process == ProcessMetrics::of(*reading),
    {
        ProcessMetrics {
            pid: reading.pid,
            name: reading.name.clone(),
            cpu_usage: reading.cpu_usage,
            memory_mb: reading.memory / BYTES_PER_MEGABYTE,
            disk_read_bytes: reading.disk_read_bytes,
            disk_write_bytes: reading.disk_write_bytes,
        }
    }
}

/// CPU usage of each process, in the order the processes came in.
pub open spec fn cpu_usages(processes: Seq<ProcessReading>) -> Seq<u64> {
    processes.map_values(|reading: ProcessReading| reading.cpu_usage)
}

/// The leading processes by CPU usage, at most `limit` of them, greatest
/// usage first; processes with the same usage keep the order they came in.
pub open spec fn top_processes_of(processes: Seq<ProcessReading>, limit: nat) -> Seq<
    ProcessMetrics,
> {
    top_ranking(cpu_usages(processes), limit).map_values(
        |place: usize| ProcessMetrics::of(processes[place as int]),
    )
}

/// The list of leading processes is as long as the limit allows and the
/// processes suffice for, and CPU usage descends along it.
pub proof fn lemma_top_processes_descend(processes: Seq<ProcessReading>, limit: nat)
    requires
        processes.len() <= usize::MAX,
    ensures
        top_processes_of(processes, limit).len() == if limit <= processes.len() {
            limit
        } else {
            processes.len()
        },
        forall|j: int, k: int|
            0 <= j <= k < top_processes_of(processes, limit).len() ==> (
            #[trigger] top_processes_of(processes, limit)[j]).cpu_usage >= (
            #[trigger] top_processes_of(processes, limit)[k]).cpu_usage,
{
    let usage = cpu_usages(processes);
    let order = top_ranking(usage, limit);
    lemma_top_ranking_exists(usage, limit);
    lemma_top_ranking_descends(usage, limit, order);
}

/// Reports the leading processes by CPU usage.
pub fn top_processes(processes: &Vec<ProcessReading>, limit: usize) -> (top: Vec<ProcessMetrics>)
    ensures
        top@ == top_processes_of(processes@, limit as nat),
        top.len() == if limit <= processes.len() {
            limit
        } else {
            processes.len()
        },
        forall|j: int, k: int|
            0 <= j <= k < top.len() ==> (#[trigger] top[j]).cpu_usage >= (
            #[trigger] top[k]).cpu_usage,
{
    let mut usage: Vec<u64> = Vec::with_capacity(processes.len());
    let mut i: usize = 0;
    while i < processes.len()
        invariant
            i <= processes.len(),
            usage@ == cpu_usages(processes@.take(i as int)),
        decreases processes.len() - i,
    {
        usage.push(processes[i].cpu_usage);
        assert(usage@ =~= cpu_usages(processes@.take(i + 1)));
        i += 1;
    }
    assert(processes@.take(processes.len() as int) =~= processes@);
    let order: Vec<usize> = rank_top(&usage, limit);
    proof {
        lemma_top_ranking_descends(usage@, limit as nat, order@);
    }
    let mut top: Vec<ProcessMetrics> = Vec::with_capacity(order.len());
    let mut k: usize = 0;
    while k < order.len()
        invariant
            k <= order.len(),
            is_top_ranking(cpu_usages(processes@), limit as nat, order@),
            top@ == order@.take(k as int).map_values(
                |place: usize| ProcessMetrics::of(processes@[place as int]),
            ),
        decreases order.len() - k,
    {
        top.push(ProcessMetrics::from_reading(&processes[order[k]]));
        assert(top@ =~= order@.take(k + 1).map_values(
            |place: usize| ProcessMetrics::of(processes@[place as int]),
        ));
        k += 1;
    }
    assert(order@.take(order.len() as int) =~= order@);
    top
}

} // verus!

//! Assembling one snapshot per tick: the readings are taken in, the rules
//! are evaluated against the histories as they stand, and only then do the
//! fresh samples enter the histories.

use crate::detector::{
    detect_cpu_spike, detect_memory_leak, leak_flagged, spike_flagged, BaselineConfig,
};
use crate::history::{pushed, HistoryWindow};
use crate::identity::{CpuInfo, OsInfo};
use crate::metrics::{
    memory_usage_percent, percent_of, top_processes, top_processes_of, CoreMetrics, DiskMetrics,
    DiskReading, Hundredths, LoadAverage, NetworkMetrics, ProcessMetrics, ProcessReading,
    BYTES_PER_MEGABYTE,
};
use vstd::prelude::*;

verus! {

/// Greatest number of processes a snapshot reports.
pub const TOP_PROCESS_LIMIT: usize = 10;

/// Everything read from the host for one tick. Sizes are in bytes, CPU
/// usage and load in hundredths.
#[derive(Debug, PartialEq, Eq)]
pub struct Readings {
    pub cpu_usage: Hundredths,
    pub core_usage: Vec<Hundredths>,
    pub total_memory: u64,
    pub used_memory: u64,
    pub free_memory: u64,
    pub available_memory: u64,
    pub total_swap: u64,
    pub used_swap: u64,
    pub disks: Vec<DiskReading>,
    pub networks: Vec<NetworkMetrics>,
    pub processes: Vec<ProcessReading>,
    pub load_average: LoadAverage,
    pub uptime_seconds: u64,
    pub boot_time: u64,
}

/// The snapshot of one tick.
#[derive(Debug, PartialEq, Eq)]
pub struct SystemMetrics {
    pub timestamp: u64,
    pub os_info: OsInfo,
    pub cpu_usage_percent: Hundredths,
    pub cpu_cores: Vec<CoreMetrics>,
    pub cpu_info: CpuInfo,
    pub memory_total_mb: u64,
    pub memory_used_mb: u64,
    pub memory_free_mb: u64,
    pub memory_available_mb: u64,
    pub memory_usage_percent: Hundredths,
    pub swap_total_mb: u64,
    pub swap_used_mb: u64,
    pub disks: Vec<DiskMetrics>,
    pub network_interfaces: Vec<NetworkMetrics>,
    pub process_count: usize,
    pub top_processes: Vec<ProcessMetrics>,
    pub load_average: LoadAverage,
    pub uptime_seconds: u64,
    pub boot_time: u64,
    pub cpu_spike_detected: bool,
    pub memory_leak_suspected: bool,
}

/// The histories of CPU usage and of memory in use, the parameters of the
/// rules, and the identity of the host.
pub struct Monitor {
    cpu_history: HistoryWindow,
    memory_history: HistoryWindow,
    config: BaselineConfig,
    os_info: OsInfo,
    cpu_info: CpuInfo,
}

/// `snapshot` is what a monitor in state `monitor` reports at `timestamp`
/// for `readings`: the readings with their derived fields, the identity of
/// the host, and the verdict of each rule on the history that `monitor`
/// holds.
pub open spec fn is_snapshot_of(
    snapshot: SystemMetrics,
    monitor: Monitor,
    readings: Readings,
    timestamp: u64,
) -> bool {
    let used_mb = readings.used_memory / BYTES_PER_MEGABYTE;
    let total_mb = readings.total_memory / BYTES_PER_MEGABYTE;
    &&& snapshot.timestamp == timestamp
    &&& snapshot.os_info == monitor.os_info()
    &&& snapshot.cpu_usage_percent == readings.cpu_usage
    &&& snapshot.cpu_cores@ == CoreMetrics::all_of(readings.core_usage@)
    &&& snapshot.cpu_info == monitor.cpu_info()
    &&& snapshot.memory_total_mb == total_mb
    &&& snapshot.memory_used_mb == used_mb
    &&& snapshot.memory_free_mb == readings.free_memory / BYTES_PER_MEGABYTE
    &&& snapshot.memory_available_mb == readings.available_memory / BYTES_PER_MEGABYTE
    &&& snapshot.memory_usage_percent == percent_of(used_mb as nat, total_mb as nat)
    &&& snapshot.swap_total_mb == readings.total_swap / BYTES_PER_MEGABYTE
    &&& snapshot.swap_used_mb == readings.used_swap / BYTES_PER_MEGABYTE
    &&& snapshot.disks@ == DiskMetrics::all_of(readings.disks@)
    &&& snapshot.network_interfaces@ == readings.networks@
    &&& snapshot.process_count == readings.processes@.len()
    &&& snapshot.top_processes@ == top_processes_of(readings.processes@, TOP_PROCESS_LIMIT as nat)
    &&& snapshot.load_average == readings.load_average
    &&& snapshot.uptime_seconds == readings.uptime_seconds
    &&& snapshot.boot_time == readings.boot_time
    &&& snapshot.cpu_spike_detected == spike_flagged(
        monitor.cpu_history()@,
        readings.cpu_usage,
        *monitor.config(),
    )
    &&& snapshot.memory_leak_suspected == leak_flagged(
        monitor.memory_history()@,
        used_mb,
        *monitor.config(),
    )
}

impl Monitor {
    /// The window of CPU usage, as a value of specifications.
    pub closed spec fn spec_cpu_history(&self) -> &HistoryWindow {
        &self.cpu_history
    }

    /// The window of memory in use, as a value of specifications.
    pub closed spec fn spec_memory_history(&self) -> &HistoryWindow {
        &self.memory_history
    }

    /// The parameters of the rules, as a value of specifications.
    pub closed spec fn spec_config(&self) -> &BaselineConfig {
        &self.config
    }

    /// The identity of the operating system, as a value of specifications.
    pub closed spec fn spec_os_info(&self) -> &OsInfo {
        &self.os_info
    }

    /// The identity of the processor, as a value of specifications.
    pub closed spec fn spec_cpu_info(&self) -> &CpuInfo {
        &self.cpu_info
    }

    /// A monitor with empty histories and the standard parameters.
    pub fn new(os_info: OsInfo, cpu_info: CpuInfo) -> (monitor: Monitor)
        ensures
            monitor.cpu_history()@ == Seq::<u64>::empty(),
            monitor.memory_history()@ == Seq::<u64>::empty(),
            monitor.config() == BaselineConfig::standard(),
            monitor.os_info() == os_info,
            monitor.cpu_info() == cpu_info,
    {
        Monitor::with_config(BaselineConfig::default(), os_info, cpu_info)
    }

    /// A monitor with empty histories and the parameters given.
    pub fn with_config(config: BaselineConfig, os_info: OsInfo, cpu_info: CpuInfo) -> (monitor:
        Monitor)
        ensures
            monitor.cpu_history()@ == Seq::<u64>::empty(),
            monitor.memory_history()@ == Seq::<u64>::empty(),
            monitor.config() == config,
            monitor.os_info() == os_info,
            monitor.cpu_info() == cpu_info,
    {
        Monitor {
            cpu_history: HistoryWindow::new(),
            memory_history: HistoryWindow::new(),
            config,
            os_info,
            cpu_info,
        }
    }

    /// The window of CPU usage, in hundredths of a percent.
    #[verifier::when_used_as_spec(spec_cpu_history)]
    pub fn cpu_history(&self) -> (window: &HistoryWindow)
        ensures
            window == self.spec_cpu_history(),
    {
        &self.cpu_history
    }

    /// The window of memory in use, in megabytes.
    #[verifier::when_used_as_spec(spec_memory_history)]
    pub fn memory_history(&self) -> (window: &HistoryWindow)
        ensures
            window == self.spec_memory_history(),
    {
        &self.memory_history
    }

    /// The parameters of the rules.
    #[verifier::when_used_as_spec(spec_config)]
    pub fn config(&self) -> (config: &BaselineConfig)
        ensures
            config == self.spec_config(),
    {
        &self.config
    }

    /// The identity of the operating system.
    #[verifier::when_used_as_spec(spec_os_info)]
    pub fn os_info(&self) -> (info: &OsInfo)
        ensures
            info == self.spec_os_info(),
    {
        &self.os_info
    }

    /// The identity of the processor.
    #[verifier::when_used_as_spec(spec_cpu_info)]
    pub fn cpu_info(&self) -> (info: &CpuInfo)
        ensures
            info == self.spec_cpu_info(),
    {
        &self.cpu_info
    }

    /// Reports on `readings` taken at `timestamp`, in seconds since the
    /// epoch, and then takes the CPU usage and the memory in use into the
    /// histories. The rules see the histories as they stood before.
    pub fn collect_metrics(&mut self, readings: Readings, timestamp: u64) -> (snapshot:
        SystemMetrics)
        ensures
            is_snapshot_of(snapshot, *old(self), readings, timestamp),
            final(self).cpu_history()@ == pushed(old(self).cpu_history()@, readings.cpu_usage),
            final(self).memory_history()@ == pushed(
                old(self).memory_history()@,
                readings.used_memory / BYTES_PER_MEGABYTE,
            ),
            final(self).config() == old(self).config(),
            final(self).os_info() == old(self).os_info(),
            final(self).cpu_info() == old(self).cpu_info(),
    {
        let cpu_cores: Vec<CoreMetrics> = CoreMetrics::from_usage(&readings.core_usage);

        let memory_total: u64 = readings.total_memory / BYTES_PER_MEGABYTE;
        let memory_used: u64 = readings.used_memory / BYTES_PER_MEGABYTE;
        let memory_free: u64 = readings.free_memory / BYTES_PER_MEGABYTE;
        let memory_available: u64 = readings.available_memory / BYTES_PER_MEGABYTE;
        let memory_usage: Hundredths = memory_usage_percent(
            readings.used_memory,
            readings.total_memory,
        );
        let swap_total: u64 = readings.total_swap / BYTES_PER_MEGABYTE;
        let swap_used: u64 = readings.used_swap / BYTES_PER_MEGABYTE;

        let disks: Vec<DiskMetrics> = DiskMetrics::from_readings(&readings.disks);
        let top: Vec<ProcessMetrics> = top_processes(&readings.processes, TOP_PROCESS_LIMIT);
        let process_count: usize = readings.processes.len();

        let cpu_spike: bool = detect_cpu_spike(&self.cpu_history, readings.cpu_usage, &self.config);
        let memory_leak: bool = detect_memory_leak(&self.memory_history, memory_used, &self.config);

        self.cpu_history.push(readings.cpu_usage);
        self.memory_history.push(memory_used);

        SystemMetrics {
            timestamp,
            os_info: self.os_info.clone(),
            cpu_usage_percent: readings.cpu_usage,
            cpu_cores,
            cpu_info: self.cpu_info.clone(),
            memory_total_mb: memory_total,
            memory_used_mb: memory_used,
            memory_free_mb: memory_free,
            memory_available_mb: memory_available,
            memory_usage_percent: memory_usage,
            swap_total_mb: swap_total,
            swap_used_mb: swap_used,
            disks,
            network_interfaces: readings.networks,
            process_count,
            top_processes: top,
            load_average: readings.load_average,
            uptime_seconds: readings.uptime_seconds,
            boot_time: readings.boot_time,
            cpu_spike_detected: cpu_spike,
            memory_leak_suspected: memory_leak,
        }
    }
}

} // verus!

use heartbeat::metrics::{
    disk_usage_percent, memory_usage_percent, top_processes, CoreMetrics, DiskMetrics,
    DiskReading, ProcessMetrics, ProcessReading, BYTES_PER_MEGABYTE,
};

const GIB: u64 = 1_073_741_824;

fn disk(total_space: u64, available_space: u64) -> DiskReading {
    DiskReading {
        name: String::from("/dev/sda1"),
        mount_point: String::from("/"),
        total_space,
        available_space,
        is_removable: false,
        disk_kind: String::from("SSD"),
        file_system: String::from("ext4"),
    }
}

fn process(pid: u32, cpu_usage: u64) -> ProcessReading {
    ProcessReading {
        pid,
        name: format!("proc-{}", pid),
        cpu_usage,
        memory: (pid as u64) * BYTES_PER_MEGABYTE + 17,
        disk_read_bytes: 100 + pid as u64,
        disk_write_bytes: 200 + pid as u64,
    }
}

fn pids(top: &[ProcessMetrics]) -> Vec<u32> {
    top.iter().map(|entry| entry.pid).collect()
}

#[test]
fn memory_percent_is_taken_over_whole_megabytes() {
    assert_eq!(memory_usage_percent(4 * GIB, 16 * GIB), 2500);
    assert_eq!(memory_usage_percent(16 * GIB, 16 * GIB), 10_000);
    assert_eq!(memory_usage_percent(0, 16 * GIB), 0);
    // One megabyte of three: 33.33 percent, rounded down.
    assert_eq!(memory_usage_percent(BYTES_PER_MEGABYTE, 3 * BYTES_PER_MEGABYTE), 3333);
    // Bytes short of a megabyte do not count.
    assert_eq!(memory_usage_percent(2 * BYTES_PER_MEGABYTE - 1, 4 * BYTES_PER_MEGABYTE + 5), 2500);
}

#[test]
fn memory_percent_without_memory_is_zero() {
    assert_eq!(memory_usage_percent(0, 0), 0);
    assert_eq!(memory_usage_percent(5 * GIB, 0), 0);
    assert_eq!(memory_usage_percent(5 * GIB, BYTES_PER_MEGABYTE - 1), 0);
}

#[test]
fn memory_percent_of_the_largest_readings() {
    assert_eq!(memory_usage_percent(u64::MAX, u64::MAX), 10_000);
    // 17592186044415 megabytes used of one.
    assert_eq!(memory_usage_percent(u64::MAX, BYTES_PER_MEGABYTE), 175_921_860_444_150_000);
}

#[test]
fn disk_percent_of_an_empty_disk_is_zero() {
    assert_eq!(disk_usage_percent(0, 0), 0);
    assert_eq!(disk_usage_percent(0, 500), 0);
    let metrics = DiskMetrics::from_reading(&disk(0, 0));
    assert_eq!(metrics.usage_percent, 0);
    assert_eq!(metrics.used_space_bytes, 0);
    assert_eq!(metrics.total_space_bytes, 0);
}

#[test]
fn disk_percent_is_the_used_share() {
    assert_eq!(disk_usage_percent(100 * GIB, 25 * GIB), 7500);
    assert_eq!(disk_usage_percent(100 * GIB, 100 * GIB), 0);
    assert_eq!(disk_usage_percent(100 * GIB, 0), 10_000);
    assert_eq!(disk_usage_percent(3, 2), 3333);
    assert_eq!(disk_usage_percent(3, 1), 6666);
    assert_eq!(disk_usage_percent(u64::MAX, 0), 10_000);
    assert_eq!(disk_usage_percent(u64::MAX, 1), 9999);
}

#[test]
fn disk_with_more_free_than_total_counts_as_unused() {
    assert_eq!(disk_usage_percent(10, 11), 0);
    let metrics = DiskMetrics::from_reading(&disk(10, 11));
    assert_eq!(metrics.used_space_bytes, 0);
    assert_eq!(metrics.usage_percent, 0);
    assert_eq!(metrics.available_space_bytes, 11);
}

#[test]
fn disk_metrics_carry_the_reading() {
    let metrics = DiskMetrics::from_reading(&disk(200 * GIB, 50 * GIB));
    assert_eq!(
        metrics,
        DiskMetrics {
            name: String::from("/dev/sda1"),
            mount_point: String::from("/"),
            total_space_bytes: 200 * GIB,
            available_space_bytes: 50 * GIB,
            used_space_bytes: 150 * GIB,
            usage_percent: 7500,
            is_removable: false,
            disk_kind: String::from("SSD"),
            file_system: String::from("ext4"),
        }
    );
}

#[test]
fn disks_are_reported_in_their_order() {
    let readings = vec![disk(100, 50), disk(0, 0), disk(8, 2)];
    let disks = DiskMetrics::from_readings(&readings);
    assert_eq!(disks.len(), 3);
    assert_eq!(disks[0].usage_percent, 5000);
    assert_eq!(disks[1].usage_percent, 0);
    assert_eq!(disks[2].usage_percent, 7500);
    assert_eq!(disks[2].used_space_bytes, 6);
    assert_eq!(DiskMetrics::from_readings(&Vec::new()), Vec::new());
}

#[test]
fn cores_are_numbered_by_their_place() {
    let cores = CoreMetrics::from_usage(&vec![1250, 0, 9999]);
    assert_eq!(
        cores,
        vec![
            CoreMetrics { core_id: 0, usage_percent: 1250 },
            CoreMetrics { core_id: 1, usage_percent: 0 },
            CoreMetrics { core_id: 2, usage_percent: 9999 },
        ]
    );
    assert_eq!(CoreMetrics::from_usage(&Vec::new()), Vec::new());
}

#[test]
fn process_memory_is_reported_in_megabytes() {
    let metrics = ProcessMetrics::from_reading(&process(42, 1234));
    assert_eq!(
        metrics,
        ProcessMetrics {
            pid: 42,
            name: String::from("proc-42"),
            cpu_usage: 1234,
            memory_mb: 42,
            disk_read_bytes: 142,
            disk_write_bytes: 242,
        }
    );
}

#[test]
fn top_processes_are_the_ten_greatest_in_descending_order() {
    let processes: Vec<ProcessReading> =
        (0..25u32).map(|pid| process(pid, ((pid as u64) * 37) % 101)).collect();
    let top = top_processes(&processes, 10);
    assert_eq!(top.len(), 10);
    for pair in top.windows(2) {
        assert!(pair[0].cpu_usage >= pair[1].cpu_usage);
    }
    let mut expected: Vec<(u64, u32)> =
        processes.iter().map(|reading| (reading.cpu_usage, reading.pid)).collect();
    expected.sort_by(|a, b| b.0.cmp(&a.0));
    let expected_pids: Vec<u32> = expected.iter().take(10).map(|entry| entry.1).collect();
    assert_eq!(pids(&top), expected_pids);
    assert_eq!(top[0], ProcessMetrics::from_reading(&processes[expected_pids[0] as usize]));
}

#[test]
fn top_processes_of_a_short_list_are_all_of_them() {
    let processes = vec![process(1, 10), process(2, 30), process(3, 20)];
    let top = top_processes(&processes, 10);
    assert_eq!(pids(&top), vec![2, 3, 1]);
    assert_eq!(top_processes(&Vec::new(), 10), Vec::new());
    assert_eq!(top_processes(&processes, 0), Vec::new());
    assert_eq!(pids(&top_processes(&processes, 2)), vec![2, 3]);
}

#[test]
fn top_processes_with_equal_usage_keep_their_order() {
    let processes = vec![
        process(11, 500),
        process(12, 700),
        process(13, 500),
        process(14, 700),
        process(15, 500),
    ];
    assert_eq!(pids(&top_processes(&processes, 10)), vec![12, 14, 11, 13, 15]);
    assert_eq!(pids(&top_processes(&processes, 4)), vec![12, 14, 11, 13]);
}

use heartbeat::identity::{or_unknown, CpuInfo, CpuReading, OsInfo};

#[test]
fn missing_text_becomes_unknown() {
    assert_eq!(or_unknown(None), "Unknown");
    assert_eq!(or_unknown(Some(String::from("Linux"))), "Linux");
    assert_eq!(or_unknown(Some(String::new())), "");
}

#[test]
fn os_info_keeps_what_the_host_supplied() {
    let info = OsInfo::from_readings(
        Some(String::from("Ubuntu")),
        Some(String::from("6.8.0")),
        Some(String::from("24.04")),
        Some(String::from("Linux 24.04 Ubuntu")),
        Some(String::from("build-7")),
        String::from("ubuntu"),
    );
    assert_eq!(
        info,
        OsInfo {
            name: String::from("Ubuntu"),
            kernel_version: String::from("6.8.0"),
            os_version: String::from("24.04"),
            long_os_version: String::from("Linux 24.04 Ubuntu"),
            hostname: String::from("build-7"),
            distribution_id: String::from("ubuntu"),
        }
    );
}

#[test]
fn os_info_fills_each_missing_field() {
    let info = OsInfo::from_readings(
        None,
        Some(String::from("6.8.0")),
        None,
        None,
        None,
        String::from("linux"),
    );
    assert_eq!(info.name, "Unknown");
    assert_eq!(info.kernel_version, "6.8.0");
    assert_eq!(info.os_version, "Unknown");
    assert_eq!(info.long_os_version, "Unknown");
    assert_eq!(info.hostname, "Unknown");
    assert_eq!(info.distribution_id, "linux");
}

#[test]
fn cpu_info_from_the_first_core() {
    let reading = CpuReading {
        brand: String::from("Example CPU 3000"),
        vendor_id: String::from("ExampleVendor"),
        frequency_mhz: 3200,
    };
    let info = CpuInfo::from_readings(Some(reading), Some(8));
    assert_eq!(
        info,
        CpuInfo {
            brand: String::from("Example CPU 3000"),
            vendor_id: String::from("ExampleVendor"),
            frequency_mhz: 3200,
            physical_core_count: 8,
        }
    );
}

#[test]
fn cpu_info_without_a_core_count() {
    let reading = CpuReading {
        brand: String::from("Example CPU 3000"),
        vendor_id: String::from("ExampleVendor"),
        frequency_mhz: 3200,
    };
    let info = CpuInfo::from_readings(Some(reading), None);
    assert_eq!(info.physical_core_count, 0);
    assert_eq!(info.frequency_mhz, 3200);
    assert_eq!(info.brand, "Example CPU 3000");
}

#[test]
fn cpu_info_without_any_core() {
    let info = CpuInfo::from_readings(None, Some(8));
    assert_eq!(
        info,
        CpuInfo {
            brand: String::from("Unknown"),
            vendor_id: String::from("Unknown"),
            frequency_mhz: 0,
            physical_core_count: 0,
        }
    );
}

#[test]
fn identity_clones_are_equal() {
    let os = OsInfo::from_readings(
        None,
        None,
        None,
        None,
        Some(String::from("host")),
        String::from("id"),
    );
    assert_eq!(os.clone(), os);
    let cpu = CpuInfo::from_readings(None, None);
    assert_eq!(cpu.clone(), cpu);
}

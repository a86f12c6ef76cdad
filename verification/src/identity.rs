//! What identifies the host: operating system and processor, read once at
//! startup and repeated in every snapshot.

use vstd::prelude::*;

verus! {

/// Identity of the operating system.
#[derive(Debug, PartialEq, Eq)]
pub struct OsInfo {
    pub name: String,
    pub kernel_version: String,
    pub os_version: String,
    pub long_os_version: String,
    pub hostname: String,
    pub distribution_id: String,
}

/// Identity of the processor.
#[derive(Debug, PartialEq, Eq)]
pub struct CpuInfo {
    pub brand: String,
    pub vendor_id: String,
    pub frequency_mhz: u64,
    pub physical_core_count: usize,
}

/// What the first processor core reports of itself.
#[derive(Debug, PartialEq, Eq)]
pub struct CpuReading {
    pub brand: String,
    pub vendor_id: String,
    pub frequency_mhz: u64,
}

/// The text of `reading`, or the placeholder for a field that the host did
/// not supply.
pub open spec fn text_or_unknown(reading: Option<String>) -> Seq<char> {
    match reading {
        Some(text) => text@,
        None => "Unknown"@,
    }
}

/// The processor identity that the readings give: the first core's own
/// account with the count of physical cores (zero where unknown), or
/// placeholders and zeros where there is no core to ask.
pub open spec fn is_cpu_info_of(
    info: CpuInfo,
    first_cpu: Option<CpuReading>,
    physical_core_count: Option<usize>,
) -> bool {
    match first_cpu {
        Some(cpu) => {
            &&& info.brand@ == cpu.brand@
            &&& info.vendor_id@ == cpu.vendor_id@
            &&& info.frequency_mhz == cpu.frequency_mhz
            &&& info.physical_core_count == match physical_core_count {
                Some(count) => count,
                None => 0,
            }
        },
        None => {
            &&& info.brand@ == "Unknown"@
            &&& info.vendor_id@ == "Unknown"@
            &&& info.frequency_mhz == 0
            &&& info.physical_core_count == 0
        },
    }
}

/// Fills in the placeholder for a missing reading.
pub fn or_unknown(reading: Option<String>) -> (text: String)
    ensures
        text@ == text_or_unknown(reading),
{
    match reading {
        Some(text) => text,
        None => "Unknown".to_string(),
    }
}

impl OsInfo {
    /// Assembles the identity from what the host supplied, with the
    /// placeholder in each field it did not.
    pub fn from_readings(
        name: Option<String>,
        kernel_version: Option<String>,
        os_version: Option<String>,
        long_os_version: Option<String>,
        hostname: Option<String>,
        distribution_id: String,
    ) -> (info: OsInfo)
        ensures
            info.name@ == text_or_unknown(name),
            info.kernel_version@ == text_or_unknown(kernel_version),
            info.os_version@ == text_or_unknown(os_version),
            info.long_os_version@ == text_or_unknown(long_os_version),
            info.hostname@ == text_or_unknown(hostname),
            info.distribution_id@ == distribution_id@,
    {
        OsInfo {
            name: or_unknown(name),
            kernel_version: or_unknown(kernel_version),
            os_version: or_unknown(os_version),
            long_os_version: or_unknown(long_os_version),
            hostname: or_unknown(hostname),
            distribution_id,
        }
    }
}

impl Clone for OsInfo {
    fn clone(&self) -> (copy: OsInfo)
        ensures
            copy == *self,
    {
        OsInfo {
            name: self.name.clone(),
            kernel_version: self.kernel_version.clone(),
            os_version: self.os_version.clone(),
            long_os_version: self.long_os_version.clone(),
            hostname: self.hostname.clone(),
            distribution_id: self.distribution_id.clone(),
        }
    }
}

impl CpuInfo {
    /// Assembles the identity from the first core's reading and the count of
    /// physical cores.
    pub fn from_readings(
        first_cpu: Option<CpuReading>,
        physical_core_count: Option<usize>,
    ) -> (info: CpuInfo)
        ensures
            is_cpu_info_of(info, first_cpu, physical_core_count),
    {
        match first_cpu {
            Some(cpu) => CpuInfo {
                brand: cpu.brand,
                vendor_id: cpu.vendor_id,
                frequency_mhz: cpu.frequency_mhz,
                physical_core_count: match physical_core_count {
                    Some(count) => count,
                    None => 0,
                },
            },
            None => CpuInfo {
                brand: "Unknown".to_string(),
                vendor_id: "Unknown".to_string(),
                frequency_mhz: 0,
                physical_core_count: 0,
            },
        }
    }
}

impl Clone for CpuInfo {
    fn clone(&self) -> (copy: CpuInfo)
        ensures
            copy == *self,
    {
        CpuInfo {
            brand: self.brand.clone(),
            vendor_id: self.vendor_id.clone(),
            frequency_mhz: self.frequency_mhz,
            physical_core_count: self.physical_core_count,
        }
    }
}

} // verus!

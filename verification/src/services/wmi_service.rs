//! The WMI classes that the inspection reads, as plain values.
use vstd::prelude::*;

verus! {

#[derive(Debug, Clone)]
pub struct Win32Processor {
    pub name: String,
    pub number_of_cores: u32,
    pub number_of_logical_processors: u32,
    pub max_clock_speed: u32,
    pub manufacturer: String,
    pub virtualization_firmware_enabled: bool,
}

#[derive(Debug, Clone)]
pub struct Win32ComputerSystem {
    pub total_physical_memory: u64,
    pub manufacturer: String,
    pub model: String,
}

#[derive(Debug, Clone)]
pub struct Win32OperatingSystem {
    pub last_boot_up_time: String,
    pub free_physical_memory: u64,
}

#[derive(Debug, Clone)]
pub struct Win32VideoController {
    pub name: String,
    pub adapter_ram: Option<u64>,
    pub driver_version: Option<String>,
}

#[derive(Debug, Clone)]
pub struct Win32BaseBoard {
    pub manufacturer: String,
    pub product: String,
    pub serial_number: Option<String>,
}

#[derive(Debug, Clone)]
pub struct Win32DiskDrive {
    pub model: String,
    pub size: Option<u64>,
    pub interface_type: Option<String>,
}

#[derive(Debug, Clone)]
pub struct MsftPhysicalDisk {
    pub friendly_name: String,
    pub media_type: Option<u16>,
    pub bus_type: Option<u16>,
}

#[derive(Debug, Clone)]
pub struct Win32PowerPlan {
    pub element_name: String,
    pub is_active: Option<bool>,
}

} // verus!

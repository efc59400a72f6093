//! Plain descriptions of the machine a client runs on.

use vstd::prelude::*;

verus! {

/// A hardware address of a network interface.
#[derive(Debug, Clone, Copy, Eq, PartialEq, Hash)]
pub struct MacAddr(pub [u8; 6]);

impl MacAddr {
    pub fn bytes(&self) -> (bytes: [u8; 6])
        ensures
            bytes == self.0,
    {
        self.0
    }
}

/// What kind of device a graphics adapter is.
#[derive(Debug, Clone, Copy, Eq, PartialEq, Hash, Structural)]
pub enum DeviceType {
    Other,
    IntegratedGpu,
    DiscreteGpu,
    VirtualGpu,
    Cpu,
}

/// The operating system.
#[derive(Debug, Clone, Eq, PartialEq, Hash)]
pub struct SystemEnv {
    pub name: Option<String>,
    pub kernel_version: Option<String>,
    pub os_version: Option<String>,
    pub long_os_version: Option<String>,
    pub distribution_id: String,
}

/// The processor.
#[derive(Debug, Clone, Eq, PartialEq, Hash)]
pub struct CpuEnv {
    pub physical_core_count: Option<usize>,
    pub logical_core_count: usize,
    pub arch: String,
    pub frequency: u64,
    pub vendor_id: String,
    pub brand: String,
}

/// The memory, in bytes.
#[derive(Debug, Clone, Eq, PartialEq, Hash)]
pub struct MemoryEnv {
    pub total_memory: u64,
    pub used_memory: u64,
}

} // verus!

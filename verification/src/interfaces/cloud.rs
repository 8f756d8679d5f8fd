//! What the cloud platform tells the core about the instance it runs on.

use vstd::prelude::*;
use std::collections::HashMap;
use crate::time::Duration;

verus! {

/// Cloud lifecycle events.
#[derive(Debug)]
pub enum CloudLifecycleEvent {
    InstanceStart(InstanceMetadata),
    InstanceStop,
    InstanceTerminate,
    InstancePreempt(Duration),
}

/// Resource-related events.
#[derive(Debug)]
pub enum ResourceEvent {
    MemoryLimit(u64),
    CpuLimit(u32),
    StorageLimit(u64),
}

/// Metadata about the instance.
#[derive(Clone, Debug)]
pub struct InstanceMetadata {
    pub instance_id: String,
    pub instance_type: String,
    pub availability_zone: String,
    pub tags: HashMap<String, String>,
}

/// Update to a network interface.
#[derive(Clone, Debug)]
pub struct NetworkInterfaceUpdate {
    pub interface_id: String,
    pub status: String,
}

/// Bandwidth limit for the instance or interface.
#[derive(Clone, Debug)]
pub struct BandwidthLimit {
    pub limit_mbps: u32,
}

/// Limits on instance resources.
#[derive(Clone, Debug)]
pub struct InstanceLimits {
    pub max_memory_mb: u64,
    pub max_storage_gb: u64,
    pub max_cpu_cores: u32,
}

/// Capabilities of the network.
#[derive(Clone, Debug)]
pub struct NetworkCapabilities {
    pub max_bandwidth_mbps: u32,
    pub supported_protocols: Vec<String>,
}

} // verus!

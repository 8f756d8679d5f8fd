//! The configuration of the parts of a capture node.

use vstd::prelude::*;
use std::collections::HashMap;
use crate::time::Duration;

verus! {

/// Buffer management configuration
#[derive(Clone, Debug)]
pub struct BufferConfiguration {
    pub total_size: usize,
    pub chunk_size: usize,
    pub pre_allocation: bool,
    pub memory_limit: Option<usize>,
    pub page_size: usize,
    pub ring_buffer_count: usize,
    pub optimization_level: OptimizationLevel,
}

/// Packet filtering configuration
#[derive(Clone, Debug)]
pub struct FilterConfiguration {
    pub bpf_filter: Option<String>,
    pub custom_filters: Vec<String>,
    pub optimization_level: OptimizationLevel,
    pub hardware_offload: bool,
}

/// Cloud-specific configuration
#[derive(Clone, Debug)]
pub struct CloudConfiguration {

    pub region: String,
    pub availability_zone: String,
    pub vpc_id: Option<String>,
    pub subnet_id: Option<String>,
    pub instance_id: Option<String>,
    pub tags: HashMap<String, String>,
}

/// Performance tuning configuration
#[derive(Clone, Debug)]
pub struct PerformanceConfiguration {
    pub cpu_affinity: Option<Vec<usize>>,
    pub numa_node: Option<i32>,
    pub batch_size: usize,
    pub poll_timeout: Duration,
    pub optimization_level: OptimizationLevel,
    pub zero_copy: bool,
    pub use_hugepages: bool,
}

/// Security and compliance configuration
#[derive(Clone, Debug)]
pub struct SecurityConfiguration {
    pub encryption_enabled: bool,
    pub key_rotation_interval: Duration,
    pub audit_logging: bool,
    pub compliance_mode: ComplianceMode,
    pub access_control: AccessControlConfiguration,
}

/// Access control configuration
#[derive(Clone, Debug)]
pub struct AccessControlConfiguration {
    pub required_roles: Vec<String>,
    pub restricted_interfaces: Vec<String>,
    pub audit_level: AuditLevel,
}

/// Optimization level.
#[derive(Clone, Copy, Debug)]
pub enum OptimizationLevel {
    Off,
    Basic,
    Aggressive,
    Custom(u8),
}

/// Compliance mode.
#[derive(Clone, Copy, Debug)]
pub enum ComplianceMode {
    Standard,
    HIPAA,
    PCI,
    Custom,
}

/// Audit level.
#[derive(Clone, Copy, Debug)]
pub enum AuditLevel {
    Off,
    Basic,
    Detailed,
    Debug,
}

/// Represents the configuration data.
#[derive(Clone, Debug)]
pub struct Configuration {
    pub settings: std::collections::HashMap<String, String>,
}

} // verus!

//! Resource pressure, validation findings and cleanup: the plain values that every component shares.

use vstd::prelude::*;

verus! {

/// Kinds of pressure errors.
#[derive(Debug)]
pub enum PressureErrorKind {
    Memory,
    CPU,
    IO,
    Network,
    Storage,
    Custom(String),
}

/// Kinds of resource exhaustion.
#[derive(Debug)]
pub enum ResourceKind {
    Memory,
    CPU,
    Disk,
    Network,
    Storage,
    Custom(String),
}

/// Kinds of validation errors.
#[derive(Debug)]
pub enum ValidationErrorKind {
    InvalidConfiguration,
    MissingRequiredField,
    Conflict,
    ConstraintViolation,
    Custom(String),
}

/// Issues related to performance.
#[derive(Debug)]
pub enum PerformanceIssue {
    HighLatency,
    LowThroughput,
    ResourceStarvation,
    Overutilization,
    Custom(String),
}

/// Identifier for a buffer in zero-copy operations.
#[derive(Clone, Debug, PartialEq, Eq, Hash)]
pub struct BufferId(u64);

/// Different levels of resource pressure.
#[derive(Clone, Debug, PartialEq, Eq)]
pub enum PressureLevel {
    Normal,
    Elevated,
    Critical,
    Overflow,
}

/// Actions that can be taken to handle pressure.
#[derive(Clone, Debug)]
pub enum PressureAction {
    Throttle,
    DropPackets,
    BackPressure,
    ScaleUp,
    EmergencyFlush,
    Custom(String),
}

/// Validation errors encountered during configuration validation.
#[derive(Debug)]
pub enum ValidationError {
    InvalidValue { field: String, reason: String },
    MissingField { field: String },
    Conflict { fields: Vec<String>, reason: String },
    ConstraintViolation { field: String, constraint: String },
}

/// Warnings encountered during configuration validation.
#[derive(Debug)]
pub enum ValidationWarning {
    DeprecatedField { field: String, alternative: String },
    PerformanceImpact { field: String, impact: String },
    SecurityRisk { field: String, description: String },
}

/// Cleanup priority.
#[derive(Clone, Debug, PartialEq, Eq, PartialOrd, Ord)]
pub enum CleanupPriority {
    Critical,
    High,
    Normal,
    Low,
}

/// Cleanup error.
#[derive(Clone, Debug)]
pub struct CleanupError {
    pub message: String,
    pub code: u32,
}

/// Cleanup status.
#[derive(Debug)]
pub struct CleanupStatus {
    pub pending_cleanups: usize,
    pub last_cleanup: Option<u64>,
    pub failed_cleanups: Vec<CleanupError>,
}

/// Version.
#[derive(Clone, Debug)]
pub struct Version(pub u64);

/// Defines the health status of a component.
#[derive(Clone, Debug, PartialEq, Eq)]
pub enum HealthStatus {
    Healthy,
    Degraded(String),
    Unhealthy(String),
}

} // verus!

//! What the output side reports: routing, thresholds, failures.

use vstd::prelude::*;

verus! {

/// Metadata associated with output data.
#[derive(Clone, Debug)]
pub struct OutputMetadata {
    pub timestamp: u64,
    pub routing_info: Option<RoutingInfo>,
}

/// Information for routing output data.
#[derive(Clone, Debug)]
pub struct RoutingInfo {
    pub destination_ids: Vec<String>,
}

/// Buffer threshold event.
#[derive(Debug)]
pub struct BufferThresholdEvent {
    pub threshold_reached: bool,
}

/// Rotation trigger.
#[derive(Debug)]
pub struct RotationTrigger {
    pub reason: String,
}

/// Write failure.
#[derive(Debug)]
pub struct WriteFailure {
    pub error: String,
}

/// Backpressure status.
#[derive(Debug)]
pub struct BackpressureStatus {
    pub active: bool,
}

} // verus!

//! What is watched for health, and the thresholds that apply.

use vstd::prelude::*;
use crate::time::Duration;

verus! {

/// Monitored component.
#[derive(Clone, Debug, PartialEq, Eq)]
pub enum MonitoredComponent {
    Buffer,
    Interface,
    Transaction,
    Session,
    StateSync,
    Global,
}

/// Health thresholds.
#[derive(Clone, Debug)]
pub struct HealthThresholds {
    pub error_threshold: u64,
    pub warning_threshold: u64,
    pub max_latency_ms: u64,
    pub check_interval: Duration,
    pub recovery_threshold: u64,
}

} // verus!

//! States and statistics of the engine, its interfaces and its sessions.

use vstd::prelude::*;
use crate::time::{Duration, Timestamp};
use crate::resources::InterfaceState;
use crate::state_machine::StateTransition;
use crate::state_recovery::RecoveryPoint;
use crate::state_validator::ValidationRule;

verus! {

/// Buffer metrics.
#[derive(Debug)]
pub struct BufferMetrics {
    writes: u64,
    reads: u64,
    transitions: u64,
    errors: u64,
}

/// Engine state.
#[derive(Clone, Debug, PartialEq, Eq, Hash)]
pub enum EngineState {
    Uninitialized,
    Initializing,
    Ready,
    Running,
    Paused,
    Stopping,
    Stopped,
    Error,
    Recovering,
}

/// Interface statistics with state transition tracking
#[derive(Clone, Debug)]
pub struct InterfaceStats {
    packets_received: u64,
    packets_dropped: u64,
    bytes_received: u64,
    last_updated: Timestamp,
    state_transitions: Vec<StateTransition<InterfaceState>>,
}

/// Enhanced session state with additional metadata
#[derive(Clone, Debug, PartialEq, Eq)]
pub enum SessionState {
    Created,
    Starting,
    Running,
    Pausing,
    Paused,
    Stopping,
    Stopped,
    Error(String),
    Recovery(RecoveryPoint),
}

/// Statistics specific to a capture session
#[derive(Debug)]
pub struct SessionStats {
    pub start_time: Option<Timestamp>,
    pub packets_captured: u64,
    pub bytes_captured: u64,
    pub packets_dropped: u64,
    pub packets_filtered: u64,
    pub state_transitions: Vec<StateTransition<SessionState>>,
}

/// Session validation configuration
pub struct SessionValidationConfig {
    pub validation_rules: Vec<ValidationRule<SessionState>>,
    pub validation_timeout: Duration,
    pub fail_fast: bool,
    pub recovery_enabled: bool,
}

} // verus!

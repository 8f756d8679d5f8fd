//! The states of the capture system and of its components.

use vstd::prelude::*;
use std::collections::HashMap;
use crate::interfaces::pressure::{HealthStatus, PressureLevel};

verus! {

/// Represents the overall system state.
#[derive(Clone, Debug)]
pub struct SystemState {
    pub capture_state: CaptureState,
    pub component_states: HashMap<String, ComponentState>,
    pub pressure_state: PressureState,
}

/// States of the capture process.
#[derive(Clone, Debug, PartialEq, Eq)]
pub enum CaptureState {
    Initializing,
    Ready,
    Capturing,
    Paused,
    ShuttingDown,
    Error(String),
}

/// State of individual components.
#[derive(Clone, Debug)]
pub struct ComponentState {
    pub name: String,
    pub status: ComponentStatus,
    pub health: HealthStatus,
    pub last_updated: u64,
}

/// Status of a component.
#[derive(Clone, Debug, PartialEq, Eq)]
pub enum ComponentStatus {
    Starting,
    Running,
    Degraded,
    Failed,
    Stopped,
}

/// Represents a change in a component's state.
#[derive(Clone, Debug)]
pub struct ComponentStateChange {
    pub component_name: String,
    pub new_state: ComponentState,
}

/// Represents the pressure state of the system.
#[derive(Clone, Debug)]
pub struct PressureState {
    pub memory: PressureLevel,
    pub cpu: PressureLevel,
    pub network: PressureLevel,
    pub storage: PressureLevel,
}

/// State.
#[derive(Debug)]
pub struct State;

} // verus!

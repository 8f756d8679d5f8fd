//! The kinds of resources whose lifecycle the core manages, and what is
//! declared of them: the states of buffers, interfaces and sessions, and the
//! configuration of an interface.

use vstd::prelude::*;
use crate::time::Duration;

verus! {

/// Buffer states in the state machine.
#[derive(Clone, Copy, Debug, PartialEq, Eq, Hash, Structural)]
pub enum BufferState {
    Uninitialized,
    Available,
    InUse,
    Full,
    Migrating,
    ReadyForCleanup,
    Error,
}

/// Where the memory of a buffer lives.
#[derive(Clone, Copy, Debug, PartialEq, Eq, Structural)]
pub enum BufferMemoryType {
    /// Standard heap-allocated memory.
    Heap,
    /// Zero-copy memory mapping.
    ZeroCopy,
}

/// Defines the direction of packet capture.
#[derive(Clone, Copy, Debug, PartialEq, Eq, Hash, Structural)]
pub enum CaptureDirection {
    In,
    Out,
    Both,
}

/// Interface state with recovery support.
#[derive(Clone, Debug, PartialEq, Eq, Hash)]
pub enum InterfaceState {
    Uninitialized,
    Initializing,
    Up,
    Down,
    Error(String),
    Recovering,
    Unknown,
}

/// The resolution of packet timestamps.
#[derive(Clone, Copy, Debug, PartialEq, Eq, Structural)]
pub enum TimestampResolution {
    Nanosecond,
    Microsecond,
    Millisecond,
}

/// Where packet timestamps come from.
#[derive(Clone, Debug, PartialEq, Eq)]
pub enum TimestampSource {
    System,
    Hardware,
    Ptp,
    Custom(String),
}

/// How packets are stamped with their time.
#[derive(Clone, Debug)]
pub struct TimestampConfig {
    pub resolution: TimestampResolution,
    pub source: TimestampSource,
    pub sync: bool,
}

/// Network interface configuration.
#[derive(Clone, Debug)]
pub struct InterfaceConfiguration {
    pub interface_name: String,
    pub promiscuous_mode: bool,
    pub snaplen: usize,
    pub buffer_size: usize,
    pub timeout: Duration,
    pub direction: CaptureDirection,
    pub timestamps: TimestampConfig,
    pub hardware_acceleration: bool,
}

/// What can be asked of a capture session.
#[derive(Clone, Debug, PartialEq, Eq)]
pub enum SessionAction {
    Create,
    Start,
    Stop,
    Pause,
    Resume,
    Delete,
    Checkpoint,
    Reset,
    UpdateConfig(String),
    MigrateToInterface(String),
}

/// The capabilities of an interface.
#[derive(Clone, Copy, Debug, PartialEq, Eq, Structural)]
pub struct InterfaceCapabilities {
    pub promiscuous_supported: bool,
    pub monitor_mode_supported: bool,
    pub max_packet_size: usize,
    pub hardware_offload: bool,
    pub timestamp_supported: bool,
}

/// Interface state recovery configuration.
#[derive(Clone, Copy, Debug, PartialEq, Eq, Structural)]
pub struct InterfaceRecoveryConfig {
    pub max_recovery_attempts: u32,
    pub recovery_timeout: Duration,
    pub auto_recovery: bool,
    pub snapshot_interval: Duration,
}

} // verus!

//! The plain values that pass between the core and its collaborators: what
//! the buffer manager, the interfaces, the cloud platform, storage, security
//! and telemetry report, and how the parts of a node are configured.

pub mod buffer;
pub mod cloud;
pub mod config;
pub mod event;
pub mod health;
pub mod interface;
pub mod lifecycle;
pub mod output;
pub mod pipeline;
pub mod pressure;
pub mod protocol;
pub mod security;
pub mod state;
pub mod storage;
pub mod telemetry;

//! What the buffer manager tells the core about its buffers.

use vstd::prelude::*;
use crate::interfaces::pressure::{BufferId, PressureLevel};

verus! {

/// Metadata associated with a buffer.
#[derive(Debug)]
pub struct BufferMetadata {
    pub buffer_id: BufferId,
    pub capacity: usize,
}

/// Represents events specific to buffer management.
#[derive(Debug)]
pub enum BufferEvent {
    MemoryPressure(PressureLevel),
    BufferReleased(BufferId),
    PoolExhausted,
    WatermarkCrossed(WatermarkType),
}

/// Watermark type.
#[derive(Clone, Debug, PartialEq, Eq)]
pub enum WatermarkType {
    Low,
    High,
    Critical,
}

} // verus!

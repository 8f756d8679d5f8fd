//! What local storage reports of what it holds.

use vstd::prelude::*;
use std::collections::HashMap;

verus! {

/// Metadata associated with storage data.
#[derive(Clone, Debug)]
pub struct StorageMetadata {
    pub timestamp: u64,
    pub tags: HashMap<String, String>,
}

/// Identifier for stored data.
#[derive(Clone, Debug, PartialEq, Eq, Hash)]
pub struct StorageId(String);

/// Types of space thresholds.
#[derive(Clone, Debug)]
pub enum SpaceThresholdType {
    Warning,
    Critical,
}

/// Information about a write failure.
#[derive(Debug)]
pub struct WriteFailureInfo {
    pub error: String,
    pub storage_id: Option<StorageId>,
}

} // verus!

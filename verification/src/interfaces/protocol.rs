//! What protocol inspection reports of a packet.

use vstd::prelude::*;
use std::collections::HashMap;

verus! {

/// Information extracted from packet headers.
#[derive(Clone, Debug)]
pub struct HeaderInfo {
    pub protocols: Vec<String>,
    pub fields: HashMap<String, String>,
}

/// Result of a deep packet inspection.
#[derive(Clone, Debug)]
pub struct InspectionResult {
    pub findings: Vec<String>,
    pub anomalies: Vec<String>,
}

} // verus!

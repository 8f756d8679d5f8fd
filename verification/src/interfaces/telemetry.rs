//! Kinds of metrics and the formats in which they leave.

use vstd::prelude::*;

verus! {

/// Standard metric types.
#[derive(Clone, Debug)]
pub enum MetricType {
    Counter,
    UpDownCounter,
    Gauge,
    Histogram,
}

/// Formats for exporting metrics.
#[derive(Clone, Debug)]
pub enum ExportFormat {
    OpenTelemetry,
    Prometheus,
    JSON,
}

} // verus!

//! The stages of the packet path.

use vstd::prelude::*;

verus! {

/// Different stages in the capture processing pipeline.
#[derive(Clone, Debug, PartialEq, Eq, Hash)]
pub enum PipelineStage {
    Ingestion,
    LightParse,
    DeepParse,
    Filtering,
    Output,
}

} // verus!

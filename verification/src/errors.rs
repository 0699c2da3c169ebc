//! The error taxonomy of the pipeline. Every error aborts the whole
//! in-flight run; the caller reports it and never retries at this layer.
use vstd::prelude::*;

verus! {

/// Why a pipeline run was aborted.
#[derive(Clone, Copy, Debug, PartialEq, Eq, Structural)]
pub enum PipelineError {
    /// An attachment URL could not be parsed.
    MalformedUrl,
    /// Fetching the body of a text-like attachment failed.
    FetchError,
    /// A parent message in the reply chain could not be resolved.
    HistoryResolutionError,
    /// The completion provider reported a failure.
    ProviderError,
    /// The provider answered, but with no response text.
    EmptyCompletion,
}

impl PipelineError {
    /// A short stable name for the error, for the outer reporting layer.
    pub fn name(&self) -> (r: &'static str)
        ensures
            r@ == self.name_spec(),
    {
        match self {
            PipelineError::MalformedUrl => "malformed url",
            PipelineError::FetchError => "attachment fetch failed",
            PipelineError::HistoryResolutionError => "history resolution failed",
            PipelineError::ProviderError => "provider call failed",
            PipelineError::EmptyCompletion => "empty completion",
        }
    }

    pub open spec fn name_spec(&self) -> Seq<char> {
        match self {
            PipelineError::MalformedUrl => "malformed url"@,
            PipelineError::FetchError => "attachment fetch failed"@,
            PipelineError::HistoryResolutionError => "history resolution failed"@,
            PipelineError::ProviderError => "provider call failed"@,
            PipelineError::EmptyCompletion => "empty completion"@,
        }
    }
}

} // verus!

//! The ways in which the run of one request fails.

use vstd::prelude::*;
use vstd::string::*;

verus! {

/// Why a request was given up. Each of these ends the request, and the
/// batch it belongs to; nothing is tried again.
#[derive(Clone, Debug, PartialEq, Eq)]
pub enum PipelineError {
    /// The model could not be reached, or did not answer in time.
    ModelInvocation,
    /// The catalog names a component whose document is missing.
    CatalogIntegrity { component: String },
    /// The artifact or the index could not be written.
    Persistence,
    /// A prompt could not be encoded.
    Encoding,
    /// The driver reported something that the current stage does not await.
    UnexpectedEvent,
}

/// What `message` says of each error.
pub open spec fn error_text(e: PipelineError) -> Seq<char> {
    match e {
        PipelineError::ModelInvocation => "model invocation failed"@,
        PipelineError::CatalogIntegrity { component } => "catalog names a missing component: "@
            + component@,
        PipelineError::Persistence => "result could not be written"@,
        PipelineError::Encoding => "prompt could not be encoded"@,
        PipelineError::UnexpectedEvent => "event does not fit the stage"@,
    }
}

impl PipelineError {
    /// A line for the operator that tells which stage failed.
    pub fn message(&self) -> (r: String)
        ensures
            r@ == error_text(*self),
    {
        match self {
            PipelineError::ModelInvocation => String::from_str("model invocation failed"),
            PipelineError::CatalogIntegrity { component } => {
                String::from_str("catalog names a missing component: ").concat(
                    component.as_str(),
                )
            },
            PipelineError::Persistence => String::from_str("result could not be written"),
            PipelineError::Encoding => String::from_str("prompt could not be encoded"),
            PipelineError::UnexpectedEvent => String::from_str("event does not fit the stage"),
        }
    }
}

} // verus!

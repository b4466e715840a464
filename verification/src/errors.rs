//! The error taxonomy of a pipeline run.
//!
//! Every variant is recovered locally: a failed run logs the error and the
//! state machine returns to idle. None of them escalates past the run.

use vstd::prelude::*;

verus! {

/// Why a pipeline run stopped before pasting.
#[derive(Clone, Copy, Debug, PartialEq, Eq, Structural)]
pub enum PipelineError {
    /// The clipboard held no text or an unreadable format when read.
    ClipboardUnavailable,
    /// The OS rejected the clipboard write.
    ClipboardWriteFailed,
    /// The correction service could not be reached (network, timeout,
    /// or other transport failure).
    ServiceUnreachable,
    /// The correction service replied but produced no usable text.
    EmptyResponse,
}

impl PipelineError {
    /// A short human-readable label, for logging by the embedding process.
    pub fn describe(&self) -> (r: &'static str)
        ensures
            r@ == self.describe_spec(),
    {
        match self {
            PipelineError::ClipboardUnavailable => "clipboard unavailable",
            PipelineError::ClipboardWriteFailed => "clipboard write failed",
            PipelineError::ServiceUnreachable => "correction service unreachable",
            PipelineError::EmptyResponse => "correction service returned no text",
        }
    }

    /// What `describe` returns for each variant.
    pub open spec fn describe_spec(&self) -> Seq<char> {
        match self {
            PipelineError::ClipboardUnavailable => "clipboard unavailable"@,
            PipelineError::ClipboardWriteFailed => "clipboard write failed"@,
            PipelineError::ServiceUnreachable => "correction service unreachable"@,
            PipelineError::EmptyResponse => "correction service returned no text"@,
        }
    }
}

} // verus!

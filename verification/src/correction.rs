//! Building correction requests and interpreting service replies.
//!
//! The remote correction service is a black box: it takes a fixed system
//! instruction together with the user's text, and replies with corrected
//! text or with nothing usable. The transport lives outside this crate;
//! here stand the two pure halves around it — constructing the request and
//! classifying the reply.

use vstd::prelude::*;
use crate::errors::PipelineError;

verus! {

/// One request to the correction service: the fixed system instruction and
/// the text to correct. Constructed fresh per pipeline run.
#[derive(Debug, PartialEq, Eq)]
pub struct CorrectionRequest {
    pub instruction: String,
    pub user_text: String,
}

/// The instruction sent with every request.
pub open spec fn system_instruction() -> Seq<char> {
    instruction_text()@
}

/// The one place the instruction's wording stands.
#[verifier::when_used_as_spec(spec_instruction_text)]
pub fn instruction_text() -> (r: &'static str)
    ensures
        r == spec_instruction_text(),
{
    "You are a skilled text editor. When given a piece of text, please correct any grammatical, spelling, or punctuation errors while keeping changes to a minimum. Do not simply return the input verbatim; only make the necessary corrections. If the text is already correct, return it unchanged."
}

/// The instruction's wording, at spec level.
pub open spec fn spec_instruction_text() -> &'static str {
    "You are a skilled text editor. When given a piece of text, please correct any grammatical, spelling, or punctuation errors while keeping changes to a minimum. Do not simply return the input verbatim; only make the necessary corrections. If the text is already correct, return it unchanged."
}

/// Builds the request for one run: the fixed system instruction and the
/// text read from the clipboard, untouched.
pub fn build_request(user_text: &str) -> (r: CorrectionRequest)
    ensures
        r.instruction@ == system_instruction(),
        r.user_text@ == user_text@,
{
    CorrectionRequest { instruction: instruction_text().to_owned(), user_text: user_text.to_owned() }
}

/// What the transport handed back, as plain values: either the service
/// replied (with or without a text field), or it could not be reached.
#[derive(Debug, PartialEq, Eq)]
pub enum ServiceOutcome {
    /// The service replied; `Some` carries its text field, `None` means the
    /// reply had no text field at all.
    Reply(Option<String>),
    /// Network, timeout, or other transport failure.
    Unreachable,
}

impl Clone for ServiceOutcome {
    fn clone(&self) -> (r: Self)
        ensures
            r == *self,
    {
        match self {
            ServiceOutcome::Reply(opt) => ServiceOutcome::Reply(
                match opt {
                    Some(t) => Some(t.clone()),
                    None => None,
                },
            ),
            ServiceOutcome::Unreachable => ServiceOutcome::Unreachable,
        }
    }
}

/// The corrected text inside an outcome, if the outcome carries a usable
/// one: a reply whose text field is present and non-empty.
pub open spec fn corrected_text(outcome: ServiceOutcome) -> Option<Seq<char>> {
    match outcome {
        ServiceOutcome::Reply(Some(t)) => if t@.len() > 0 {
            Some(t@)
        } else {
            None
        },
        _ => None,
    }
}

/// The error an unusable outcome stands for: transport failures are
/// distinguished from replies that carried no usable text.
pub open spec fn outcome_error(outcome: ServiceOutcome) -> PipelineError {
    match outcome {
        ServiceOutcome::Unreachable => PipelineError::ServiceUnreachable,
        _ => PipelineError::EmptyResponse,
    }
}

/// Classifies a transport outcome: corrected text on success; otherwise
/// `ServiceUnreachable` for a transport failure and `EmptyResponse` for a
/// reply whose text field is absent or empty.
pub fn interpret_outcome(outcome: ServiceOutcome) -> (r: Result<String, PipelineError>)
    ensures
        match r {
            Ok(t) => corrected_text(outcome) == Some(t@),
            Err(e) => corrected_text(outcome) is None && e == outcome_error(outcome),
        },
{
    match outcome {
        ServiceOutcome::Reply(opt) => match opt {
            Some(t) => if t.as_str().is_empty() {
                Err(PipelineError::EmptyResponse)
            } else {
                Ok(t)
            },
            None => Err(PipelineError::EmptyResponse),
        },
        ServiceOutcome::Unreachable => Err(PipelineError::ServiceUnreachable),
    }
}

} // verus!

use correction_pipeline::correction::{
    build_request, instruction_text, interpret_outcome, ServiceOutcome,
};
use correction_pipeline::errors::PipelineError;
use correction_pipeline::keys::{copy_keys, paste_keys, Key, KeySequence, Platform};

#[test]
fn copy_chord_uses_the_platform_modifier() {
    assert_eq!(
        copy_keys(Platform::MacOs),
        KeySequence { first: Key::CommandLeft, second: Key::CommandLeft, action: Key::C }
    );
    assert_eq!(
        copy_keys(Platform::Other),
        KeySequence { first: Key::ControlLeft, second: Key::ControlLeft, action: Key::C }
    );
}

#[test]
fn paste_chord_uses_the_platform_modifier() {
    assert_eq!(
        paste_keys(Platform::MacOs),
        KeySequence { first: Key::CommandLeft, second: Key::CommandLeft, action: Key::V }
    );
    assert_eq!(
        paste_keys(Platform::Other),
        KeySequence { first: Key::ControlLeft, second: Key::ControlLeft, action: Key::V }
    );
}

#[test]
fn request_carries_instruction_and_text_unchanged() {
    let req = build_request("Teh cat sat.");
    assert_eq!(req.instruction, instruction_text());
    assert_eq!(req.user_text, "Teh cat sat.");
    assert!(req.instruction.contains("keeping changes to a minimum"));
}

#[test]
fn usable_reply_is_returned_as_is() {
    let r = interpret_outcome(ServiceOutcome::Reply(Some("The cat sat.".to_owned())));
    assert_eq!(r, Ok("The cat sat.".to_owned()));
}

#[test]
fn transport_failure_is_service_unreachable() {
    let r = interpret_outcome(ServiceOutcome::Unreachable);
    assert_eq!(r, Err(PipelineError::ServiceUnreachable));
}

#[test]
fn absent_text_field_is_empty_response() {
    let r = interpret_outcome(ServiceOutcome::Reply(None));
    assert_eq!(r, Err(PipelineError::EmptyResponse));
}

#[test]
fn empty_text_field_is_empty_response() {
    let r = interpret_outcome(ServiceOutcome::Reply(Some(String::new())));
    assert_eq!(r, Err(PipelineError::EmptyResponse));
}

#[test]
fn every_error_has_a_distinct_description() {
    let all = [
        PipelineError::ClipboardUnavailable,
        PipelineError::ClipboardWriteFailed,
        PipelineError::ServiceUnreachable,
        PipelineError::EmptyResponse,
    ];
    for (i, a) in all.iter().enumerate() {
        for (j, b) in all.iter().enumerate() {
            assert_eq!(i == j, a.describe() == b.describe());
        }
    }
    assert_eq!(
        PipelineError::ClipboardUnavailable.describe(),
        "clipboard unavailable"
    );
}

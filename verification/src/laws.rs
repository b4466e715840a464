//! The guarantees of a pipeline run, stated over its action trace.
//!
//! A run is observed through the sequence of actions it issues (see
//! `pipeline::run_actions`). The predicates here say what a trace does to
//! the outside world — whether it sends a request, writes the clipboard,
//! pastes — and the proof functions state the failure-propagation
//! guarantees: a failed step stops the run before any later side effect.
//! Run ordering itself — exactly one full run per trigger, in arrival
//! order, never interleaved — is the contract of
//! `pipeline::process_triggers`.

use vstd::prelude::*;
use crate::correction::{ServiceOutcome, corrected_text};
use crate::pipeline::{Action, RunOutcomes, run_actions};

verus! {

/// The trace sends at least one correction request.
pub open spec fn sends_request(s: Seq<Action>) -> bool {
    exists|i: int| 0 <= i < s.len() && s[i] is Correct
}

/// The trace writes to the clipboard at least once.
pub open spec fn writes_clipboard(s: Seq<Action>) -> bool {
    exists|i: int| 0 <= i < s.len() && s[i] is SetText
}

/// The trace simulates a paste at least once.
pub open spec fn pastes(s: Seq<Action>) -> bool {
    exists|i: int| 0 <= i < s.len() && s[i] is SimulatePaste
}

/// What one action leaves on the clipboard, given what was there before.
/// Only a write changes it.
pub open spec fn clip_effect(clip: Option<String>, a: Action) -> Option<String> {
    match a {
        Action::SetText(t) => Some(t),
        _ => clip,
    }
}

/// What a trace of actions leaves on the clipboard, applied in order.
pub open spec fn apply_clipboard(clip: Option<String>, s: Seq<Action>) -> Option<String>
    decreases s.len(),
{
    if s.len() == 0 {
        clip
    } else {
        clip_effect(apply_clipboard(clip, s.drop_last()), s.last())
    }
}

/// A trace that never writes leaves the clipboard exactly as it found it.
pub proof fn lemma_no_write_no_change(clip: Option<String>, s: Seq<Action>)
    requires
        !writes_clipboard(s),
    ensures
        apply_clipboard(clip, s) == clip,
    decreases s.len(),
{
    if s.len() > 0 {
        assert forall|i: int| 0 <= i < s.drop_last().len() implies !(#[trigger] s.drop_last()[i]
            is SetText) by {
            assert(s.drop_last()[i] == s[i]);
        }
        lemma_no_write_no_change(clip, s.drop_last());
        assert(!(s.last() is SetText)) by {
            assert(s[s.len() - 1] == s.last());
        }
    }
}

/// If the clipboard read fails, the run sends no correction request,
/// writes nothing to the clipboard, and does not paste.
pub proof fn lemma_read_failure_halts_run(instruction: String, oc: RunOutcomes)
    requires
        oc.read is None,
    ensures
        !sends_request(run_actions(instruction, oc)),
        !writes_clipboard(run_actions(instruction, oc)),
        !pastes(run_actions(instruction, oc)),
{
    let s = run_actions(instruction, oc);
    assert(s.len() == 3);
    assert forall|i: int| 0 <= i < s.len() implies !(#[trigger] s[i] is Correct) && !(s[i]
        is SetText) && !(s[i] is SimulatePaste) by {
        if i == 0 {
            assert(s[0] == Action::SimulateCopy);
        } else if i == 1 {
            assert(s[1] == Action::GetText);
        } else {
            assert(s[2] == Action::Finish(
                Some(crate::errors::PipelineError::ClipboardUnavailable),
            ));
        }
    }
}

/// If the correction call fails — the service unreachable, or its reply
/// without usable text — the run writes nothing to the clipboard, does not
/// paste, and leaves the clipboard exactly as it was before the run.
pub proof fn lemma_correct_failure_leaves_clipboard(
    instruction: String,
    oc: RunOutcomes,
    clip: Option<String>,
)
    requires
        oc.read is Some,
        corrected_text(oc.service) is None,
    ensures
        !writes_clipboard(run_actions(instruction, oc)),
        !pastes(run_actions(instruction, oc)),
        apply_clipboard(clip, run_actions(instruction, oc)) == clip,
{
    let s = run_actions(instruction, oc);
    assert(s.len() == 4);
    assert forall|i: int| 0 <= i < s.len() implies !(#[trigger] s[i] is SetText) && !(s[i]
        is SimulatePaste) by {
        if i == 0 {
            assert(s[0] == Action::SimulateCopy);
        } else if i == 1 {
            assert(s[1] == Action::GetText);
        } else if i == 2 {
            assert(s[2] is Correct);
        } else {
            assert(s[3] is Finish);
        }
    }
    lemma_no_write_no_change(clip, s);
}

/// If the clipboard write fails, the run does not paste.
pub proof fn lemma_write_failure_skips_paste(instruction: String, oc: RunOutcomes)
    requires
        oc.read is Some,
        corrected_text(oc.service) is Some,
        !oc.write_ok,
    ensures
        !pastes(run_actions(instruction, oc)),
{
    let s = run_actions(instruction, oc);
    assert(s.len() == 5);
    assert forall|i: int| 0 <= i < s.len() implies !(#[trigger] s[i] is SimulatePaste) by {
        if i == 0 {
            assert(s[0] == Action::SimulateCopy);
        } else if i == 1 {
            assert(s[1] == Action::GetText);
        } else if i == 2 {
            assert(s[2] is Correct);
        } else if i == 3 {
            assert(s[3] is SetText);
        } else {
            assert(s[4] is Finish);
        }
    }
}

/// A fully successful run — the clipboard read succeeds, the service
/// returns usable text, the write succeeds — sends a request, writes, and
/// pastes; and whatever the clipboard held before, it afterwards holds
/// exactly the text the service returned.
pub proof fn lemma_successful_run(instruction: String, oc: RunOutcomes, clip: Option<String>)
    requires
        oc.read is Some,
        corrected_text(oc.service) is Some,
        oc.write_ok,
    ensures
        sends_request(run_actions(instruction, oc)),
        writes_clipboard(run_actions(instruction, oc)),
        pastes(run_actions(instruction, oc)),
        match oc.service {
            ServiceOutcome::Reply(Some(c)) => apply_clipboard(
                clip,
                run_actions(instruction, oc),
            ) == Some(c),
            _ => false,
        },
{
    let s = run_actions(instruction, oc);
    let t = oc.read->Some_0;
    let c = oc.service->Reply_0->Some_0;
    let req = crate::correction::CorrectionRequest { instruction: instruction, user_text: t };
    assert(s =~= seq![
        Action::SimulateCopy,
        Action::GetText,
        Action::Correct(req),
        Action::SetText(c),
        Action::SimulatePaste,
        Action::Finish(None),
    ]);
    assert(s[2] is Correct);
    assert(s[3] is SetText);
    assert(s[4] is SimulatePaste);
    let s5 = s.drop_last();
    let s4 = s5.drop_last();
    let s3 = s4.drop_last();
    assert(s.last() == Action::Finish(None));
    assert(s5.last() == Action::SimulatePaste);
    assert(s4.last() == Action::SetText(c));
    assert(apply_clipboard(clip, s4) == Some(c));
    assert(apply_clipboard(clip, s5) == Some(c));
    assert(apply_clipboard(clip, s) == Some(c));
}

/// Replays a run's actions against a clipboard: what the clipboard holds
/// after the run, given what it held before.
pub fn clipboard_after(clip: Option<String>, actions: &Vec<Action>) -> (r: Option<String>)
    ensures
        r == apply_clipboard(clip, actions@),
{
    let mut r = clip;
    let mut i: usize = 0;
    while i < actions.len()
        invariant
            i <= actions@.len(),
            r == apply_clipboard(clip, actions@.take(i as int)),
        decreases actions@.len() - i,
    {
        match &actions[i] {
            Action::SetText(t) => {
                r = Some(t.clone());
            }
            _ => {}
        }
        proof {
            assert(actions@.take(i + 1 as int).drop_last() =~= actions@.take(i as int));
            assert(actions@.take(i + 1 as int).last() == actions@[i as int]);
        }
        i = i + 1;
    }
    proof {
        assert(actions@.take(actions@.len() as int) =~= actions@);
    }
    r
}

} // verus!

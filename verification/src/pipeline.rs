//! The per-trigger correction pipeline, as a state machine.
//!
//! One run walks `Idle → Copying → Reading → Correcting → Writing →
//! Pasting → Idle`, falling back to `Idle` early when the clipboard read,
//! the correction call, or the clipboard write fails. The machine itself
//! performs no I/O: each step consumes one event (what the outside world
//! reported) and returns one action (what the embedding process must do
//! next). The embedding process performs the action — simulating key
//! chords, touching the clipboard, calling the service — and feeds the
//! result back as the next event. Because one machine instance is driven
//! by one consumer, runs are single-flight: a run finishes before the next
//! trigger is taken, so no two runs' steps interleave.

use vstd::prelude::*;
use crate::correction::{CorrectionRequest, ServiceOutcome};
use crate::errors::PipelineError;

verus! {

/// Where a run stands. `Idle` is the only state in which a trigger is
/// consumed; every run ends back in `Idle`.
#[derive(Clone, Copy, Debug, PartialEq, Eq, Structural)]
pub enum State {
    Idle,
    Copying,
    Reading,
    Correcting,
    Writing,
    Pasting,
}

/// What the outside world reports to the machine.
#[derive(Debug, PartialEq, Eq)]
pub enum Event {
    /// The hotkey fired while the machine was idle.
    Trigger,
    /// The copy chord was sent and the settling delay has elapsed.
    CopySettled,
    /// The clipboard was read: its text, or `None` if it held no usable text.
    ReadDone(Option<String>),
    /// The correction call returned with this transport outcome.
    CorrectDone(ServiceOutcome),
    /// The clipboard write succeeded (`true`) or was rejected (`false`).
    WriteDone(bool),
    /// The paste chord was sent.
    PasteDone,
}

/// What the machine asks the outside world to do next.
#[derive(Debug, PartialEq, Eq)]
pub enum Action {
    /// Send the copy chord, wait the settling delay, report `CopySettled`.
    SimulateCopy,
    /// Read the clipboard, report `ReadDone`.
    GetText,
    /// Send this request to the correction service, report `CorrectDone`.
    Correct(CorrectionRequest),
    /// Write this text to the clipboard, report `WriteDone`.
    SetText(String),
    /// Send the paste chord, report `PasteDone`.
    SimulatePaste,
    /// The run is over; log the error if one is carried, then await the
    /// next trigger.
    Finish(Option<PipelineError>),
}

/// The pipeline: its current state and the configuration it was built
/// with — the system instruction sent with every correction request,
/// fixed at construction rather than read as ambient state.
pub struct Pipeline {
    pub state: State,
    pub instruction: String,
}

/// Whether event `e` can be delivered in state `s`. Each event belongs to
/// exactly one state; the driving loop never delivers any other, because
/// it performs exactly the action the previous step returned.
pub open spec fn event_enabled(s: State, e: Event) -> bool {
    match (s, e) {
        (State::Idle, Event::Trigger) => true,
        (State::Copying, Event::CopySettled) => true,
        (State::Reading, Event::ReadDone(_)) => true,
        (State::Correcting, Event::CorrectDone(_)) => true,
        (State::Writing, Event::WriteDone(_)) => true,
        (State::Pasting, Event::PasteDone) => true,
        _ => false,
    }
}

/// The transition function: from a machine and an event to the next
/// machine and the action the outside world must perform. This is the
/// whole transition table of the pipeline.
pub open spec fn spec_step(p: Pipeline, e: Event) -> (Pipeline, Action) {
    match (p.state, e) {
        (State::Idle, Event::Trigger) => (
            Pipeline { state: State::Copying, ..p },
            Action::SimulateCopy,
        ),
        (State::Copying, Event::CopySettled) => (
            Pipeline { state: State::Reading, ..p },
            Action::GetText,
        ),
        (State::Reading, Event::ReadDone(read)) => match read {
            Some(t) => (
                Pipeline { state: State::Correcting, ..p },
                Action::Correct(CorrectionRequest { instruction: p.instruction, user_text: t }),
            ),
            None => (
                Pipeline { state: State::Idle, ..p },
                Action::Finish(Some(PipelineError::ClipboardUnavailable)),
            ),
        },
        (State::Correcting, Event::CorrectDone(outcome)) => match outcome {
            ServiceOutcome::Reply(Some(t)) => if t@.len() > 0 {
                (Pipeline { state: State::Writing, ..p }, Action::SetText(t))
            } else {
                (
                    Pipeline { state: State::Idle, ..p },
                    Action::Finish(Some(PipelineError::EmptyResponse)),
                )
            },
            ServiceOutcome::Reply(None) => (
                Pipeline { state: State::Idle, ..p },
                Action::Finish(Some(PipelineError::EmptyResponse)),
            ),
            ServiceOutcome::Unreachable => (
                Pipeline { state: State::Idle, ..p },
                Action::Finish(Some(PipelineError::ServiceUnreachable)),
            ),
        },
        (State::Writing, Event::WriteDone(ok)) => if ok {
            (Pipeline { state: State::Pasting, ..p }, Action::SimulatePaste)
        } else {
            (
                Pipeline { state: State::Idle, ..p },
                Action::Finish(Some(PipelineError::ClipboardWriteFailed)),
            )
        },
        (State::Pasting, Event::PasteDone) => (
            Pipeline { state: State::Idle, ..p },
            Action::Finish(None),
        ),
        _ => (p, Action::Finish(None)),
    }
}

impl Pipeline {
    /// A fresh pipeline: idle, configured with the fixed system
    /// instruction.
    pub fn new() -> (r: Pipeline)
        ensures
            r.state == State::Idle,
            r.instruction@ == crate::correction::system_instruction(),
    {
        Pipeline {
            state: State::Idle,
            instruction: crate::correction::instruction_text().to_owned(),
        }
    }

    /// One transition: consume the event, move to the next state, and
    /// return the action the outside world must perform. The instruction
    /// never changes.
    pub fn step(&mut self, e: Event) -> (a: Action)
        requires
            event_enabled(old(self).state, e),
        ensures
            *final(self) == spec_step(*old(self), e).0,
            a == spec_step(*old(self), e).1,
    {
        match e {
            Event::Trigger => {
                self.state = State::Copying;
                Action::SimulateCopy
            }
            Event::CopySettled => {
                self.state = State::Reading;
                Action::GetText
            }
            Event::ReadDone(read) => match read {
                Some(t) => {
                    self.state = State::Correcting;
                    Action::Correct(CorrectionRequest {
                        instruction: self.instruction.clone(),
                        user_text: t,
                    })
                }
                None => {
                    self.state = State::Idle;
                    Action::Finish(Some(PipelineError::ClipboardUnavailable))
                }
            },
            Event::CorrectDone(outcome) => match outcome {
                ServiceOutcome::Reply(opt) => match opt {
                    Some(t) => if t.as_str().is_empty() {
                        self.state = State::Idle;
                        Action::Finish(Some(PipelineError::EmptyResponse))
                    } else {
                        self.state = State::Writing;
                        Action::SetText(t)
                    },
                    None => {
                        self.state = State::Idle;
                        Action::Finish(Some(PipelineError::EmptyResponse))
                    }
                },
                ServiceOutcome::Unreachable => {
                    self.state = State::Idle;
                    Action::Finish(Some(PipelineError::ServiceUnreachable))
                }
            },
            Event::WriteDone(ok) => if ok {
                self.state = State::Pasting;
                Action::SimulatePaste
            } else {
                self.state = State::Idle;
                Action::Finish(Some(PipelineError::ClipboardWriteFailed))
            },
            Event::PasteDone => {
                self.state = State::Idle;
                Action::Finish(None)
            }
        }
    }
}

/// What the outside world would answer during one run: the clipboard text
/// (consulted after the copy settles), the service's outcome (consulted
/// only if the read succeeded), and whether the clipboard write succeeded
/// (consulted only if corrected text was obtained).
#[derive(Debug, PartialEq, Eq)]
pub struct RunOutcomes {
    pub read: Option<String>,
    pub service: ServiceOutcome,
    pub write_ok: bool,
}

impl Clone for RunOutcomes {
    fn clone(&self) -> (r: Self)
        ensures
            r == *self,
    {
        RunOutcomes {
            read: match &self.read {
                Some(t) => Some(t.clone()),
                None => None,
            },
            service: self.service.clone(),
            write_ok: self.write_ok,
        }
    }
}

/// The full sequence of actions one run performs, given the outside
/// world's answers and the configured instruction. A run always begins by
/// simulating copy and reading the clipboard; it sends a request only if
/// the read succeeded, writes back only if the service produced usable
/// text, and pastes only if that write succeeded.
pub open spec fn run_actions(instruction: String, oc: RunOutcomes) -> Seq<Action> {
    seq![Action::SimulateCopy, Action::GetText] + match oc.read {
        None => seq![Action::Finish(Some(PipelineError::ClipboardUnavailable))],
        Some(t) => seq![
            Action::Correct(CorrectionRequest { instruction: instruction, user_text: t }),
        ] + match oc.service {
            ServiceOutcome::Reply(Some(c)) => if c@.len() > 0 {
                seq![Action::SetText(c)] + if oc.write_ok {
                    seq![Action::SimulatePaste, Action::Finish(None)]
                } else {
                    seq![Action::Finish(Some(PipelineError::ClipboardWriteFailed))]
                }
            } else {
                seq![Action::Finish(Some(PipelineError::EmptyResponse))]
            },
            ServiceOutcome::Reply(None) => seq![
                Action::Finish(Some(PipelineError::EmptyResponse)),
            ],
            ServiceOutcome::Unreachable => seq![
                Action::Finish(Some(PipelineError::ServiceUnreachable)),
            ],
        },
    }
}

/// Drives one trigger's run to completion: every step of the run happens
/// here, in order, before this function returns, so no other run's steps
/// can interleave with it. Returns exactly the actions of the run, in the
/// order they were issued; the machine ends idle again, its configuration
/// untouched.
pub fn run_to_completion(p: &mut Pipeline, oc: RunOutcomes) -> (actions: Vec<Action>)
    requires
        old(p).state == State::Idle,
    ensures
        final(p).state == State::Idle,
        final(p).instruction == old(p).instruction,
        actions@ == run_actions(old(p).instruction, oc),
{
    let RunOutcomes { read, service, write_ok } = oc;
    let mut actions: Vec<Action> = Vec::new();
    let a = p.step(Event::Trigger);
    actions.push(a);
    let a = p.step(Event::CopySettled);
    actions.push(a);
    let a = p.step(Event::ReadDone(read));
    actions.push(a);
    if p.state == State::Idle {
        proof {
            assert(actions@ =~= run_actions(old(p).instruction, oc));
        }
        return actions;
    }
    let a = p.step(Event::CorrectDone(service));
    actions.push(a);
    if p.state == State::Idle {
        proof {
            assert(actions@ =~= run_actions(old(p).instruction, oc));
        }
        return actions;
    }
    let a = p.step(Event::WriteDone(write_ok));
    actions.push(a);
    if p.state == State::Idle {
        proof {
            assert(actions@ =~= run_actions(old(p).instruction, oc));
        }
        return actions;
    }
    let a = p.step(Event::PasteDone);
    actions.push(a);
    proof {
        assert(actions@ =~= run_actions(old(p).instruction, oc));
    }
    actions
}

/// Processes a queue of triggers one after the other: exactly one full run
/// per trigger, strictly in arrival order, each run finished before the
/// next begins. `outcomes[i]` is what the outside world answers during the
/// `i`-th run.
pub fn process_triggers(p: &mut Pipeline, outcomes: &Vec<RunOutcomes>) -> (runs: Vec<Vec<Action>>)
    requires
        old(p).state == State::Idle,
    ensures
        final(p).state == State::Idle,
        final(p).instruction == old(p).instruction,
        runs@.len() == outcomes@.len(),
        forall|i: int|
            0 <= i < outcomes@.len() ==> (#[trigger] runs@[i])@ == run_actions(
                old(p).instruction,
                outcomes@[i],
            ),
{
    let mut runs: Vec<Vec<Action>> = Vec::new();
    let mut i: usize = 0;
    while i < outcomes.len()
        invariant
            p.state == State::Idle,
            p.instruction == old(p).instruction,
            i <= outcomes@.len(),
            runs@.len() == i,
            forall|j: int|
                0 <= j < i ==> (#[trigger] runs@[j])@ == run_actions(
                    old(p).instruction,
                    outcomes@[j],
                ),
        decreases outcomes@.len() - i,
    {
        let oc = outcomes[i].clone();
        let rec = run_to_completion(p, oc);
        runs.push(rec);
        i = i + 1;
    }
    runs
}

} // verus!

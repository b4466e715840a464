use correction_pipeline::correction::ServiceOutcome;
use correction_pipeline::errors::PipelineError;
use correction_pipeline::laws::clipboard_after;
use correction_pipeline::pipeline::{
    run_to_completion, process_triggers, Action, Event, Pipeline, RunOutcomes, State,
};

fn count_copies(actions: &[Action]) -> usize {
    actions.iter().filter(|a| matches!(a, Action::SimulateCopy)).count()
}

fn count_pastes(actions: &[Action]) -> usize {
    actions.iter().filter(|a| matches!(a, Action::SimulatePaste)).count()
}

fn count_requests(actions: &[Action]) -> usize {
    actions.iter().filter(|a| matches!(a, Action::Correct(_))).count()
}

fn count_writes(actions: &[Action]) -> usize {
    actions.iter().filter(|a| matches!(a, Action::SetText(_))).count()
}

#[test]
fn corrected_sentence_replaces_clipboard() {
    let mut p = Pipeline::new();
    let actions = run_to_completion(
        &mut p,
        RunOutcomes {
            read: Some("Teh cat sat.".to_owned()),
            service: ServiceOutcome::Reply(Some("The cat sat.".to_owned())),
            write_ok: true,
        },
    );
    let clip = clipboard_after(Some("Teh cat sat.".to_owned()), &actions);
    assert_eq!(clip, Some("The cat sat.".to_owned()));
    assert_eq!(count_copies(&actions), 1);
    assert_eq!(count_pastes(&actions), 1);
    assert_eq!(count_requests(&actions), 1);
    match &actions[2] {
        Action::Correct(req) => {
            assert_eq!(req.user_text, "Teh cat sat.");
            assert_eq!(req.instruction, correction_pipeline::correction::instruction_text());
        }
        other => panic!("expected a correction request, got {:?}", other),
    }
    assert_eq!(actions.last(), Some(&Action::Finish(None)));
    assert_eq!(p.state, State::Idle);
}

#[test]
fn already_correct_text_still_pastes() {
    let mut p = Pipeline::new();
    let actions = run_to_completion(
        &mut p,
        RunOutcomes {
            read: Some("Hello world.".to_owned()),
            service: ServiceOutcome::Reply(Some("Hello world.".to_owned())),
            write_ok: true,
        },
    );
    let clip = clipboard_after(Some("Hello world.".to_owned()), &actions);
    assert_eq!(clip, Some("Hello world.".to_owned()));
    assert_eq!(count_pastes(&actions), 1);
    assert_eq!(count_writes(&actions), 1);
}

#[test]
fn read_failure_stops_the_run() {
    let mut p = Pipeline::new();
    let actions = run_to_completion(
        &mut p,
        RunOutcomes {
            read: None,
            service: ServiceOutcome::Reply(Some("unused".to_owned())),
            write_ok: true,
        },
    );
    assert_eq!(
        actions,
        vec![
            Action::SimulateCopy,
            Action::GetText,
            Action::Finish(Some(PipelineError::ClipboardUnavailable)),
        ]
    );
    assert_eq!(count_requests(&actions), 0);
    assert_eq!(count_writes(&actions), 0);
    assert_eq!(count_pastes(&actions), 0);
    assert_eq!(p.state, State::Idle);
}

#[test]
fn unreachable_service_leaves_clipboard_untouched() {
    let mut p = Pipeline::new();
    let actions = run_to_completion(
        &mut p,
        RunOutcomes {
            read: Some("Teh cat sat.".to_owned()),
            service: ServiceOutcome::Unreachable,
            write_ok: true,
        },
    );
    assert_eq!(
        actions.last(),
        Some(&Action::Finish(Some(PipelineError::ServiceUnreachable)))
    );
    assert_eq!(count_writes(&actions), 0);
    assert_eq!(count_pastes(&actions), 0);
    let clip = clipboard_after(Some("Teh cat sat.".to_owned()), &actions);
    assert_eq!(clip, Some("Teh cat sat.".to_owned()));
}

#[test]
fn reply_without_text_is_an_empty_response() {
    let mut p = Pipeline::new();
    let actions = run_to_completion(
        &mut p,
        RunOutcomes {
            read: Some("Teh cat sat.".to_owned()),
            service: ServiceOutcome::Reply(None),
            write_ok: true,
        },
    );
    assert_eq!(
        actions.last(),
        Some(&Action::Finish(Some(PipelineError::EmptyResponse)))
    );
    assert_eq!(count_writes(&actions), 0);
    assert_eq!(count_pastes(&actions), 0);
}

#[test]
fn reply_with_empty_text_is_an_empty_response() {
    let mut p = Pipeline::new();
    let actions = run_to_completion(
        &mut p,
        RunOutcomes {
            read: Some("Teh cat sat.".to_owned()),
            service: ServiceOutcome::Reply(Some(String::new())),
            write_ok: true,
        },
    );
    assert_eq!(
        actions.last(),
        Some(&Action::Finish(Some(PipelineError::EmptyResponse)))
    );
    assert_eq!(count_writes(&actions), 0);
    assert_eq!(count_pastes(&actions), 0);
    let clip = clipboard_after(Some("Teh cat sat.".to_owned()), &actions);
    assert_eq!(clip, Some("Teh cat sat.".to_owned()));
}

#[test]
fn write_failure_skips_the_paste() {
    let mut p = Pipeline::new();
    let actions = run_to_completion(
        &mut p,
        RunOutcomes {
            read: Some("Teh cat sat.".to_owned()),
            service: ServiceOutcome::Reply(Some("The cat sat.".to_owned())),
            write_ok: false,
        },
    );
    assert_eq!(
        actions.last(),
        Some(&Action::Finish(Some(PipelineError::ClipboardWriteFailed)))
    );
    assert_eq!(count_pastes(&actions), 0);
    assert_eq!(p.state, State::Idle);
}

#[test]
fn burst_of_five_triggers_runs_five_times() {
    let mut p = Pipeline::new();
    let one = || RunOutcomes {
        read: Some("Teh cat sat.".to_owned()),
        service: ServiceOutcome::Reply(Some("The cat sat.".to_owned())),
        write_ok: true,
    };
    let outcomes = vec![one(), one(), one(), one(), one()];
    let runs = process_triggers(&mut p, &outcomes);
    assert_eq!(runs.len(), 5);
    let mut total_requests = 0;
    for run in &runs {
        assert_eq!(count_copies(run), 1);
        assert_eq!(count_pastes(run), 1);
        assert_eq!(count_requests(run), 1);
        total_requests += count_requests(run);
    }
    assert_eq!(total_requests, 5);
    assert_eq!(p.state, State::Idle);
}

#[test]
fn triggers_processed_in_arrival_order() {
    let mut p = Pipeline::new();
    let texts = ["first", "second", "third"];
    let outcomes: Vec<RunOutcomes> = texts
        .iter()
        .map(|t| RunOutcomes {
            read: Some((*t).to_owned()),
            service: ServiceOutcome::Reply(Some((*t).to_owned())),
            write_ok: true,
        })
        .collect();
    let runs = process_triggers(&mut p, &outcomes);
    assert_eq!(runs.len(), 3);
    for (i, run) in runs.iter().enumerate() {
        match &run[2] {
            Action::Correct(req) => assert_eq!(req.user_text, texts[i]),
            other => panic!("expected a correction request, got {:?}", other),
        }
    }
}

#[test]
fn step_walks_the_full_state_cycle() {
    let mut p = Pipeline::new();
    assert_eq!(p.state, State::Idle);
    assert_eq!(p.step(Event::Trigger), Action::SimulateCopy);
    assert_eq!(p.state, State::Copying);
    assert_eq!(p.step(Event::CopySettled), Action::GetText);
    assert_eq!(p.state, State::Reading);
    let a = p.step(Event::ReadDone(Some("Teh cat sat.".to_owned())));
    assert!(matches!(a, Action::Correct(_)));
    assert_eq!(p.state, State::Correcting);
    let a = p.step(Event::CorrectDone(ServiceOutcome::Reply(Some(
        "The cat sat.".to_owned(),
    ))));
    assert_eq!(a, Action::SetText("The cat sat.".to_owned()));
    assert_eq!(p.state, State::Writing);
    assert_eq!(p.step(Event::WriteDone(true)), Action::SimulatePaste);
    assert_eq!(p.state, State::Pasting);
    assert_eq!(p.step(Event::PasteDone), Action::Finish(None));
    assert_eq!(p.state, State::Idle);
}

use pdf_unlocker::controller::{
    handle_event, job_outcome, render, Event, LabelContent, LabelStyle,
};
use pdf_unlocker::state::{AppState, JobResult, UiPhase};

#[test]
fn starts_idle_with_unlock_disabled() {
    let st = AppState::new();
    assert_eq!(st.phase, UiPhase::Idle);
    assert!(st.selected_file.is_none());
    assert!(st.last_result.is_none());
    let d = render(&st);
    assert!(!d.unlock_enabled);
    assert_eq!(d.style, LabelStyle::Neutral);
    assert_eq!(d.content, LabelContent::Instructions);
}

#[test]
fn process_without_selection_is_a_no_op() {
    let mut st = AppState::new();
    let r = handle_event(&mut st, Event::Process);
    assert_eq!(st.phase, UiPhase::Idle);
    assert!(st.selected_file.is_none());
    assert!(r.display.is_none());
    assert!(r.dispatch.is_none());
}

#[test]
fn cancelled_selection_changes_nothing() {
    let mut st = AppState::new();
    let r = handle_event(&mut st, Event::SelectionCancelled);
    assert_eq!(st.phase, UiPhase::Idle);
    assert!(st.selected_file.is_none());
    assert!(r.display.is_none());
    assert!(r.dispatch.is_none());
    assert!(!render(&st).unlock_enabled);
}

#[test]
fn choosing_a_file_enables_unlock() {
    let mut st = AppState::new();
    let r = handle_event(&mut st, Event::FileChosen("/tmp/doc.pdf".to_string()));
    assert_eq!(st.phase, UiPhase::FileSelected);
    assert_eq!(st.selected_file.as_deref(), Some("/tmp/doc.pdf"));
    let d = r.display.expect("a selection shows an instruction");
    assert!(d.unlock_enabled);
    assert_eq!(d.content, LabelContent::ChosenFile("/tmp/doc.pdf".to_string()));
    assert!(r.dispatch.is_none());
}

#[test]
fn process_dispatches_job_with_derived_output_path() {
    let mut st = AppState::new();
    handle_event(&mut st, Event::FileChosen("/tmp/doc.pdf".to_string()));
    let r = handle_event(&mut st, Event::Process);
    assert_eq!(st.phase, UiPhase::Processing);
    let j = r.dispatch.expect("a job is dispatched");
    assert_eq!(j.input, "/tmp/doc.pdf");
    assert_eq!(j.output, "/tmp/doc_unlocked.pdf");
    let d = r.display.expect("processing shows an instruction");
    assert!(!d.unlock_enabled);
    assert_eq!(d.style, LabelStyle::Busy);
    assert_eq!(d.content, LabelContent::Working);
}

#[test]
fn duplicate_process_dispatches_no_second_job() {
    let mut st = AppState::new();
    handle_event(&mut st, Event::FileChosen("/tmp/doc.pdf".to_string()));
    let first = handle_event(&mut st, Event::Process);
    assert!(first.dispatch.is_some());
    let second = handle_event(&mut st, Event::Process);
    assert_eq!(st.phase, UiPhase::Processing);
    assert!(second.dispatch.is_none());
    assert!(second.display.is_none());
}

#[test]
fn selection_during_processing_is_ignored() {
    let mut st = AppState::new();
    handle_event(&mut st, Event::FileChosen("/tmp/doc.pdf".to_string()));
    handle_event(&mut st, Event::Process);
    let r = handle_event(&mut st, Event::FileChosen("/tmp/other.pdf".to_string()));
    assert_eq!(st.phase, UiPhase::Processing);
    assert_eq!(st.selected_file.as_deref(), Some("/tmp/doc.pdf"));
    assert!(r.display.is_none());
    assert!(r.dispatch.is_none());
}

#[test]
fn success_outcome_reaches_succeeded_and_shows_output() {
    let mut st = AppState::new();
    handle_event(&mut st, Event::FileChosen("/tmp/doc.pdf".to_string()));
    let r = handle_event(&mut st, Event::Process);
    let out = r.dispatch.unwrap().output;
    let r2 = handle_event(&mut st, Event::Outcome(JobResult::Success(out)));
    assert_eq!(st.phase, UiPhase::Succeeded);
    let d = r2.display.expect("success shows an instruction");
    assert!(!d.unlock_enabled);
    assert_eq!(d.style, LabelStyle::Good);
    assert_eq!(
        d.content,
        LabelContent::Unlocked("/tmp/doc_unlocked.pdf".to_string())
    );
    assert!(r2.dispatch.is_none());
}

#[test]
fn failure_outcome_reaches_failed_and_reenables_unlock() {
    let mut st = AppState::new();
    handle_event(&mut st, Event::FileChosen("/tmp/doc.pdf".to_string()));
    handle_event(&mut st, Event::Process);
    let r = handle_event(
        &mut st,
        Event::Outcome(JobResult::Failure("not a valid PDF".to_string())),
    );
    assert_eq!(st.phase, UiPhase::Failed);
    let d = r.display.expect("failure shows an instruction");
    assert!(d.unlock_enabled);
    assert_eq!(d.style, LabelStyle::Bad);
    assert_eq!(
        d.content,
        LabelContent::FailureText("not a valid PDF".to_string())
    );
    assert!(r.dispatch.is_none());
}

#[test]
fn failed_attempt_can_be_retried_without_reselecting() {
    let mut st = AppState::new();
    handle_event(&mut st, Event::FileChosen("/tmp/doc.pdf".to_string()));
    handle_event(&mut st, Event::Process);
    handle_event(
        &mut st,
        Event::Outcome(JobResult::Failure("disk full".to_string())),
    );
    let retry = handle_event(&mut st, Event::Process);
    assert_eq!(st.phase, UiPhase::Processing);
    let j = retry.dispatch.expect("the retry dispatches a job");
    assert_eq!(j.input, "/tmp/doc.pdf");
    assert_eq!(j.output, "/tmp/doc_unlocked.pdf");
}

#[test]
fn out_of_band_process_from_succeeded_starts_a_job() {
    let mut st = AppState::new();
    handle_event(&mut st, Event::FileChosen("/tmp/doc.pdf".to_string()));
    handle_event(&mut st, Event::Process);
    handle_event(
        &mut st,
        Event::Outcome(JobResult::Success("/tmp/doc_unlocked.pdf".to_string())),
    );
    let r = handle_event(&mut st, Event::Process);
    assert_eq!(st.phase, UiPhase::Processing);
    assert!(r.dispatch.is_some());
}

#[test]
fn reselection_after_success_starts_over() {
    let mut st = AppState::new();
    handle_event(&mut st, Event::FileChosen("/tmp/doc.pdf".to_string()));
    handle_event(&mut st, Event::Process);
    handle_event(
        &mut st,
        Event::Outcome(JobResult::Success("/tmp/doc_unlocked.pdf".to_string())),
    );
    assert!(!render(&st).unlock_enabled);
    let r = handle_event(&mut st, Event::FileChosen("/tmp/new.pdf".to_string()));
    assert_eq!(st.phase, UiPhase::FileSelected);
    assert_eq!(st.selected_file.as_deref(), Some("/tmp/new.pdf"));
    assert!(r.display.unwrap().unlock_enabled);
}

#[test]
fn job_outcome_maps_results_to_messages() {
    let ok = job_outcome(Ok(()), "/tmp/doc_unlocked.pdf".to_string());
    assert_eq!(ok, JobResult::Success("/tmp/doc_unlocked.pdf".to_string()));
    let err = job_outcome(
        Err("cannot open document".to_string()),
        "/tmp/doc_unlocked.pdf".to_string(),
    );
    assert_eq!(err, JobResult::Failure("cannot open document".to_string()));
}

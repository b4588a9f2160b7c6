//! The controller: the sole consumer of the message channel. It turns each
//! event into a state change, at most one display instruction, and at most
//! one job dispatch.

use vstd::prelude::*;

use crate::naming::{output_path_naming, output_path_spec};
use crate::state::{AppState, JobResult, OutcomeModel, StateModel, UiPhase, wf};

verus! {

/// An event handled by the controller, in arrival order, each to completion
/// before the next. The picker's confirmation or cancellation and the
/// worker's outcome arrive as events; the controller itself does no I/O.
pub enum Event {
    /// The picker confirmed an existing regular file at this path.
    FileChosen(String),
    /// The picker was cancelled, or the chosen entry was not a regular file.
    SelectionCancelled,
    /// The unlock action was triggered.
    Process,
    /// A worker finished its job with this outcome.
    Outcome(JobResult),
}

/// Model of an event, over character sequences.
pub enum EventModel {
    FileChosen(Seq<char>),
    SelectionCancelled,
    Process,
    Outcome(OutcomeModel),
}

impl View for Event {
    type V = EventModel;

    open spec fn view(&self) -> EventModel {
        match self {
            Event::FileChosen(p) => EventModel::FileChosen(p@),
            Event::SelectionCancelled => EventModel::SelectionCancelled,
            Event::Process => EventModel::Process,
            Event::Outcome(r) => EventModel::Outcome(r@),
        }
    }
}

/// The style the view renders the status label in.
#[derive(Clone, Copy, PartialEq, Eq, Structural, Debug)]
pub enum LabelStyle {
    Neutral,
    Busy,
    Good,
    Bad,
}

/// What the status label shows; the view turns this into the literal text.
#[derive(Clone, Debug, PartialEq)]
pub enum LabelContent {
    /// The initial hint that a file should be selected.
    Instructions,
    /// The path the user chose, with the prompt to start unlocking.
    ChosenFile(String),
    /// The note that the rewrite is running.
    Working,
    /// The success note with the output path.
    Unlocked(String),
    /// The failure note with the error text.
    FailureText(String),
}

/// Model of the label content, over character sequences.
pub enum ContentModel {
    Instructions,
    ChosenFile(Seq<char>),
    Working,
    Unlocked(Seq<char>),
    FailureText(Seq<char>),
}

impl View for LabelContent {
    type V = ContentModel;

    open spec fn view(&self) -> ContentModel {
        match self {
            LabelContent::Instructions => ContentModel::Instructions,
            LabelContent::ChosenFile(p) => ContentModel::ChosenFile(p@),
            LabelContent::Working => ContentModel::Working,
            LabelContent::Unlocked(p) => ContentModel::Unlocked(p@),
            LabelContent::FailureText(m) => ContentModel::FailureText(m@),
        }
    }
}

/// One display instruction for the view: whether the unlock trigger is
/// enabled, and the style and content of the status label.
#[derive(Clone, Debug, PartialEq)]
pub struct DisplayInstruction {
    pub unlock_enabled: bool,
    pub style: LabelStyle,
    pub content: LabelContent,
}

/// Model of a display instruction.
pub struct DisplayModel {
    pub unlock_enabled: bool,
    pub style: LabelStyle,
    pub content: ContentModel,
}

impl View for DisplayInstruction {
    type V = DisplayModel;

    open spec fn view(&self) -> DisplayModel {
        DisplayModel {
            unlock_enabled: self.unlock_enabled,
            style: self.style,
            content: self.content@,
        }
    }
}

/// The input/output path pair handed to the worker that runs one rewrite job.
#[derive(Clone, Debug, PartialEq)]
pub struct JobSpec {
    pub input: String,
    pub output: String,
}

/// Model of a job dispatch.
pub struct JobSpecModel {
    pub input: Seq<char>,
    pub output: Seq<char>,
}

impl View for JobSpec {
    type V = JobSpecModel;

    open spec fn view(&self) -> JobSpecModel {
        JobSpecModel { input: self.input@, output: self.output@ }
    }
}

/// Everything one handled event produces besides the state change: at most
/// one display instruction and at most one job dispatch.
pub struct Response {
    pub display: Option<DisplayInstruction>,
    pub dispatch: Option<JobSpec>,
}

/// Model of a response.
pub struct ResponseModel {
    pub display: Option<DisplayModel>,
    pub dispatch: Option<JobSpecModel>,
}

impl View for Response {
    type V = ResponseModel;

    open spec fn view(&self) -> ResponseModel {
        ResponseModel {
            display: match self.display {
                Some(d) => Some(d@),
                None => None,
            },
            dispatch: match self.dispatch {
                Some(j) => Some(j@),
                None => None,
            },
        }
    }
}

/// Whether the event is a silent no-op in this state: a cancelled selection,
/// a selection made while a job is running, or an unlock trigger with no file
/// selected or with a job already running.
pub open spec fn event_ignored(s: StateModel, ev: EventModel) -> bool {
    match ev {
        EventModel::FileChosen(_) => s.phase == UiPhase::Processing,
        EventModel::SelectionCancelled => true,
        EventModel::Process => s.selected is None || s.phase == UiPhase::Processing,
        EventModel::Outcome(_) => false,
    }
}

/// The state after an event: the controller's transition function.
pub open spec fn spec_step(s: StateModel, ev: EventModel) -> StateModel {
    if event_ignored(s, ev) {
        s
    } else {
        match ev {
            EventModel::FileChosen(p) => StateModel {
                selected: Some(p),
                phase: UiPhase::FileSelected,
                ..s
            },
            EventModel::SelectionCancelled => s,
            EventModel::Process => StateModel { phase: UiPhase::Processing, ..s },
            EventModel::Outcome(o) => match o {
                OutcomeModel::Success(_) => StateModel {
                    phase: UiPhase::Succeeded,
                    last: Some(o),
                    ..s
                },
                OutcomeModel::Failure(_) => StateModel {
                    phase: UiPhase::Failed,
                    last: Some(o),
                    ..s
                },
            },
        }
    }
}

/// The display instruction for a state: a pure projection of the phase and
/// the data it carries. The unlock trigger is enabled exactly in
/// `FileSelected` and `Failed`.
pub open spec fn render_model(s: StateModel) -> DisplayModel {
    match s.phase {
        UiPhase::Idle => DisplayModel {
            unlock_enabled: false,
            style: LabelStyle::Neutral,
            content: ContentModel::Instructions,
        },
        UiPhase::FileSelected => DisplayModel {
            unlock_enabled: true,
            style: LabelStyle::Neutral,
            content: ContentModel::ChosenFile(s.selected->0),
        },
        UiPhase::Processing => DisplayModel {
            unlock_enabled: false,
            style: LabelStyle::Busy,
            content: ContentModel::Working,
        },
        UiPhase::Succeeded => DisplayModel {
            unlock_enabled: false,
            style: LabelStyle::Good,
            content: match s.last {
                Some(OutcomeModel::Success(out)) => ContentModel::Unlocked(out),
                _ => ContentModel::Instructions,
            },
        },
        UiPhase::Failed => DisplayModel {
            unlock_enabled: true,
            style: LabelStyle::Bad,
            content: match s.last {
                Some(OutcomeModel::Failure(msg)) => ContentModel::FailureText(msg),
                _ => ContentModel::Instructions,
            },
        },
    }
}

/// The display instruction an event produces: none for a no-op, otherwise
/// exactly the projection of the state after the event.
pub open spec fn spec_display(s: StateModel, ev: EventModel) -> Option<DisplayModel> {
    if event_ignored(s, ev) {
        None
    } else {
        Some(render_model(spec_step(s, ev)))
    }
}

/// The job an event dispatches: only a non-ignored `Process` dispatches one,
/// with the selected file as input and the output path derived from it by
/// the naming rule.
pub open spec fn spec_dispatch(s: StateModel, ev: EventModel) -> Option<JobSpecModel> {
    if ev is Process && !event_ignored(s, ev) {
        Some(JobSpecModel { input: s.selected->0, output: output_path_spec(s.selected->0) })
    } else {
        None
    }
}

/// Law: a `Process` event with no file selected changes nothing, dispatches
/// no job, and shows nothing.
pub proof fn lemma_process_needs_selection(s: StateModel)
    requires
        s.selected is None,
    ensures
        spec_step(s, EventModel::Process) == s,
        spec_dispatch(s, EventModel::Process) is None,
        spec_display(s, EventModel::Process) is None,
{
}

/// Law: a `Process` event during `Processing` changes nothing and dispatches
/// no second job, whatever is selected.
pub proof fn lemma_process_is_single_shot(s: StateModel)
    requires
        s.phase == UiPhase::Processing,
    ensures
        spec_step(s, EventModel::Process) == s,
        spec_dispatch(s, EventModel::Process) is None,
        spec_display(s, EventModel::Process) is None,
{
}

/// Law: a success outcome received during `Processing` always moves the state
/// to `Succeeded` and to no other phase, records the output path, keeps the
/// selection, and leaves the unlock trigger disabled.
pub proof fn lemma_success_yields_succeeded(s: StateModel, out: Seq<char>)
    requires
        s.phase == UiPhase::Processing,
    ensures
        spec_step(s, EventModel::Outcome(OutcomeModel::Success(out))) == (StateModel {
            phase: UiPhase::Succeeded,
            last: Some(OutcomeModel::Success(out)),
            ..s
        }),
        spec_display(s, EventModel::Outcome(OutcomeModel::Success(out))) matches Some(d)
            && !d.unlock_enabled
            && d.content == ContentModel::Unlocked(out),
        spec_dispatch(s, EventModel::Outcome(OutcomeModel::Success(out))) is None,
{
}

/// Law: a failure outcome always moves the state to `Failed`, records the
/// message, keeps the selection, and re-enables the unlock trigger so the
/// same file can be retried.
pub proof fn lemma_failure_yields_failed(s: StateModel, msg: Seq<char>)
    ensures
        spec_step(s, EventModel::Outcome(OutcomeModel::Failure(msg))) == (StateModel {
            phase: UiPhase::Failed,
            last: Some(OutcomeModel::Failure(msg)),
            ..s
        }),
        spec_display(s, EventModel::Outcome(OutcomeModel::Failure(msg))) matches Some(d)
            && d.unlock_enabled
            && d.content == ContentModel::FailureText(msg),
        spec_dispatch(s, EventModel::Outcome(OutcomeModel::Failure(msg))) is None,
{
}

/// Law: every event preserves well-formedness of the state.
pub proof fn lemma_step_preserves_wf(s: StateModel, ev: EventModel)
    requires
        wf(s),
    ensures
        wf(spec_step(s, ev)),
{
}

/// Law: `Processing` is entered only by a `Process` event issued while a file
/// is selected and the phase is `FileSelected`, `Succeeded` or `Failed`, and
/// entering it is exactly when a job is dispatched.
pub proof fn lemma_processing_entry(s: StateModel, ev: EventModel)
    requires
        wf(s),
        s.phase != UiPhase::Processing,
        spec_step(s, ev).phase == UiPhase::Processing,
    ensures
        ev == EventModel::Process,
        s.selected is Some,
        s.phase == UiPhase::FileSelected || s.phase == UiPhase::Succeeded || s.phase
            == UiPhase::Failed,
        spec_dispatch(s, ev) is Some,
{
}

/// Law: a job is dispatched exactly when the event moves the state into
/// `Processing`; so no dispatch ever happens while a job is already running.
pub proof fn lemma_dispatch_iff_entering_processing(s: StateModel, ev: EventModel)
    ensures
        spec_dispatch(s, ev) is Some <==> (s.phase != UiPhase::Processing && spec_step(
            s,
            ev,
        ).phase == UiPhase::Processing),
{
}

/// Law: a dispatched job carries the selected file as input and the output
/// path the naming rule derives from it.
pub proof fn lemma_dispatch_paths(s: StateModel, ev: EventModel)
    requires
        spec_dispatch(s, ev) is Some,
    ensures
        s.selected is Some,
        spec_dispatch(s, ev)->0.input == s.selected->0,
        spec_dispatch(s, ev)->0.output == output_path_spec(s.selected->0),
{
}

/// Law: once a file is selected, every later state still has one selected;
/// failures never force reselection.
pub proof fn lemma_selection_persists(s: StateModel, ev: EventModel)
    requires
        s.selected is Some,
    ensures
        spec_step(s, ev).selected is Some,
{
}

/// Law: an event shows exactly one display instruction unless it is a silent
/// no-op, which shows none and changes nothing.
pub proof fn lemma_one_display_per_event(s: StateModel, ev: EventModel)
    ensures
        spec_display(s, ev) is Some <==> !event_ignored(s, ev),
        event_ignored(s, ev) ==> spec_step(s, ev) == s && spec_dispatch(s, ev) is None,
{
}

/// Handles one event to completion: mutates the state by the transition
/// function and returns the display instruction and job dispatch the event
/// produces. Total over all events and states; out-of-band events are silent
/// no-ops exactly as `event_ignored` says.
pub fn handle_event(s: &mut AppState, ev: Event) -> (r: Response)
    ensures
        final(s)@ == spec_step(old(s)@, ev@),
        r@.display == spec_display(old(s)@, ev@),
        r@.dispatch == spec_dispatch(old(s)@, ev@),
{
    match ev {
        Event::FileChosen(p) => {
            if s.phase == UiPhase::Processing {
                Response { display: None, dispatch: None }
            } else {
                let shown = p.clone();
                s.selected_file = Some(p);
                s.phase = UiPhase::FileSelected;
                Response {
                    display: Some(
                        DisplayInstruction {
                            unlock_enabled: true,
                            style: LabelStyle::Neutral,
                            content: LabelContent::ChosenFile(shown),
                        },
                    ),
                    dispatch: None,
                }
            }
        },
        Event::SelectionCancelled => Response { display: None, dispatch: None },
        Event::Process => {
            if s.phase == UiPhase::Processing {
                Response { display: None, dispatch: None }
            } else {
                match &s.selected_file {
                    None => Response { display: None, dispatch: None },
                    Some(p) => {
                        let input = p.clone();
                        let output = output_path_naming(input.as_str());
                        s.phase = UiPhase::Processing;
                        Response {
                            display: Some(
                                DisplayInstruction {
                                    unlock_enabled: false,
                                    style: LabelStyle::Busy,
                                    content: LabelContent::Working,
                                },
                            ),
                            dispatch: Some(JobSpec { input, output }),
                        }
                    },
                }
            }
        },
        Event::Outcome(res) => match res {
            JobResult::Success(out) => {
                let shown = out.clone();
                s.last_result = Some(JobResult::Success(out));
                s.phase = UiPhase::Succeeded;
                Response {
                    display: Some(
                        DisplayInstruction {
                            unlock_enabled: false,
                            style: LabelStyle::Good,
                            content: LabelContent::Unlocked(shown),
                        },
                    ),
                    dispatch: None,
                }
            },
            JobResult::Failure(msg) => {
                let shown = msg.clone();
                s.last_result = Some(JobResult::Failure(msg));
                s.phase = UiPhase::Failed;
                Response {
                    display: Some(
                        DisplayInstruction {
                            unlock_enabled: true,
                            style: LabelStyle::Bad,
                            content: LabelContent::FailureText(shown),
                        },
                    ),
                    dispatch: None,
                }
            },
        },
    }
}

/// The display instruction for a well-formed state, for the view to render;
/// used once at startup, before any event arrived.
pub fn render(s: &AppState) -> (d: DisplayInstruction)
    requires
        wf(s@),
    ensures
        d@ == render_model(s@),
{
    match s.phase {
        UiPhase::Idle => DisplayInstruction {
            unlock_enabled: false,
            style: LabelStyle::Neutral,
            content: LabelContent::Instructions,
        },
        UiPhase::FileSelected => match &s.selected_file {
            Some(p) => DisplayInstruction {
                unlock_enabled: true,
                style: LabelStyle::Neutral,
                content: LabelContent::ChosenFile(p.clone()),
            },
            None => vstd::pervasive::unreached(),
        },
        UiPhase::Processing => DisplayInstruction {
            unlock_enabled: false,
            style: LabelStyle::Busy,
            content: LabelContent::Working,
        },
        UiPhase::Succeeded => match &s.last_result {
            Some(JobResult::Success(out)) => DisplayInstruction {
                unlock_enabled: false,
                style: LabelStyle::Good,
                content: LabelContent::Unlocked(out.clone()),
            },
            _ => vstd::pervasive::unreached(),
        },
        UiPhase::Failed => match &s.last_result {
            Some(JobResult::Failure(msg)) => DisplayInstruction {
                unlock_enabled: true,
                style: LabelStyle::Bad,
                content: LabelContent::FailureText(msg.clone()),
            },
            _ => vstd::pervasive::unreached(),
        },
    }
}

/// Folds a worker's rewrite result into the single message it posts back:
/// the output path on success, the error text on failure.
pub fn job_outcome(rewrite: Result<(), String>, output: String) -> (r: JobResult)
    ensures
        rewrite is Ok ==> r@ == OutcomeModel::Success(output@),
        rewrite matches Err(m) ==> r@ == OutcomeModel::Failure(m@),
{
    match rewrite {
        Ok(_) => JobResult::Success(output),
        Err(m) => JobResult::Failure(m),
    }
}

} // verus!

//! The application state: the selected file, the phase of the interface, and
//! the last job result, together with its mathematical model.

use vstd::prelude::*;

verus! {

/// The discrete phase of the user interface.
#[derive(Clone, Copy, PartialEq, Eq, Structural, Debug)]
pub enum UiPhase {
    Idle,
    FileSelected,
    Processing,
    Succeeded,
    Failed,
}

/// The single terminal outcome of one rewrite job: the output path on
/// success, a human-readable message on failure.
#[derive(Clone, Debug, PartialEq)]
pub enum JobResult {
    Success(String),
    Failure(String),
}

/// Model of a job outcome, over character sequences.
pub enum OutcomeModel {
    Success(Seq<char>),
    Failure(Seq<char>),
}

impl View for JobResult {
    type V = OutcomeModel;

    open spec fn view(&self) -> OutcomeModel {
        match self {
            JobResult::Success(out) => OutcomeModel::Success(out@),
            JobResult::Failure(msg) => OutcomeModel::Failure(msg@),
        }
    }
}

/// The application state. Created once at startup; mutated only by the
/// controller, on the thread that also updates the view.
pub struct AppState {
    /// The file the user confirmed in the picker. Never cleared once set, so
    /// a failed attempt can be retried without reselecting.
    pub selected_file: Option<String>,
    /// The phase of the interface, driving what is enabled and shown.
    pub phase: UiPhase,
    /// The outcome of the most recent job, if any finished yet.
    pub last_result: Option<JobResult>,
}

/// Model of the application state, over character sequences.
pub struct StateModel {
    pub selected: Option<Seq<char>>,
    pub phase: UiPhase,
    pub last: Option<OutcomeModel>,
}

impl View for AppState {
    type V = StateModel;

    open spec fn view(&self) -> StateModel {
        StateModel {
            selected: match self.selected_file {
                Some(p) => Some(p@),
                None => None,
            },
            phase: self.phase,
            last: match self.last_result {
                Some(r) => Some(r@),
                None => None,
            },
        }
    }
}

/// The state every run starts from: nothing selected, idle, no result.
pub open spec fn init_model() -> StateModel {
    StateModel { selected: None, phase: UiPhase::Idle, last: None }
}

/// Well-formedness of a state: each phase carries the data it displays or
/// acts on. Established at startup and preserved by every event.
pub open spec fn wf(s: StateModel) -> bool {
    &&& (s.phase == UiPhase::Idle ==> s.selected is None && s.last is None)
    &&& (s.phase == UiPhase::FileSelected ==> s.selected is Some)
    &&& (s.phase == UiPhase::Processing ==> s.selected is Some)
    &&& (s.phase == UiPhase::Succeeded ==> s.last matches Some(OutcomeModel::Success(_)))
    &&& (s.phase == UiPhase::Failed ==> s.last matches Some(OutcomeModel::Failure(_)))
}

impl AppState {
    /// A fresh application state.
    pub fn new() -> (s: AppState)
        ensures
            s@ == init_model(),
            wf(s@),
    {
        AppState { selected_file: None, phase: UiPhase::Idle, last_result: None }
    }
}

} // verus!

//! The outbound interface of the supervisor: events that the presentation
//! layer mirrors, and actions that background workers perform. The
//! supervisor never touches a widget or a process itself; every observable
//! effect is one of these values.

use vstd::prelude::*;

use crate::catchup::CatchupStatus;

verus! {

/// The lifecycle state of the validator process, as last derived from the
/// process probe; `Starting` and `Stopping` are transient display states.
#[derive(Clone, Copy, Debug, PartialEq, Eq, Structural)]
pub enum ProcessState {
    Stopped,
    Starting,
    Running,
    Stopping,
}

/// How a status text should be presented.
#[derive(Clone, Copy, Debug, PartialEq, Eq, Structural)]
pub enum StatusTone {
    Neutral,
    Success,
    Warning,
}

/// Which button's label an event changes.
#[derive(Clone, Copy, Debug, PartialEq, Eq, Structural)]
pub enum ButtonId {
    RunStop,
    AutoCheck,
    EditSave,
}

/// One observable state change, applied by the presentation layer in
/// arrival order.
#[derive(Clone, Debug, PartialEq, Eq)]
pub enum UiEvent {
    /// A sanitized log message to append to the log panel.
    LogAppended(String),
    /// The validator's lifecycle state changed.
    StatusChanged(ProcessState),
    /// The sync state changed.
    CatchupChanged(CatchupStatus),
    /// A button's label changed.
    ButtonLabelChanged(ButtonId, String),
}

/// One piece of outside work that a background task performs for the
/// supervisor.
#[derive(Clone, Debug, PartialEq, Eq)]
pub enum Action {
    /// Persist the launch script under the given file name, marking it
    /// executable where the platform supports it.
    WriteScript { file_name: String, content: String },
    /// Spawn the launch script as a detached child process and tail its
    /// output.
    SpawnScript { file_name: String },
    /// Ask the validator binary for a graceful shutdown.
    InvokeExit { validator_path: String, ledger_path: String },
    /// After the given delay, confirm the start by probing again.
    ScheduleStartConfirm { delay_secs: u64 },
    /// After the given delay, resynchronize displayed state and disable
    /// auto-checking.
    ScheduleStopRefresh { delay_secs: u64 },
    /// Run the catchup poll loop with the given status tool.
    StartPoller { solana_path: String },
    /// Read the last lines of the log file and report them as one block.
    ReadLogTail { log_path: String, line_count: u64 },
}

/// Why a start command was rejected.
#[derive(Clone, Copy, Debug, PartialEq, Eq, Structural)]
pub enum StartError {
    /// The validator is already running; no second process is spawned.
    AlreadyRunning,
    /// The script is being edited and must be saved first.
    EditInProgress,
}

/// Why a stop command was rejected.
#[derive(Clone, Copy, Debug, PartialEq, Eq, Structural)]
pub enum StopError {
    /// The validator is not running; the exit command is not invoked.
    NotRunning,
}

/// What one accepted command produces: events for the presentation layer
/// and actions for background workers, each applied in order.
pub struct Step {
    pub events: Vec<UiEvent>,
    pub actions: Vec<Action>,
}

impl Step {
    /// A step with no events and no actions.
    pub fn empty() -> (r: Step)
        ensures
            r.events@ == Seq::<UiEvent>::empty(),
            r.actions@ == Seq::<Action>::empty(),
    {
        let r = Step { events: Vec::new(), actions: Vec::new() };
        r
    }
}

/// The status text and tone for a lifecycle state.
pub fn process_label(state: ProcessState) -> (r: (String, StatusTone))
    ensures
        state is Running ==> r.0@ == "RUNNING"@ && r.1 is Success,
        state is Stopped ==> r.0@ == "STOPPED"@ && r.1 is Warning,
        state is Starting ==> r.0@ == "STARTING"@ && r.1 is Neutral,
        state is Stopping ==> r.0@ == "STOPPING"@ && r.1 is Neutral,
{
    match state {
        ProcessState::Running => (string_of("RUNNING"), StatusTone::Success),
        ProcessState::Stopped => (string_of("STOPPED"), StatusTone::Warning),
        ProcessState::Starting => (string_of("STARTING"), StatusTone::Neutral),
        ProcessState::Stopping => (string_of("STOPPING"), StatusTone::Neutral),
    }
}

/// The status text and tone for a sync state: a deficit warns, caught up is
/// success, unknown is neutral.
pub fn catchup_label(status: CatchupStatus) -> (r: (String, StatusTone))
    ensures
        status is Unknown ==> r.0@ == "N/A"@ && r.1 is Neutral,
        status is Behind ==> r.0@ == "BEHIND"@ && r.1 is Warning,
        status is CaughtUp ==> r.0@ == "CATCHUP"@ && r.1 is Success,
{
    match status {
        CatchupStatus::Unknown => (string_of("N/A"), StatusTone::Neutral),
        CatchupStatus::Behind(_) => (string_of("BEHIND"), StatusTone::Warning),
        CatchupStatus::CaughtUp => (string_of("CATCHUP"), StatusTone::Success),
    }
}

/// An owned copy of a string slice.
pub fn string_of(s: &str) -> (r: String)
    ensures
        r@ == s@,
{
    let r: String = <String as vstd::string::StringExecFns>::from_str(s);
    r
}

} // verus!

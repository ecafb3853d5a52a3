//! The validator lifecycle supervisor: the one state machine of the console.
//!
//! The supervisor owns the control state (network profile, lifecycle state,
//! auto-check flag, edit flag, sync state) and the bounded log buffer. A
//! command mutates that state and returns a [`Step`]: the events the
//! presentation layer mirrors and the actions background workers perform.
//! The supervisor itself never spawns a process, reads a file or touches a
//! widget; callers hand it probe snapshots and command output as plain
//! values, and the authoritative lifecycle state is always re-derived from
//! such a snapshot, never trusted from memory alone.

use vstd::prelude::*;

use crate::catchup::{classify_catchup_output, classify_spec, CatchupStatus};
use crate::events::{string_of, Action, ButtonId, ProcessState, StartError, Step, StopError,
    UiEvent};
use crate::log_buffer::{logged, LogBuffer};
use crate::sanitize::{clean_log_message, strip_ansi};
use crate::script::NetworkProfile;
use vstd::string::StringExecFns;

verus! {

/// The supervisor's control state: everything but the log buffer.
pub struct ControlModel {
    pub network: NetworkProfile,
    pub process: ProcessState,
    pub auto_check: bool,
    pub editing: bool,
    pub catchup: CatchupStatus,
}

/// The control state after a status refresh against a probe snapshot: the
/// lifecycle state follows the probe, and a validator found stopped also
/// clears the sync state and the auto-check flag (crash detection).
pub open spec fn refresh_model(m: ControlModel, probe_running: bool) -> ControlModel {
    if probe_running {
        ControlModel { process: ProcessState::Running, ..m }
    } else {
        ControlModel {
            process: ProcessState::Stopped,
            auto_check: false,
            catchup: CatchupStatus::Unknown,
            ..m
        }
    }
}

/// Whether a start command is accepted, and why not.
pub open spec fn start_result(m: ControlModel, probe_running: bool) -> Result<(), StartError> {
    if probe_running {
        Err(StartError::AlreadyRunning)
    } else if m.editing {
        Err(StartError::EditInProgress)
    } else {
        Ok(())
    }
}

/// The control state after a start command: an accepted start moves to
/// `Starting`; a rejected one changes nothing.
pub open spec fn start_model(m: ControlModel, probe_running: bool) -> ControlModel {
    if start_result(m, probe_running) is Ok {
        ControlModel { process: ProcessState::Starting, ..m }
    } else {
        m
    }
}

/// Whether a stop command is accepted, and why not.
pub open spec fn stop_result(m: ControlModel, probe_running: bool) -> Result<(), StopError> {
    if probe_running {
        Ok(())
    } else {
        Err(StopError::NotRunning)
    }
}

/// The control state after a stop command: an accepted stop moves to
/// `Stopping`; a rejected one changes nothing.
pub open spec fn stop_model(m: ControlModel, probe_running: bool) -> ControlModel {
    if probe_running {
        ControlModel { process: ProcessState::Stopping, ..m }
    } else {
        m
    }
}

/// The control state after the auto-check flag is toggled.
pub open spec fn toggle_model(m: ControlModel) -> ControlModel {
    ControlModel { auto_check: !m.auto_check, ..m }
}

/// A poll-loop iteration exits at its boundary when the flag is off or the
/// validator is gone.
pub open spec fn poll_exits(m: ControlModel, probe_running: bool) -> bool {
    !m.auto_check || !probe_running
}

/// The control state after one poll-loop iteration: an exit resets the sync
/// state to unknown; a running iteration adopts the classification of the
/// command's output, and a failed command changes nothing.
pub open spec fn poll_model(m: ControlModel, probe_running: bool, output: Option<Seq<char>>)
    -> ControlModel {
    if !m.auto_check {
        ControlModel { catchup: CatchupStatus::Unknown, ..m }
    } else if !probe_running {
        ControlModel {
            process: ProcessState::Stopped,
            auto_check: false,
            catchup: CatchupStatus::Unknown,
            ..m
        }
    } else {
        match output {
            Option::None => m,
            Option::Some(text) => ControlModel { catchup: classify_spec(text), ..m },
        }
    }
}

/// Law: a status refresh is idempotent — refreshing twice against the same
/// probe snapshot equals refreshing once.
pub proof fn lemma_refresh_idempotent(m: ControlModel, probe_running: bool)
    ensures
        refresh_model(refresh_model(m, probe_running), probe_running) == refresh_model(
            m,
            probe_running,
        ),
{
}

/// Law: turning the auto-check flag off makes the next poll-loop iteration
/// exit at its boundary and reset the sync state to unknown, whatever the
/// probe or the command output say.
pub proof fn lemma_toggle_off_stops_polling(
    m: ControlModel,
    probe_running: bool,
    output: Option<Seq<char>>,
)
    requires
        m.auto_check,
    ensures
        !toggle_model(m).auto_check,
        poll_exits(toggle_model(m), probe_running),
        poll_model(toggle_model(m), probe_running, output).catchup is Unknown,
        !poll_model(toggle_model(m), probe_running, output).auto_check,
{
}

/// Law: a start command finding the validator already running is rejected
/// and changes nothing.
pub proof fn lemma_start_while_running_rejected(m: ControlModel)
    ensures
        start_result(m, true) == Result::<(), StartError>::Err(StartError::AlreadyRunning),
        start_model(m, true) == m,
{
}

/// Law: a stop command finding the validator already stopped is rejected and
/// changes nothing.
pub proof fn lemma_stop_while_stopped_rejected(m: ControlModel)
    ensures
        stop_result(m, false) == Result::<(), StopError>::Err(StopError::NotRunning),
        stop_model(m, false) == m,
{
}

/// The validator lifecycle supervisor.
pub struct Supervisor {
    network: NetworkProfile,
    process: ProcessState,
    auto_check: bool,
    editing: bool,
    catchup: CatchupStatus,
    logs: LogBuffer,
}

impl Supervisor {
    /// The control state.
    pub closed spec fn model(&self) -> ControlModel {
        ControlModel {
            network: self.network,
            process: self.process,
            auto_check: self.auto_check,
            editing: self.editing,
            catchup: self.catchup,
        }
    }

    /// The buffered log lines, oldest first.
    pub closed spec fn log_view(&self) -> Seq<Seq<char>> {
        self.logs@
    }

    /// The log buffer's capacity.
    pub closed spec fn log_cap(&self) -> nat {
        self.logs.cap()
    }

    /// The log buffer stays within its capacity.
    pub open spec fn wf(&self) -> bool {
        self.log_cap() >= 1 && self.log_view().len() <= self.log_cap()
    }

    /// A fresh supervisor for the given network: stopped, not editing, not
    /// auto-checking, sync state unknown, empty logs.
    pub fn new(network: NetworkProfile) -> (r: Supervisor)
        ensures
            r.wf(),
            r.model() == (ControlModel {
                network,
                process: ProcessState::Stopped,
                auto_check: false,
                editing: false,
                catchup: CatchupStatus::Unknown,
            }),
            r.log_view() == Seq::<Seq<char>>::empty(),
    {
        Supervisor {
            network,
            process: ProcessState::Stopped,
            auto_check: false,
            editing: false,
            catchup: CatchupStatus::Unknown,
            logs: LogBuffer::new(),
        }
    }

    /// The active network profile.
    pub fn current_network(&self) -> (r: NetworkProfile)
        ensures
            r == self.model().network,
    {
        self.network
    }

    /// The last derived lifecycle state.
    pub fn process_state(&self) -> (r: ProcessState)
        ensures
            r == self.model().process,
    {
        self.process
    }

    /// Whether the auto-check loop is wanted.
    pub fn auto_check_enabled(&self) -> (r: bool)
        ensures
            r == self.model().auto_check,
    {
        self.auto_check
    }

    /// Whether the script is being edited.
    pub fn is_editing(&self) -> (r: bool)
        ensures
            r == self.model().editing,
    {
        self.editing
    }

    /// The last published sync state.
    pub fn catchup_status(&self) -> (r: CatchupStatus)
        ensures
            r == self.model().catchup,
    {
        self.catchup
    }

    /// How many log lines are buffered.
    pub fn log_line_count(&self) -> (r: usize)
        ensures
            r == self.log_view().len(),
    {
        self.logs.len()
    }

    /// The whole log buffer as one text, lines joined with `\n`.
    pub fn log_text(&self) -> (r: String)
        ensures
            r@ == crate::lines::join_lines(self.log_view()),
    {
        self.logs.rendered()
    }

    /// Sanitizes `msg`, appends it to the log buffer, and records the
    /// matching event.
    fn log_line(&mut self, msg: String, events: &mut Vec<UiEvent>)
        requires
            old(self).wf(),
        ensures
            final(self).wf(),
            final(self).model() == old(self).model(),
            final(self).log_cap() == old(self).log_cap(),
            final(self).log_view() == logged(
                old(self).log_view(),
                old(self).log_cap(),
                msg@,
            ),
            final(events)@.len() == old(events)@.len() + 1,
            forall|k: int|
                0 <= k < old(events)@.len() ==> final(events)@[k] == old(events)@[k],
            final(events)@.last() matches UiEvent::LogAppended(m) && m@ == strip_ansi(msg@),
    {
        let clean = clean_log_message(msg.as_str());
        self.logs.append_batch(msg.as_str());
        events.push(UiEvent::LogAppended(clean));
    }

    /// Flips the auto-check flag. Turning it off takes effect at the next
    /// poll-loop boundary; after turning it on the caller refreshes, which
    /// restarts the poller if the validator is running.
    pub fn toggle_auto_check(&mut self) -> (r: Step)
        requires
            old(self).wf(),
        ensures
            final(self).wf(),
            final(self).log_cap() == old(self).log_cap(),
            final(self).model() == toggle_model(old(self).model()),
            r.actions@.len() == 0,
            r.events@.len() == 2,
            r.events@[0] matches UiEvent::ButtonLabelChanged(b, l) && b is AutoCheck && l@ == (
            if old(self).model().auto_check {
                "Auto Check Status"@
            } else {
                "Stop Checking Status"@
            }),
            r.events@[1] matches UiEvent::LogAppended(m) && m@ == toggle_log_msg(
                old(self).model().auto_check,
            ),
            final(self).log_view() == logged(
                old(self).log_view(),
                old(self).log_cap(),
                toggle_log_msg(old(self).model().auto_check),
            ),
    {
        let mut events: Vec<UiEvent> = Vec::new();
        let was_on = self.auto_check;
        self.auto_check = !was_on;
        if was_on {
            events.push(
                UiEvent::ButtonLabelChanged(ButtonId::AutoCheck, string_of("Auto Check Status")),
            );
            proof {
                lemma_clean_literal_toggle();
            }
            self.log_line(string_of("Stopped auto checking status"), &mut events);
        } else {
            events.push(
                UiEvent::ButtonLabelChanged(ButtonId::AutoCheck, string_of("Stop Checking Status")),
            );
            proof {
                lemma_clean_literal_toggle();
            }
            self.log_line(string_of("Started auto checking status"), &mut events);
        }
        Step { events, actions: Vec::new() }
    }

    /// Re-derives the lifecycle state from a probe snapshot: idempotent,
    /// callable at any time. A validator found stopped also clears the sync
    /// state and the auto-check flag; a running one with auto-checking on
    /// gets its poll loop (re)started with the status tool read from the
    /// script.
    pub fn refresh(&mut self, probe_running: bool, script_content: &str) -> (r: Step)
        requires
            old(self).wf(),
        ensures
            final(self).wf(),
            final(self).log_cap() == old(self).log_cap(),
            final(self).model() == refresh_model(old(self).model(), probe_running),
            final(self).log_view() == logged(
                old(self).log_view(),
                old(self).log_cap(),
                status_check_msg(probe_running),
            ),
            r.events@.len() == (if probe_running {
                3int
            } else {
                5int
            }),
            r.events@[0] matches UiEvent::LogAppended(m) && m@ == strip_ansi(
                status_check_msg(probe_running),
            ),
            r.events@[1] matches UiEvent::StatusChanged(st) && st == final(self).model().process,
            probe_running ==> (r.events@[2] matches UiEvent::ButtonLabelChanged(b, l) && b
                is RunStop && l@ == run_label(probe_running)),
            !probe_running ==> {
                &&& r.events@[2] matches UiEvent::CatchupChanged(c) && c is Unknown
                &&& r.events@[3] matches UiEvent::ButtonLabelChanged(b, l) && b is RunStop && l@
                    == run_label(probe_running)
                &&& r.events@[4] matches UiEvent::ButtonLabelChanged(b2, l2) && b2 is AutoCheck
                    && l2@ == "Auto Check Status"@
            },
            r.actions@.len() == (if probe_running && old(self).model().auto_check
                && crate::probe::solana_path_spec(script_content@) is Some {
                1int
            } else {
                0int
            }),
            r.actions@.len() == 1 ==> (r.actions@[0] matches Action::StartPoller { solana_path }
                && Some(solana_path@) == crate::probe::solana_path_spec(script_content@)),
    {
        let mut events: Vec<UiEvent> = Vec::new();
        let mut actions: Vec<Action> = Vec::new();
        let msg = string_of("Checking validator status: ").concat(
            if probe_running {
                "RUNNING"
            } else {
                "STOPPED"
            },
        );
        self.log_line(msg, &mut events);
        if probe_running {
            self.process = ProcessState::Running;
            events.push(UiEvent::StatusChanged(ProcessState::Running));
            events.push(
                UiEvent::ButtonLabelChanged(ButtonId::RunStop, string_of("Stop Validator")),
            );
            if self.auto_check {
                match crate::probe::extract_solana_path(script_content) {
                    Option::Some(solana_path) => {
                        actions.push(Action::StartPoller { solana_path });
                    },
                    Option::None => {},
                }
            }
        } else {
            self.process = ProcessState::Stopped;
            self.auto_check = false;
            self.catchup = CatchupStatus::Unknown;
            events.push(UiEvent::StatusChanged(ProcessState::Stopped));
            events.push(UiEvent::CatchupChanged(CatchupStatus::Unknown));
            events.push(
                UiEvent::ButtonLabelChanged(ButtonId::RunStop, string_of("Start Validator")),
            );
            events.push(
                UiEvent::ButtonLabelChanged(ButtonId::AutoCheck, string_of("Auto Check Status")),
            );
        }
        Step { events, actions }
    }

    /// Accepts or rejects a start command against a probe snapshot. A
    /// running validator or a script still being edited rejects the command
    /// with no side effect at all. An accepted start moves to `Starting` and
    /// hands back the work: write the default script first where none
    /// exists, spawn it, and confirm by probing again after a fixed delay.
    pub fn start(&mut self, probe_running: bool, script_exists: bool) -> (r: Result<
        Step,
        StartError,
    >)
        requires
            old(self).wf(),
        ensures
            final(self).wf(),
            final(self).log_cap() == old(self).log_cap(),
            final(self).model() == start_model(old(self).model(), probe_running),
            r is Err <==> (probe_running || old(self).model().editing),
            r is Err ==> *final(self) == *old(self),
            probe_running ==> (r matches Err(e) && e is AlreadyRunning),
            !probe_running && old(self).model().editing ==> (r matches Err(e) && e
                is EditInProgress),
            r matches Ok(step) ==> {
                &&& final(self).log_view() == (if script_exists {
                    old(self).log_view()
                } else {
                    logged(
                        old(self).log_view(),
                        old(self).log_cap(),
                        created_script_msg(old(self).model().network),
                    )
                })
                &&& step.events@.len() == (if script_exists {
                    1int
                } else {
                    2int
                })
                &&& step.events@.last() matches UiEvent::StatusChanged(st) && st is Starting
                &&& !script_exists ==> (step.events@[0] matches UiEvent::LogAppended(m) && m@
                    == strip_ansi(created_script_msg(old(self).model().network)))
                &&& step.actions@.len() == (if script_exists {
                    2int
                } else {
                    3int
                })
                &&& !script_exists ==> (step.actions@[0] matches Action::WriteScript {
                    file_name,
                    content,
                } && file_name@ == crate::script::script_file_name_spec(
                    old(self).model().network,
                ) && content@ == crate::script::default_script_spec(old(self).model().network))
                &&& step.actions@[step.actions@.len() - 2] matches Action::SpawnScript {
                    file_name,
                } && file_name@ == crate::script::script_file_name_spec(
                    old(self).model().network,
                )
                &&& step.actions@.last() matches Action::ScheduleStartConfirm { delay_secs }
                    && delay_secs == START_CONFIRM_DELAY_SECS
            },
    {
        if probe_running {
            return Err(StartError::AlreadyRunning);
        }
        if self.editing {
            return Err(StartError::EditInProgress);
        }
        let mut events: Vec<UiEvent> = Vec::new();
        let mut actions: Vec<Action> = Vec::new();
        if !script_exists {
            let msg = string_of("Created ").concat(
                network_name_str(self.network).as_str(),
            ).concat(" validator script from default content");
            self.log_line(msg, &mut events);
            actions.push(
                Action::WriteScript {
                    file_name: crate::script::script_file_name(self.network),
                    content: crate::script::default_script(self.network),
                },
            );
        }
        actions.push(
            Action::SpawnScript { file_name: crate::script::script_file_name(self.network) },
        );
        actions.push(Action::ScheduleStartConfirm { delay_secs: START_CONFIRM_DELAY_SECS });
        self.process = ProcessState::Starting;
        events.push(UiEvent::StatusChanged(ProcessState::Starting));
        Ok(Step { events, actions })
    }

    /// Records the outcome of spawning the launch script: success keeps the
    /// transient `Starting` state and relabels the run button; failure is
    /// logged and falls back to `Stopped`.
    pub fn spawn_result(&mut self, outcome: Result<(), String>) -> (r: Step)
        requires
            old(self).wf(),
        ensures
            final(self).wf(),
            final(self).log_cap() == old(self).log_cap(),
            outcome is Ok ==> {
                &&& final(self).model() == old(self).model()
                &&& final(self).log_view() == logged(
                    old(self).log_view(),
                    old(self).log_cap(),
                    spawn_ok_msg(old(self).model().network),
                )
                &&& r.events@.len() == 2
                &&& r.events@[0] matches UiEvent::LogAppended(m) && m@ == strip_ansi(
                    spawn_ok_msg(old(self).model().network),
                )
                &&& r.events@[1] matches UiEvent::ButtonLabelChanged(b, l) && b is RunStop && l@
                    == "Stop Validator"@
            },
            outcome matches Err(error) ==> {
                &&& final(self).model() == (ControlModel {
                    process: ProcessState::Stopped,
                    ..old(self).model()
                })
                &&& final(self).log_view() == logged(
                    old(self).log_view(),
                    old(self).log_cap(),
                    spawn_err_msg(old(self).model().network, error@),
                )
                &&& r.events@.len() == 2
                &&& r.events@[0] matches UiEvent::LogAppended(m) && m@ == strip_ansi(
                    spawn_err_msg(old(self).model().network, error@),
                )
                &&& r.events@[1] matches UiEvent::StatusChanged(st) && st is Stopped
            },
            r.actions@.len() == 0,
    {
        let mut events: Vec<UiEvent> = Vec::new();
        match outcome {
            Result::Ok(()) => {
                let msg = network_title_str(self.network).concat(
                    " validator script started successfully! Please wait for status update...",
                );
                self.log_line(msg, &mut events);
                events.push(
                    UiEvent::ButtonLabelChanged(ButtonId::RunStop, string_of("Stop Validator")),
                );
            },
            Result::Err(error) => {
                let msg = string_of("Failed to start ").concat(
                    network_name_str(self.network).as_str(),
                ).concat(" validator: ").concat(error.as_str());
                self.log_line(msg, &mut events);
                self.process = ProcessState::Stopped;
                events.push(UiEvent::StatusChanged(ProcessState::Stopped));
            },
        }
        Step { events, actions: Vec::new() }
    }

    /// The deferred check after a start: a validator confirmed running turns
    /// auto-checking on; the caller then refreshes, which starts the poll
    /// loop. A validator not seen yet changes nothing here — the refresh
    /// that follows resynchronizes the display either way.
    pub fn start_confirmed(&mut self, probe_running: bool) -> (r: Step)
        requires
            old(self).wf(),
        ensures
            final(self).wf(),
            final(self).log_cap() == old(self).log_cap(),
            final(self).model() == (if probe_running {
                ControlModel { auto_check: true, ..old(self).model() }
            } else {
                old(self).model()
            }),
            !probe_running ==> *final(self) == *old(self),
            !probe_running ==> r.events@.len() == 0,
            probe_running ==> {
                &&& final(self).log_view() == logged(
                    old(self).log_view(),
                    old(self).log_cap(),
                    toggle_log_msg(false),
                )
                &&& r.events@.len() == 2
                &&& r.events@[0] matches UiEvent::ButtonLabelChanged(b, l) && b is AutoCheck
                    && l@ == "Stop Checking Status"@
                &&& r.events@[1] matches UiEvent::LogAppended(m) && m@ == toggle_log_msg(false)
            },
            r.actions@.len() == 0,
    {
        let mut events: Vec<UiEvent> = Vec::new();
        if probe_running {
            self.auto_check = true;
            events.push(
                UiEvent::ButtonLabelChanged(ButtonId::AutoCheck, string_of("Stop Checking Status")),
            );
            proof {
                lemma_clean_literal_toggle();
            }
            self.log_line(string_of("Started auto checking status"), &mut events);
        }
        Step { events, actions: Vec::new() }
    }

    /// Accepts or rejects a stop command against a probe snapshot. A
    /// validator not running rejects the command with no side effect and no
    /// exit invocation. An accepted stop moves to `Stopping`, asks for the
    /// binary's own graceful exit with the ledger path read from the script
    /// (best-effort: unreadable paths are logged, not fatal), and schedules
    /// a deferred resynchronization either way.
    pub fn stop(&mut self, probe_running: bool, script_content: &str) -> (r: Result<
        Step,
        StopError,
    >)
        requires
            old(self).wf(),
        ensures
            final(self).wf(),
            final(self).log_cap() == old(self).log_cap(),
            final(self).model() == stop_model(old(self).model(), probe_running),
            r is Err <==> !probe_running,
            r is Err ==> *final(self) == *old(self),
            !probe_running ==> (r matches Err(e) && e is NotRunning),
            r matches Ok(step) ==> ({
                let vp = crate::probe::capture_spec(script_content@, "exec"@);
                let lp = crate::probe::capture_spec(script_content@, "--ledger"@);
                let extracted = vp is Some && lp is Some;
                &&& final(self).log_view() == logged(
                    old(self).log_view(),
                    old(self).log_cap(),
                    stop_log_msg(extracted),
                )
                &&& step.events@.len() == 3
                &&& (step.events@[0] matches UiEvent::LogAppended(m) && m@ == strip_ansi(
                    stop_log_msg(extracted),
                ))
                &&& (step.events@[1] matches UiEvent::StatusChanged(st) && st is Stopping)
                &&& (step.events@[2] matches UiEvent::ButtonLabelChanged(b, l) && b is RunStop
                    && l@ == "Start Validator"@)
                &&& step.actions@.len() == (if extracted {
                    2int
                } else {
                    1int
                })
                &&& extracted ==> (step.actions@[0] matches Action::InvokeExit {
                    validator_path,
                    ledger_path,
                } && Some(validator_path@) == vp && Some(ledger_path@) == lp)
                &&& (step.actions@.last() matches Action::ScheduleStopRefresh { delay_secs }
                    && delay_secs == STOP_REFRESH_DELAY_SECS)
            }),
    {
        if !probe_running {
            return Err(StopError::NotRunning);
        }
        let mut events: Vec<UiEvent> = Vec::new();
        let mut actions: Vec<Action> = Vec::new();
        let vp = crate::probe::extract_validator_path(script_content);
        let lp = crate::probe::extract_ledger_path(script_content);
        match (vp, lp) {
            (Option::Some(validator_path), Option::Some(ledger_path)) => {
                self.log_line(
                    string_of(
                        "Executing solana-validator exit command. Please wait for status update...",
                    ),
                    &mut events,
                );
                actions.push(Action::InvokeExit { validator_path, ledger_path });
            },
            _ => {
                self.log_line(
                    string_of("Could not extract validator or ledger paths from the script"),
                    &mut events,
                );
            },
        }
        actions.push(Action::ScheduleStopRefresh { delay_secs: STOP_REFRESH_DELAY_SECS });
        self.process = ProcessState::Stopping;
        events.push(UiEvent::StatusChanged(ProcessState::Stopping));
        events.push(UiEvent::ButtonLabelChanged(ButtonId::RunStop, string_of("Start Validator")));
        Ok(Step { events, actions })
    }

    /// Logs what the graceful-exit command printed; empty streams are not
    /// echoed.
    pub fn exit_output(&mut self, exit_stdout: &str, exit_stderr: &str) -> (r: Step)
        requires
            old(self).wf(),
        ensures
            final(self).wf(),
            final(self).log_cap() == old(self).log_cap(),
            final(self).model() == old(self).model(),
            r.actions@.len() == 0,
            ({
                let so = exit_stdout@.len() > 0;
                let se = exit_stderr@.len() > 0;
                let after_out = if so {
                    logged(
                        logged(old(self).log_view(), old(self).log_cap(), "Exit command stdout:"@),
                        old(self).log_cap(),
                        exit_stdout@,
                    )
                } else {
                    old(self).log_view()
                };
                &&& final(self).log_view() == (if se {
                    logged(
                        logged(after_out, old(self).log_cap(), "Exit command stderr:"@),
                        old(self).log_cap(),
                        exit_stderr@,
                    )
                } else {
                    after_out
                })
                &&& r.events@.len() == (if so {
                    2int
                } else {
                    0int
                }) + (if se {
                    2int
                } else {
                    0int
                })
                &&& so ==> (r.events@[0] matches UiEvent::LogAppended(m) && m@
                    == "Exit command stdout:"@)
                &&& so ==> (r.events@[1] matches UiEvent::LogAppended(m) && m@ == strip_ansi(
                    exit_stdout@,
                ))
                &&& se ==> (r.events@[r.events@.len() - 2] matches UiEvent::LogAppended(m) && m@
                    == "Exit command stderr:"@)
                &&& se ==> (r.events@.last() matches UiEvent::LogAppended(m) && m@ == strip_ansi(
                    exit_stderr@,
                ))
            }),
    {
        let mut events: Vec<UiEvent> = Vec::new();
        if exit_stdout.unicode_len() > 0 {
            proof {
                lemma_clean_literal_exit();
            }
            self.log_line(string_of("Exit command stdout:"), &mut events);
            self.log_line(string_of(exit_stdout), &mut events);
        }
        if exit_stderr.unicode_len() > 0 {
            proof {
                lemma_clean_literal_exit();
            }
            self.log_line(string_of("Exit command stderr:"), &mut events);
            self.log_line(string_of(exit_stderr), &mut events);
        }
        Step { events, actions: Vec::new() }
    }

    /// Logs that the graceful-exit command itself could not be run; the stop
    /// still proceeds through the deferred resynchronization.
    pub fn exit_failed(&mut self, error: &str) -> (r: Step)
        requires
            old(self).wf(),
        ensures
            final(self).wf(),
            final(self).log_cap() == old(self).log_cap(),
            final(self).model() == old(self).model(),
            final(self).log_view() == logged(
                old(self).log_view(),
                old(self).log_cap(),
                "Failed to execute validator exit command: "@ + error@,
            ),
            r.actions@.len() == 0,
            r.events@.len() == 1,
            r.events@[0] matches UiEvent::LogAppended(m) && m@ == strip_ansi(
                "Failed to execute validator exit command: "@ + error@,
            ),
    {
        let mut events: Vec<UiEvent> = Vec::new();
        let msg = string_of("Failed to execute validator exit command: ").concat(error);
        self.log_line(msg, &mut events);
        Step { events, actions: Vec::new() }
    }

    /// The deferred resynchronization after a stop: auto-checking is turned
    /// off whether or not the graceful exit succeeded; the caller then
    /// refreshes against a fresh probe.
    pub fn stop_refresh(&mut self) -> (r: Step)
        requires
            old(self).wf(),
        ensures
            final(self).wf(),
            final(self).log_cap() == old(self).log_cap(),
            final(self).log_view() == old(self).log_view(),
            final(self).model() == (ControlModel { auto_check: false, ..old(self).model() }),
            r.actions@.len() == 0,
            r.events@.len() == 1,
            r.events@[0] matches UiEvent::ButtonLabelChanged(b, l) && b is AutoCheck && l@
                == "Auto Check Status"@,
    {
        self.auto_check = false;
        let mut events: Vec<UiEvent> = Vec::new();
        events.push(
            UiEvent::ButtonLabelChanged(ButtonId::AutoCheck, string_of("Auto Check Status")),
        );
        Step { events, actions: Vec::new() }
    }

    /// One iteration of the catchup poll loop, fed a fresh probe snapshot
    /// and the status command's combined output (`None` when the command
    /// could not be run or its output not read). The loop boundary is the
    /// cancellation point: a cleared auto-check flag or a vanished validator
    /// ends the loop and resets the sync state to unknown; otherwise the
    /// output's classification is published and the loop sleeps before the
    /// next iteration.
    pub fn poll_iteration(&mut self, probe_running: bool, output: Option<String>) -> (r: (
        PollControl,
        Step,
    ))
        requires
            old(self).wf(),
        ensures
            final(self).wf(),
            final(self).log_cap() == old(self).log_cap(),
            final(self).model() == poll_model(
                old(self).model(),
                probe_running,
                output.deep_view(),
            ),
            r.0 is Exit <==> poll_exits(old(self).model(), probe_running),
            !old(self).model().auto_check ==> r.0 is Exit && final(self).model().catchup
                is Unknown,
            !old(self).model().auto_check ==> {
                &&& final(self).log_view() == logged(
                    old(self).log_view(),
                    old(self).log_cap(),
                    toggle_log_msg(true),
                )
                &&& r.1.events@.len() == 3
                &&& (r.1.events@[0] matches UiEvent::CatchupChanged(c) && c is Unknown)
                &&& (r.1.events@[1] matches UiEvent::ButtonLabelChanged(b, l) && b is AutoCheck
                    && l@ == "Auto Check Status"@)
                &&& (r.1.events@[2] matches UiEvent::LogAppended(m) && m@ == toggle_log_msg(true))
            },
            old(self).model().auto_check && !probe_running ==> {
                &&& final(self).log_view() == logged(
                    logged(
                        old(self).log_view(),
                        old(self).log_cap(),
                        "Detected validator has stopped running. Updating status..."@,
                    ),
                    old(self).log_cap(),
                    toggle_log_msg(true),
                )
                &&& r.1.events@.len() == 6
                &&& (r.1.events@[0] matches UiEvent::LogAppended(m) && m@ == strip_ansi(
                    "Detected validator has stopped running. Updating status..."@,
                ))
                &&& (r.1.events@[1] matches UiEvent::StatusChanged(st) && st is Stopped)
                &&& (r.1.events@[2] matches UiEvent::CatchupChanged(c) && c is Unknown)
                &&& (r.1.events@[3] matches UiEvent::ButtonLabelChanged(b, l) && b is RunStop
                    && l@ == "Start Validator"@)
                &&& (r.1.events@[4] matches UiEvent::ButtonLabelChanged(b2, l2) && b2
                    is AutoCheck && l2@ == "Auto Check Status"@)
                &&& (r.1.events@[5] matches UiEvent::LogAppended(m2) && m2@ == toggle_log_msg(
                    true,
                ))
            },
            old(self).model().auto_check && probe_running ==> ({
                let cap = old(self).log_cap();
                let after_head = logged(
                    old(self).log_view(),
                    cap,
                    "Starting catchup status check..."@,
                );
                &&& (r.1.events@[0] matches UiEvent::LogAppended(m) && m@ == strip_ansi(
                    "Starting catchup status check..."@,
                ))
                &&& match output.deep_view() {
                    Option::None => {
                        &&& r.1.events@.len() == 3
                        &&& (r.1.events@[1] matches UiEvent::LogAppended(m) && m@ == strip_ansi(
                            "Failed to execute catchup command"@,
                        ))
                        &&& final(self).log_view() == logged(
                            logged(after_head, cap, "Failed to execute catchup command"@),
                            cap,
                            "Waiting 600 seconds before next catchup check..."@,
                        )
                    },
                    Option::Some(text) => {
                        &&& r.1.events@.len() == 4
                        &&& (r.1.events@[1] matches UiEvent::LogAppended(m) && m@ == strip_ansi(
                            poll_output_msg(text),
                        ))
                        &&& (r.1.events@[2] matches UiEvent::CatchupChanged(c) && c
                            == classify_spec(text))
                        &&& final(self).log_view() == logged(
                            logged(after_head, cap, poll_output_msg(text)),
                            cap,
                            "Waiting 600 seconds before next catchup check..."@,
                        )
                    },
                }
                &&& (r.1.events@.last() matches UiEvent::LogAppended(m) && m@ == strip_ansi(
                    "Waiting 600 seconds before next catchup check..."@,
                ))
            }),
            r.1.actions@.len() == 0,
    {
        let mut events: Vec<UiEvent> = Vec::new();
        if !self.auto_check {
            self.catchup = CatchupStatus::Unknown;
            events.push(UiEvent::CatchupChanged(CatchupStatus::Unknown));
            events.push(
                UiEvent::ButtonLabelChanged(ButtonId::AutoCheck, string_of("Auto Check Status")),
            );
            proof {
                lemma_clean_literal_toggle();
            }
            self.log_line(string_of("Stopped auto checking status"), &mut events);
            return (PollControl::Exit, Step { events, actions: Vec::new() });
        }
        if !probe_running {
            self.log_line(
                string_of("Detected validator has stopped running. Updating status..."),
                &mut events,
            );
            self.process = ProcessState::Stopped;
            self.catchup = CatchupStatus::Unknown;
            self.auto_check = false;
            events.push(UiEvent::StatusChanged(ProcessState::Stopped));
            events.push(UiEvent::CatchupChanged(CatchupStatus::Unknown));
            events.push(
                UiEvent::ButtonLabelChanged(ButtonId::RunStop, string_of("Start Validator")),
            );
            events.push(
                UiEvent::ButtonLabelChanged(ButtonId::AutoCheck, string_of("Auto Check Status")),
            );
            proof {
                lemma_clean_literal_toggle();
            }
            self.log_line(string_of("Stopped auto checking status"), &mut events);
            return (PollControl::Exit, Step { events, actions: Vec::new() });
        }
        self.log_line(string_of("Starting catchup status check..."), &mut events);
        match output {
            Option::None => {
                self.log_line(string_of("Failed to execute catchup command"), &mut events);
            },
            Option::Some(text) => {
                let status = classify_catchup_output(text.as_str());
                let msg = if crate::catchup::has_error_marker(text.as_str()) {
                    string_of("Catchup status: Error detected in output")
                } else {
                    match status {
                        CatchupStatus::Behind(_) => string_of("Catchup status: BEHIND"),
                        CatchupStatus::CaughtUp => string_of("Catchup status: CATCHUP"),
                        CatchupStatus::Unknown => string_of(
                            "Catchup status: No slot information found",
                        ),
                    }
                };
                self.log_line(msg, &mut events);
                self.catchup = status;
                events.push(UiEvent::CatchupChanged(status));
            },
        }
        self.log_line(
            string_of("Waiting 600 seconds before next catchup check..."),
            &mut events,
        );
        (PollControl::Continue, Step { events, actions: Vec::new() })
    }

    /// Takes one batch of tailed output lines into the buffer: the batch is
    /// sanitized, split into lines, and appended in order, evicting oldest
    /// entries once the buffer is full.
    pub fn ingest_log_batch(&mut self, text: &str) -> (r: Step)
        requires
            old(self).wf(),
        ensures
            final(self).wf(),
            final(self).log_cap() == old(self).log_cap(),
            final(self).model() == old(self).model(),
            final(self).log_view() == logged(old(self).log_view(), old(self).log_cap(), text@),
            r.actions@.len() == 0,
            r.events@.len() == 1,
            r.events@[0] matches UiEvent::LogAppended(m) && m@ == strip_ansi(text@),
    {
        let mut events: Vec<UiEvent> = Vec::new();
        let clean = clean_log_message(text);
        self.logs.append_batch(text);
        events.push(UiEvent::LogAppended(clean));
        Step { events, actions: Vec::new() }
    }

    /// Asks for an on-demand snapshot of the log file's tail. Only a running
    /// validator with a readable `--log` path in its script yields the read
    /// action; the snapshot itself arrives through [`Self::log_snapshot`].
    pub fn request_log_snapshot(&mut self, probe_running: bool, script_content: &str) -> (r: Step)
        requires
            old(self).wf(),
        ensures
            final(self).wf(),
            final(self).log_cap() == old(self).log_cap(),
            final(self).model() == old(self).model(),
            !probe_running ==> {
                &&& final(self).log_view() == logged(
                    old(self).log_view(),
                    old(self).log_cap(),
                    "Validator is not running"@,
                )
                &&& r.events@.len() == 1
                &&& (r.events@[0] matches UiEvent::LogAppended(m) && m@ == strip_ansi(
                    "Validator is not running"@,
                ))
                &&& r.actions@.len() == 0
            },
            probe_running ==> ({
                let lp = crate::probe::capture_spec(script_content@, "--log"@);
                match lp {
                    Option::None => {
                        &&& *final(self) == *old(self)
                        &&& r.events@.len() == 0
                        &&& r.actions@.len() == 0
                    },
                    Option::Some(path) => {
                        &&& final(self).log_view() == logged(
                            logged(
                                old(self).log_view(),
                                old(self).log_cap(),
                                "Reading log file: "@ + path,
                            ),
                            old(self).log_cap(),
                            "Log file refresh requested"@,
                        )
                        &&& r.events@.len() == 2
                        &&& (r.events@[0] matches UiEvent::LogAppended(m) && m@ == strip_ansi(
                            "Reading log file: "@ + path,
                        ))
                        &&& (r.events@[1] matches UiEvent::LogAppended(m2) && m2@ == strip_ansi(
                            "Log file refresh requested"@,
                        ))
                        &&& r.actions@.len() == 1
                        &&& (r.actions@[0] matches Action::ReadLogTail { log_path, line_count }
                            && log_path@ == path && line_count == LOG_TAIL_LINES)
                    },
                }
            }),
    {
        let mut events: Vec<UiEvent> = Vec::new();
        let mut actions: Vec<Action> = Vec::new();
        if !probe_running {
            self.log_line(string_of("Validator is not running"), &mut events);
            return Step { events, actions };
        }
        match crate::probe::extract_log_path(script_content) {
            Option::None => Step { events, actions },
            Option::Some(log_path) => {
                let msg = string_of("Reading log file: ").concat(log_path.as_str());
                self.log_line(msg, &mut events);
                actions.push(
                    Action::ReadLogTail { log_path, line_count: LOG_TAIL_LINES },
                );
                self.log_line(string_of("Log file refresh requested"), &mut events);
                Step { events, actions }
            },
        }
    }

    /// Reports the requested snapshot of the log file's tail as one block
    /// between start and end markers, sanitized like every other line.
    pub fn log_snapshot(&mut self, content: &str) -> (r: Step)
        requires
            old(self).wf(),
        ensures
            final(self).wf(),
            final(self).log_cap() == old(self).log_cap(),
            final(self).model() == old(self).model(),
            final(self).log_view() == logged(
                logged(
                    logged(
                        old(self).log_view(),
                        old(self).log_cap(),
                        "=== Validator Logs Start ==="@,
                    ),
                    old(self).log_cap(),
                    content@,
                ),
                old(self).log_cap(),
                "=== Validator Logs End ==="@,
            ),
            r.actions@.len() == 0,
            r.events@.len() == 3,
            r.events@[0] matches UiEvent::LogAppended(m) && m@ == strip_ansi(
                "=== Validator Logs Start ==="@,
            ),
            r.events@[1] matches UiEvent::LogAppended(m) && m@ == strip_ansi(content@),
            r.events@[2] matches UiEvent::LogAppended(m) && m@ == strip_ansi(
                "=== Validator Logs End ==="@,
            ),
    {
        let mut events: Vec<UiEvent> = Vec::new();
        self.log_line(string_of("=== Validator Logs Start ==="), &mut events);
        self.log_line(string_of(content), &mut events);
        self.log_line(string_of("=== Validator Logs End ==="), &mut events);
        Step { events, actions: Vec::new() }
    }

    /// Switches between viewing and editing the script. Entering edit mode
    /// only relabels the button; leaving it saves the shown content, trimmed
    /// of trailing whitespace, under the active network's script file.
    pub fn toggle_edit(&mut self, script_content: &str) -> (r: Step)
        requires
            old(self).wf(),
        ensures
            final(self).wf(),
            final(self).log_cap() == old(self).log_cap(),
            final(self).model() == (ControlModel {
                editing: !old(self).model().editing,
                ..old(self).model()
            }),
            final(self).log_view() == logged(
                old(self).log_view(),
                old(self).log_cap(),
                edit_log_msg(old(self).model().editing),
            ),
            r.events@.len() == 2,
            r.events@[0] matches UiEvent::LogAppended(m) && m@ == edit_log_msg(
                old(self).model().editing,
            ),
            r.events@[1] matches UiEvent::ButtonLabelChanged(b, l) && b is EditSave && l@ == (
            if old(self).model().editing {
                "Edit Script"@
            } else {
                "Save Script"@
            }),
            r.actions@.len() == (if old(self).model().editing {
                1int
            } else {
                0int
            }),
            old(self).model().editing ==> (r.actions@[0] matches Action::WriteScript {
                file_name,
                content,
            } && file_name@ == crate::script::script_file_name_spec(old(self).model().network)
                && content@ == crate::lines::trim_end_spec(script_content@)),
    {
        let mut events: Vec<UiEvent> = Vec::new();
        let mut actions: Vec<Action> = Vec::new();
        proof {
            lemma_clean_literal_edit();
        }
        if !self.editing {
            self.editing = true;
            self.log_line(string_of("Switching to edit mode..."), &mut events);
            events.push(
                UiEvent::ButtonLabelChanged(ButtonId::EditSave, string_of("Save Script")),
            );
        } else {
            self.editing = false;
            self.log_line(
                string_of("Saving script and switching to view mode..."),
                &mut events,
            );
            events.push(
                UiEvent::ButtonLabelChanged(ButtonId::EditSave, string_of("Edit Script")),
            );
            let (file_name, content) = crate::script::prepare_save(self.network, script_content);
            actions.push(Action::WriteScript { file_name, content });
        }
        Step { events, actions }
    }

    /// Records the outcome of writing the script file.
    pub fn save_result(&mut self, saved: bool, detail: &str) -> (r: Step)
        requires
            old(self).wf(),
        ensures
            final(self).wf(),
            final(self).log_cap() == old(self).log_cap(),
            final(self).model() == old(self).model(),
            final(self).log_view() == logged(
                old(self).log_view(),
                old(self).log_cap(),
                save_log_msg(old(self).model().network, saved, detail@),
            ),
            r.actions@.len() == 0,
            r.events@.len() == 1,
            r.events@[0] matches UiEvent::LogAppended(m) && m@ == strip_ansi(
                save_log_msg(old(self).model().network, saved, detail@),
            ),
    {
        let mut events: Vec<UiEvent> = Vec::new();
        let msg = if saved {
            string_of("Script ").concat(
                crate::script::script_file_name(self.network).as_str(),
            ).concat(" saved successfully!")
        } else {
            string_of("Failed to save script: ").concat(detail)
        };
        self.log_line(msg, &mut events);
        Step { events, actions: Vec::new() }
    }

    /// Selects the active network profile and hands back the script text to
    /// display for it: the file's content where the file exists, the default
    /// template otherwise.
    pub fn set_network(&mut self, network: NetworkProfile, existing: Option<String>) -> (r:
        String)
        requires
            old(self).wf(),
        ensures
            final(self).wf(),
            final(self).log_cap() == old(self).log_cap(),
            final(self).log_view() == old(self).log_view(),
            final(self).model() == (ControlModel { network, ..old(self).model() }),
            r@ == match existing {
                Option::Some(c) => c@,
                Option::None => crate::script::default_script_spec(network),
            },
    {
        self.network = network;
        crate::script::get_script_content(network, existing)
    }
}

/// The log message of an edit-mode switch.
pub open spec fn edit_log_msg(was_editing: bool) -> Seq<char> {
    if was_editing {
        "Saving script and switching to view mode..."@
    } else {
        "Switching to edit mode..."@
    }
}

/// The log message recording a save's outcome.
pub open spec fn save_log_msg(n: NetworkProfile, saved: bool, detail: Seq<char>) -> Seq<char> {
    if saved {
        "Script "@ + crate::script::script_file_name_spec(n) + " saved successfully!"@
    } else {
        "Failed to save script: "@ + detail
    }
}

/// The edit-mode messages hold no escape character, so sanitizing them is a
/// no-op.
proof fn lemma_clean_literal_edit()
    ensures
        strip_ansi("Switching to edit mode..."@) == "Switching to edit mode..."@,
        strip_ansi("Saving script and switching to view mode..."@)
            == "Saving script and switching to view mode..."@,
{
    reveal_strlit("Switching to edit mode...");
    reveal_strlit("Saving script and switching to view mode...");
    crate::sanitize::lemma_strip_ansi_clean_identity("Switching to edit mode..."@);
    crate::sanitize::lemma_strip_ansi_clean_identity(
        "Saving script and switching to view mode..."@,
    );
}

/// How many lines an on-demand snapshot reads from the log file's tail.
pub const LOG_TAIL_LINES: u64 = 20;

/// Whether the poll loop runs another iteration or ends.
#[derive(Clone, Copy, Debug, PartialEq, Eq, Structural)]
pub enum PollControl {
    Continue,
    Exit,
}

/// How long a start waits before confirming the process is up.
pub const START_CONFIRM_DELAY_SECS: u64 = 10;

/// How long a stop waits before resynchronizing displayed state.
pub const STOP_REFRESH_DELAY_SECS: u64 = 60;

/// The lowercase name of a network profile, as the log messages use it.
pub open spec fn network_name(n: NetworkProfile) -> Seq<char> {
    match n {
        NetworkProfile::Testnet => "testnet"@,
        NetworkProfile::Mainnet => "mainnet"@,
    }
}

/// The capitalized name of a network profile.
pub open spec fn network_title(n: NetworkProfile) -> Seq<char> {
    match n {
        NetworkProfile::Testnet => "Testnet"@,
        NetworkProfile::Mainnet => "Mainnet"@,
    }
}

/// The lowercase name of a network profile.
pub fn network_name_str(n: NetworkProfile) -> (r: String)
    ensures
        r@ == network_name(n),
{
    match n {
        NetworkProfile::Testnet => string_of("testnet"),
        NetworkProfile::Mainnet => string_of("mainnet"),
    }
}

/// The capitalized name of a network profile.
pub fn network_title_str(n: NetworkProfile) -> (r: String)
    ensures
        r@ == network_title(n),
{
    match n {
        NetworkProfile::Testnet => string_of("Testnet"),
        NetworkProfile::Mainnet => string_of("Mainnet"),
    }
}

/// The log message of a status refresh.
pub open spec fn status_check_msg(probe_running: bool) -> Seq<char> {
    "Checking validator status: "@ + (if probe_running {
        "RUNNING"@
    } else {
        "STOPPED"@
    })
}

/// The run button's label for a probe snapshot.
pub open spec fn run_label(probe_running: bool) -> Seq<char> {
    if probe_running {
        "Stop Validator"@
    } else {
        "Start Validator"@
    }
}

/// The log message written when the default script is created.
pub open spec fn created_script_msg(n: NetworkProfile) -> Seq<char> {
    "Created "@ + network_name(n) + " validator script from default content"@
}

/// The log message written when the launch script was spawned.
pub open spec fn spawn_ok_msg(n: NetworkProfile) -> Seq<char> {
    network_title(n) + " validator script started successfully! Please wait for status update..."@
}

/// The log message written when spawning the launch script failed.
pub open spec fn spawn_err_msg(n: NetworkProfile, error: Seq<char>) -> Seq<char> {
    "Failed to start "@ + network_name(n) + " validator: "@ + error
}

/// The log message of an accepted stop command: the graceful exit is
/// best-effort, so a failure to read the paths out of the script is logged,
/// not fatal.
pub open spec fn stop_log_msg(extracted: bool) -> Seq<char> {
    if extracted {
        "Executing solana-validator exit command. Please wait for status update..."@
    } else {
        "Could not extract validator or ledger paths from the script"@
    }
}

/// The log message for one poll iteration's command output.
pub open spec fn poll_output_msg(text: Seq<char>) -> Seq<char> {
    if crate::catchup::error_marked(text) {
        "Catchup status: Error detected in output"@
    } else if classify_spec(text) is Behind {
        "Catchup status: BEHIND"@
    } else if classify_spec(text) is CaughtUp {
        "Catchup status: CATCHUP"@
    } else {
        "Catchup status: No slot information found"@
    }
}

/// The log message a toggle of the auto-check flag writes.
pub open spec fn toggle_log_msg(was_on: bool) -> Seq<char> {
    if was_on {
        "Stopped auto checking status"@
    } else {
        "Started auto checking status"@
    }
}

/// The toggle log messages hold no escape character, so sanitizing them is a
/// no-op.
proof fn lemma_clean_literal_toggle()
    ensures
        strip_ansi("Stopped auto checking status"@) == "Stopped auto checking status"@,
        strip_ansi("Started auto checking status"@) == "Started auto checking status"@,
{
    reveal_strlit("Stopped auto checking status");
    reveal_strlit("Started auto checking status");
    crate::sanitize::lemma_strip_ansi_clean_identity("Stopped auto checking status"@);
    crate::sanitize::lemma_strip_ansi_clean_identity("Started auto checking status"@);
}

/// The exit-output headers hold no escape character, so sanitizing them is a
/// no-op.
proof fn lemma_clean_literal_exit()
    ensures
        strip_ansi("Exit command stdout:"@) == "Exit command stdout:"@,
        strip_ansi("Exit command stderr:"@) == "Exit command stderr:"@,
{
    reveal_strlit("Exit command stdout:");
    reveal_strlit("Exit command stderr:");
    crate::sanitize::lemma_strip_ansi_clean_identity("Exit command stdout:"@);
    crate::sanitize::lemma_strip_ansi_clean_identity("Exit command stderr:"@);
}

} // verus!

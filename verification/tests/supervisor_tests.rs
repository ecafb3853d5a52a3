use xoon::catchup::CatchupStatus;
use xoon::events::{Action, ButtonId, ProcessState, StartError, StopError, UiEvent};
use xoon::script::{default_script, NetworkProfile};
use xoon::supervisor::{PollControl, Supervisor};

fn testnet_script() -> String {
    default_script(NetworkProfile::Testnet)
}

fn has_spawn(actions: &[Action]) -> bool {
    actions
        .iter()
        .any(|a| matches!(a, Action::SpawnScript { .. }))
}

fn has_exit(actions: &[Action]) -> bool {
    actions
        .iter()
        .any(|a| matches!(a, Action::InvokeExit { .. }))
}

#[test]
fn start_while_running_is_rejected_without_spawning() {
    let mut sup = Supervisor::new(NetworkProfile::Testnet);
    let before_logs = sup.log_text();
    let r = sup.start(true, true);
    assert!(matches!(r, Err(StartError::AlreadyRunning)));
    assert_eq!(sup.process_state(), ProcessState::Stopped);
    assert_eq!(sup.log_text(), before_logs);
}

#[test]
fn start_while_editing_is_rejected() {
    let mut sup = Supervisor::new(NetworkProfile::Testnet);
    sup.toggle_edit(&testnet_script());
    let r = sup.start(false, true);
    assert!(matches!(r, Err(StartError::EditInProgress)));
}

#[test]
fn accepted_start_spawns_and_schedules_a_confirmation() {
    let mut sup = Supervisor::new(NetworkProfile::Testnet);
    let step = sup.start(false, true).unwrap();
    assert!(has_spawn(&step.actions));
    assert!(step
        .actions
        .iter()
        .any(|a| matches!(a, Action::ScheduleStartConfirm { delay_secs: 10 })));
    assert_eq!(sup.process_state(), ProcessState::Starting);
}

#[test]
fn start_without_a_script_writes_the_default_template() {
    let mut sup = Supervisor::new(NetworkProfile::Testnet);
    let step = sup.start(false, false).unwrap();
    let write = step.actions.iter().find_map(|a| match a {
        Action::WriteScript { file_name, content } => Some((file_name.clone(), content.clone())),
        _ => None,
    });
    let (file_name, content) = write.expect("a missing script is written first");
    assert_eq!(file_name, "validator-testnet.sh");
    assert_eq!(content, testnet_script());
}

#[test]
fn start_with_a_script_does_not_rewrite_it() {
    let mut sup = Supervisor::new(NetworkProfile::Testnet);
    let step = sup.start(false, true).unwrap();
    assert!(!step
        .actions
        .iter()
        .any(|a| matches!(a, Action::WriteScript { .. })));
}

#[test]
fn stop_while_stopped_is_rejected_without_the_exit_command() {
    let mut sup = Supervisor::new(NetworkProfile::Testnet);
    let r = sup.stop(false, &testnet_script());
    assert!(matches!(r, Err(StopError::NotRunning)));
    assert_eq!(sup.process_state(), ProcessState::Stopped);
}

#[test]
fn accepted_stop_invokes_the_exit_command_with_extracted_paths() {
    let mut sup = Supervisor::new(NetworkProfile::Testnet);
    let step = sup.stop(true, &testnet_script()).unwrap();
    let exit = step.actions.iter().find_map(|a| match a {
        Action::InvokeExit {
            validator_path,
            ledger_path,
        } => Some((validator_path.clone(), ledger_path.clone())),
        _ => None,
    });
    let (validator_path, ledger_path) = exit.expect("the exit command is invoked");
    assert_eq!(validator_path, "solana-validator");
    assert_eq!(ledger_path, "./ledger");
    assert!(step
        .actions
        .iter()
        .any(|a| matches!(a, Action::ScheduleStopRefresh { delay_secs: 60 })));
    assert_eq!(sup.process_state(), ProcessState::Stopping);
}

#[test]
fn stop_with_an_unreadable_script_still_schedules_the_refresh() {
    let mut sup = Supervisor::new(NetworkProfile::Testnet);
    let step = sup.stop(true, "no markers here").unwrap();
    assert!(!has_exit(&step.actions));
    assert!(step
        .actions
        .iter()
        .any(|a| matches!(a, Action::ScheduleStopRefresh { .. })));
}

#[test]
fn toggle_flips_the_flag_and_relabels_the_button() {
    let mut sup = Supervisor::new(NetworkProfile::Testnet);
    assert!(!sup.auto_check_enabled());
    let step = sup.toggle_auto_check();
    assert!(sup.auto_check_enabled());
    assert!(matches!(
        &step.events[0],
        UiEvent::ButtonLabelChanged(ButtonId::AutoCheck, l) if l == "Stop Checking Status"
    ));
    let step = sup.toggle_auto_check();
    assert!(!sup.auto_check_enabled());
    assert!(matches!(
        &step.events[0],
        UiEvent::ButtonLabelChanged(ButtonId::AutoCheck, l) if l == "Auto Check Status"
    ));
}

#[test]
fn toggling_off_makes_the_next_poll_iteration_exit_and_reset() {
    let mut sup = Supervisor::new(NetworkProfile::Testnet);
    sup.toggle_auto_check();
    sup.refresh(true, &testnet_script());
    let (control, _) = sup.poll_iteration(true, Some("2 slot(s) behind".to_string()));
    assert_eq!(control, PollControl::Continue);
    assert_eq!(sup.catchup_status(), CatchupStatus::Behind(2));

    sup.toggle_auto_check();
    let (control, step) = sup.poll_iteration(true, Some("2 slot(s) behind".to_string()));
    assert_eq!(control, PollControl::Exit);
    assert_eq!(sup.catchup_status(), CatchupStatus::Unknown);
    assert!(step
        .events
        .iter()
        .any(|e| matches!(e, UiEvent::CatchupChanged(CatchupStatus::Unknown))));
}

#[test]
fn poll_iteration_detects_a_vanished_validator() {
    let mut sup = Supervisor::new(NetworkProfile::Testnet);
    sup.toggle_auto_check();
    let (control, step) = sup.poll_iteration(false, None);
    assert_eq!(control, PollControl::Exit);
    assert_eq!(sup.process_state(), ProcessState::Stopped);
    assert_eq!(sup.catchup_status(), CatchupStatus::Unknown);
    assert!(!sup.auto_check_enabled());
    assert!(step
        .events
        .iter()
        .any(|e| matches!(e, UiEvent::StatusChanged(ProcessState::Stopped))));
}

#[test]
fn poll_iteration_with_a_failed_command_keeps_the_old_state() {
    let mut sup = Supervisor::new(NetworkProfile::Testnet);
    sup.toggle_auto_check();
    sup.poll_iteration(true, Some("4 slot(s) behind".to_string()));
    let (control, _) = sup.poll_iteration(true, None);
    assert_eq!(control, PollControl::Continue);
    assert_eq!(sup.catchup_status(), CatchupStatus::Behind(4));
}

#[test]
fn refresh_found_stopped_disables_auto_checking() {
    let mut sup = Supervisor::new(NetworkProfile::Testnet);
    sup.toggle_auto_check();
    assert!(sup.auto_check_enabled());
    let step = sup.refresh(false, &testnet_script());
    assert_eq!(sup.process_state(), ProcessState::Stopped);
    assert!(!sup.auto_check_enabled());
    assert_eq!(sup.catchup_status(), CatchupStatus::Unknown);
    assert!(step
        .events
        .iter()
        .any(|e| matches!(e, UiEvent::ButtonLabelChanged(ButtonId::RunStop, l) if l == "Start Validator")));
}

#[test]
fn refresh_while_auto_checking_restarts_the_poller() {
    let mut sup = Supervisor::new(NetworkProfile::Testnet);
    sup.toggle_auto_check();
    let step = sup.refresh(true, &testnet_script());
    assert!(step
        .actions
        .iter()
        .any(|a| matches!(a, Action::StartPoller { solana_path } if solana_path == "solana")));
}

#[test]
fn ingest_log_batch_sanitizes_and_bounds_the_buffer() {
    let mut sup = Supervisor::new(NetworkProfile::Testnet);
    let step = sup.ingest_log_batch("\u{1b}[33mwarn\u{1b}[0m\nsecond");
    assert!(matches!(
        &step.events[0],
        UiEvent::LogAppended(m) if m == "warn\nsecond"
    ));
    assert_eq!(sup.log_line_count(), 2);
    for _ in 0..300 {
        sup.ingest_log_batch("filler line");
    }
    assert_eq!(sup.log_line_count(), 100);
}

#[test]
fn log_snapshot_is_framed_by_markers() {
    let mut sup = Supervisor::new(NetworkProfile::Testnet);
    let step = sup.request_log_snapshot(true, &testnet_script());
    assert!(step
        .actions
        .iter()
        .any(|a| matches!(a, Action::ReadLogTail { log_path, line_count: 20 } if log_path == "./validator.log")));
    let step = sup.log_snapshot("tail line one\ntail line two");
    assert_eq!(step.events.len(), 3);
    assert!(matches!(&step.events[0], UiEvent::LogAppended(m) if m == "=== Validator Logs Start ==="));
    assert!(matches!(&step.events[2], UiEvent::LogAppended(m) if m == "=== Validator Logs End ==="));
}

#[test]
fn snapshot_request_while_stopped_only_logs() {
    let mut sup = Supervisor::new(NetworkProfile::Testnet);
    let step = sup.request_log_snapshot(false, &testnet_script());
    assert!(step.actions.is_empty());
    assert!(matches!(&step.events[0], UiEvent::LogAppended(m) if m == "Validator is not running"));
}

#[test]
fn toggle_edit_saves_trimmed_content_on_leaving_edit_mode() {
    let mut sup = Supervisor::new(NetworkProfile::Testnet);
    let step = sup.toggle_edit("ignored while entering");
    assert!(sup.is_editing());
    assert!(step.actions.is_empty());
    let step = sup.toggle_edit("#!/bin/bash\nexec v  \n\t");
    assert!(!sup.is_editing());
    assert!(step.actions.iter().any(|a| matches!(
        a,
        Action::WriteScript { file_name, content }
            if file_name == "validator-testnet.sh" && content == "#!/bin/bash\nexec v"
    )));
}

#[test]
fn save_result_logs_the_outcome() {
    let mut sup = Supervisor::new(NetworkProfile::Testnet);
    let step = sup.save_result(true, "");
    assert!(matches!(
        &step.events[0],
        UiEvent::LogAppended(m) if m == "Script validator-testnet.sh saved successfully!"
    ));
    let step = sup.save_result(false, "disk full");
    assert!(matches!(
        &step.events[0],
        UiEvent::LogAppended(m) if m == "Failed to save script: disk full"
    ));
}

#[test]
fn set_network_hands_back_the_content_to_display() {
    let mut sup = Supervisor::new(NetworkProfile::Testnet);
    let shown = sup.set_network(NetworkProfile::Mainnet, None);
    assert_eq!(sup.current_network(), NetworkProfile::Mainnet);
    assert_eq!(shown, default_script(NetworkProfile::Mainnet));
    let shown = sup.set_network(NetworkProfile::Testnet, Some("saved content".to_string()));
    assert_eq!(shown, "saved content");
}

//! One end-to-end pass over the supervisor: start with no script on disk,
//! see it created, confirm the process, poll once, stop gracefully, and
//! resynchronize after the deferred delay. The test plays the roles of the
//! probe, the file system and the timers.

use xoon::catchup::CatchupStatus;
use xoon::events::{Action, ProcessState, UiEvent};
use xoon::script::{default_script, NetworkProfile};
use xoon::supervisor::{PollControl, Supervisor};

#[test]
fn full_lifecycle_round_trip() {
    let mut sup = Supervisor::new(NetworkProfile::Testnet);

    // The script file is absent: the start writes the default template.
    let step = sup.start(false, false).expect("start is accepted");
    let written = step.actions.iter().find_map(|a| match a {
        Action::WriteScript { file_name, content } => Some((file_name.clone(), content.clone())),
        _ => None,
    });
    let (file_name, script) = written.expect("the default script is written");
    assert_eq!(file_name, "validator-testnet.sh");
    assert_eq!(script, default_script(NetworkProfile::Testnet));
    assert!(step
        .actions
        .iter()
        .any(|a| matches!(a, Action::SpawnScript { file_name } if file_name == "validator-testnet.sh")));
    let confirm_delay = step.actions.iter().find_map(|a| match a {
        Action::ScheduleStartConfirm { delay_secs } => Some(*delay_secs),
        _ => None,
    });
    assert_eq!(confirm_delay, Some(10));
    assert_eq!(sup.process_state(), ProcessState::Starting);

    // The spawn succeeded.
    sup.spawn_result(Ok(()));

    // After the deferred delay the probe sees the process: auto-checking is
    // enabled and the refresh publishes the running state and the poller.
    sup.start_confirmed(true);
    assert!(sup.auto_check_enabled());
    let step = sup.refresh(true, &script);
    assert_eq!(sup.process_state(), ProcessState::Running);
    assert!(step
        .events
        .iter()
        .any(|e| matches!(e, UiEvent::StatusChanged(ProcessState::Running))));
    assert!(step
        .actions
        .iter()
        .any(|a| matches!(a, Action::StartPoller { solana_path } if solana_path == "solana")));

    // One poll iteration classifies the status command's output.
    let (control, step) = sup.poll_iteration(true, Some("2 slot(s) behind".to_string()));
    assert_eq!(control, PollControl::Continue);
    assert_eq!(sup.catchup_status(), CatchupStatus::Behind(2));
    assert!(step
        .events
        .iter()
        .any(|e| matches!(e, UiEvent::CatchupChanged(CatchupStatus::Behind(2)))));

    // The stop invokes the validator's own exit command with the ledger
    // path extracted from the script.
    let step = sup.stop(true, &script).expect("stop is accepted");
    let exit = step.actions.iter().find_map(|a| match a {
        Action::InvokeExit {
            validator_path,
            ledger_path,
        } => Some((validator_path.clone(), ledger_path.clone())),
        _ => None,
    });
    let (validator_path, ledger_path) = exit.expect("the exit command is invoked");
    assert_eq!(validator_path, "solana-validator");
    assert_eq!(ledger_path, "./ledger");
    let refresh_delay = step.actions.iter().find_map(|a| match a {
        Action::ScheduleStopRefresh { delay_secs } => Some(*delay_secs),
        _ => None,
    });
    assert_eq!(refresh_delay, Some(60));
    assert_eq!(sup.process_state(), ProcessState::Stopping);
    sup.exit_output("exit requested", "");

    // After the deferred delay the displayed state is resynchronized:
    // auto-checking is off and the probe now reports the process gone.
    sup.stop_refresh();
    assert!(!sup.auto_check_enabled());
    sup.refresh(false, &script);
    assert_eq!(sup.process_state(), ProcessState::Stopped);
    assert_eq!(sup.catchup_status(), CatchupStatus::Unknown);
}

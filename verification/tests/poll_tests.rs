use hetzner_backup_pull::api::Action;
use hetzner_backup_pull::api::ActionStatus;
use hetzner_backup_pull::error::HbpError;
use hetzner_backup_pull::error::HetznerError;
use hetzner_backup_pull::poll::poll_script;
use hetzner_backup_pull::poll::poll_step;
use hetzner_backup_pull::poll::PollStep;

fn running(progress: u8) -> Action {
    Action {
        id: 42,
        command: "create_image".to_string(),
        status: ActionStatus::Running,
        progress,
        error: None,
    }
}

fn success() -> Action {
    Action {
        id: 42,
        command: "create_image".to_string(),
        status: ActionStatus::Success,
        progress: 100,
        error: None,
    }
}

fn pending() -> Action {
    Action {
        id: 42,
        command: "create_image".to_string(),
        status: ActionStatus::Pending,
        progress: 0,
        error: None,
    }
}

fn failed(code: &str, message: &str) -> Action {
    Action {
        id: 42,
        command: "export_image".to_string(),
        status: ActionStatus::Error,
        progress: 55,
        error: Some(HetznerError { code: code.to_string(), message: message.to_string() }),
    }
}

#[test]
fn scripted_poll_two_progress_events_then_success() {
    let script = vec![running(10), running(55), success()];
    let (events, outcome) = poll_script(&script);
    assert_eq!(events.len(), 2);
    assert_eq!(events[0].progress, 10);
    assert_eq!(events[1].progress, 55);
    assert_eq!(events[0].id, 42);
    assert_eq!(events[0].command, "create_image");
    assert!(outcome.is_ok());
}

#[test]
fn scripted_poll_one_progress_event_then_error() {
    let script = vec![running(10), failed("server_error", "boom")];
    let (events, outcome) = poll_script(&script);
    assert_eq!(events.len(), 1);
    assert_eq!(events[0].progress, 10);
    match outcome {
        Err(HbpError::ActionFailed { command, error }) => {
            assert_eq!(command, "export_image");
            let detail = error.expect("error detail should be carried over");
            assert_eq!(detail.code, "server_error");
            assert_eq!(detail.message, "boom");
        }
        other => panic!("expected ActionFailed, got {other:?}"),
    }
}

#[test]
fn terminal_action_resolves_immediately_whatever_follows() {
    let short = vec![success()];
    let (events_short, outcome_short) = poll_script(&short);
    assert_eq!(events_short.len(), 0);
    assert!(outcome_short.is_ok());

    let long = vec![success(), running(50), failed("x", "y")];
    let (events_long, outcome_long) = poll_script(&long);
    assert_eq!(events_long.len(), 0);
    assert!(outcome_long.is_ok());
}

#[test]
fn export_error_detail_aborts_with_not_found() {
    let script = vec![failed("not_found", "image missing")];
    let (events, outcome) = poll_script(&script);
    assert_eq!(events.len(), 0);
    match outcome {
        Err(HbpError::ActionFailed { command, error }) => {
            assert_eq!(command, "export_image");
            let detail = error.expect("error detail should be carried over");
            assert_eq!(detail.code, "not_found");
            assert_eq!(detail.message, "image missing");
        }
        other => panic!("expected ActionFailed, got {other:?}"),
    }
}

#[test]
fn pending_actions_are_waited_on_without_events() {
    let script = vec![pending(), pending(), running(10), success()];
    let (events, outcome) = poll_script(&script);
    assert_eq!(events.len(), 1);
    assert_eq!(events[0].progress, 10);
    assert!(outcome.is_ok());

    let script = vec![pending(), failed("server_error", "boom")];
    let (events, outcome) = poll_script(&script);
    assert_eq!(events.len(), 0);
    assert!(matches!(outcome, Err(HbpError::ActionFailed { .. })));
}

#[test]
fn displayed_progress_never_regresses() {
    let script = vec![running(55), running(40), running(70), success()];
    let (events, outcome) = poll_script(&script);
    assert_eq!(events.len(), 3);
    assert_eq!(events[0].progress, 55);
    assert_eq!(events[1].progress, 55);
    assert_eq!(events[2].progress, 70);
    assert!(outcome.is_ok());
}

#[test]
fn exhausted_script_is_a_remote_call_failure() {
    let script = vec![running(10), running(90)];
    let (events, outcome) = poll_script(&script);
    assert_eq!(events.len(), 2);
    assert!(matches!(outcome, Err(HbpError::RemoteCallFailed(_))));
}

#[test]
fn poll_step_decisions() {
    match poll_step(running(33)) {
        PollStep::KeepWaiting(ev) => {
            assert_eq!(ev.id, 42);
            assert_eq!(ev.command, "create_image");
            assert_eq!(ev.progress, 33);
        }
        other => panic!("expected KeepWaiting, got {other:?}"),
    }
    assert!(matches!(poll_step(success()), PollStep::Finished));
    assert!(matches!(poll_step(failed("c", "m")), PollStep::Failed { .. }));
    assert!(matches!(poll_step(pending()), PollStep::WaitQuietly { id: 42 }));
}

use mcp_process_guard::{
    exit_status, run, Action, Cleanup, Event, GuardError, GuardOptions, GuardReport, GuardState,
    Handshake, Outcome, TimeSpan, Verdict,
};

fn options(command: &str, args: &[&str], handshake: bool) -> GuardOptions {
    GuardOptions {
        command: command.to_string(),
        args: args.iter().map(|a| a.to_string()).collect(),
        handshake,
        handshake_timeout: TimeSpan::from_millis(5_000),
        grace: TimeSpan::from_millis(2_000),
        cleanup_timeout: TimeSpan::from_millis(2_000),
        max_handshake_bytes: 65_536,
    }
}

/// Runs the decisions against the given observations, one per step asked for,
/// and returns every step asked for, the last one being the end of the run.
fn drive(options: &GuardOptions, events: Vec<Event>) -> Vec<Action> {
    let mut state = GuardState::new();
    let mut asked = Vec::new();
    let mut events = events.into_iter();
    loop {
        let action = run(options, &state);
        match action {
            Action::Finish(_) | Action::Fail(_) => {
                asked.push(action);
                assert!(events.next().is_none(), "observations left over");
                return asked;
            }
            _ => {
                let event = events.next().expect("an observation for every step");
                state.record(&action, event);
                asked.push(action);
            }
        }
    }
}

fn verdict(asked: &[Action]) -> Verdict {
    match asked.last() {
        Some(Action::Finish(v)) => *v,
        other => panic!("the run did not finish: {:?}", other),
    }
}

fn report_of(asked: &[Action]) -> GuardReport {
    verdict(asked).into_report(12)
}

const VALID_RESPONSE: &[u8] = b"{\"jsonrpc\":\"2.0\",\"id\":1,\"result\":{}}\n";

#[test]
fn no_handshake_reports_clean_exit_without_echoing_arguments() {
    let opts = options("sh", &["-c", "exit 0", "token=secret-value"], false);
    let asked = drive(
        &opts,
        vec![Event::Spawned, Event::Done, Event::Exited(Some(0)), Event::GroupAlive(false)],
    );
    assert!(matches!(asked[0], Action::Spawn));
    assert!(matches!(asked[1], Action::CloseInput));
    assert!(matches!(asked[2], Action::AwaitExit { timeout_nanos: 2_000_000_000 }));
    assert!(matches!(asked[3], Action::ProbeGroup));
    let report = report_of(&asked);
    assert_eq!(report.outcome, Outcome::Exited);
    assert_eq!(report.handshake, Handshake::Skipped);
    assert_eq!(report.exit_code, Some(0));
    assert!(!report.descendants_detected);
    assert_eq!(report.cleanup, Cleanup::NotNeeded);
    assert_eq!(exit_status(&Ok(report)), 0);
    let line = report.human_summary();
    assert!(!line.contains("secret-value"));
    assert!(line.contains("outcome=Exited"));
}

#[test]
fn timeout_is_bounded_and_does_not_echo_arguments() {
    let mut opts = options("sh", &["-c", "sleep 5", "--api-key=visible-no"], false);
    opts.grace = TimeSpan::from_millis(30);
    let asked = drive(
        &opts,
        vec![
            Event::Spawned,
            Event::Done,
            Event::StillRunning,
            Event::Terminated(true),
            Event::Exited(None),
            Event::GroupGone,
        ],
    );
    assert!(matches!(asked[2], Action::AwaitExit { timeout_nanos: 30_000_000 }));
    assert!(matches!(asked[3], Action::TerminateGroup));
    assert!(matches!(asked[4], Action::ReapChild { timeout_nanos: 2_000_000_000 }));
    assert!(matches!(asked[5], Action::ConfirmCleanup { timeout_nanos: 2_000_000_000 }));
    let report = report_of(&asked);
    assert_eq!(report.outcome, Outcome::TimedOut);
    assert_eq!(report.cleanup, Cleanup::Succeeded);
    assert_eq!(report.exit_code, None);
    assert_eq!(exit_status(&Ok(report)), 3);
    let line = report.human_summary();
    assert!(line.contains("TimedOut"));
    assert!(!line.contains("visible-no"));
}

#[test]
fn invalid_handshake_fails_and_cleans_up() {
    let mut opts = options("sh", &["-c", "printf 'not-json\\n'; sleep 5"], true);
    opts.handshake_timeout = TimeSpan::from_millis(200);
    let asked = drive(
        &opts,
        vec![
            Event::Spawned,
            Event::Written,
            Event::Frame(b"not-json\n".to_vec()),
            Event::Done,
            Event::Terminated(true),
            Event::Exited(None),
            Event::GroupGone,
        ],
    );
    assert!(matches!(asked[1], Action::SendRequest));
    assert!(matches!(asked[2], Action::ReadFrame { limit: 65_537, timeout_nanos: 200_000_000 }));
    assert!(matches!(asked[3], Action::CloseInput));
    assert!(matches!(asked[4], Action::TerminateGroup));
    let report = report_of(&asked);
    assert_eq!(report.outcome, Outcome::HandshakeFailed);
    assert_eq!(report.handshake, Handshake::Failed);
    let status = exit_status(&Ok(report));
    assert!(status == 4 || status == 7);
    assert!(report.human_summary().contains("HandshakeFailed"));
}

#[test]
fn oversized_handshake_frame_is_rejected_with_bounded_cleanup() {
    let mut opts = options("sh", &["-c", "printf '%080d\\n' 0; sleep 5"], true);
    opts.max_handshake_bytes = 32;
    opts.cleanup_timeout = TimeSpan::from_millis(200);
    let read = vec![b'0'; 33];
    let asked = drive(
        &opts,
        vec![
            Event::Spawned,
            Event::Written,
            Event::Frame(read),
            Event::Done,
            Event::Terminated(true),
            Event::Exited(None),
            Event::GroupGone,
        ],
    );
    assert!(matches!(asked[2], Action::ReadFrame { limit: 33, .. }));
    assert!(matches!(asked[5], Action::ReapChild { timeout_nanos: 200_000_000 }));
    assert!(matches!(asked[6], Action::ConfirmCleanup { timeout_nanos: 200_000_000 }));
    let report = report_of(&asked);
    assert_eq!(report.handshake, Handshake::Failed);
    assert_eq!(report.outcome, Outcome::HandshakeFailed);
    let status = exit_status(&Ok(report));
    assert!(status == 4 || status == 7);
    assert!(report.human_summary().contains("HandshakeFailed"));
}

#[test]
fn a_group_still_observable_at_the_deadline_leaves_cleanup_unverified() {
    let mut opts = options("sh", &[], true);
    opts.max_handshake_bytes = 32;
    let asked = drive(
        &opts,
        vec![
            Event::Spawned,
            Event::Written,
            Event::Frame(vec![b'0'; 33]),
            Event::Done,
            Event::Terminated(true),
            Event::Exited(None),
            Event::GroupLingering,
        ],
    );
    let report = report_of(&asked);
    assert_eq!(report.handshake, Handshake::Failed);
    assert_eq!(report.outcome, Outcome::CleanupFailed);
    assert_eq!(report.cleanup, Cleanup::Unverified);
    assert_eq!(exit_status(&Ok(report)), 7);
    assert!(report.human_summary().contains("cleanup=Unverified"));
}

#[test]
fn valid_handshake_is_reported_before_clean_exit() {
    let opts = options(
        "sh",
        &["-c", "read request; printf '{\"jsonrpc\":\"2.0\",\"id\":1,\"result\":{}}\\n'; read initialized"],
        true,
    );
    let asked = drive(
        &opts,
        vec![
            Event::Spawned,
            Event::Written,
            Event::Frame(VALID_RESPONSE.to_vec()),
            Event::Written,
            Event::Done,
            Event::Exited(Some(0)),
            Event::GroupAlive(false),
        ],
    );
    assert!(matches!(asked[3], Action::SendNotification));
    assert!(matches!(asked[4], Action::CloseInput));
    let report = report_of(&asked);
    assert_eq!(report.handshake, Handshake::Succeeded);
    assert_eq!(report.outcome, Outcome::Exited);
    assert_eq!(exit_status(&Ok(report)), 0);
}

#[test]
fn reports_and_cleans_owned_descendant_after_root_exits() {
    let mut opts = options("sh", &["-c", "sleep 30 &"], false);
    opts.grace = TimeSpan::from_millis(500);
    let asked = drive(
        &opts,
        vec![
            Event::Spawned,
            Event::Done,
            Event::Exited(Some(0)),
            Event::GroupAlive(true),
            Event::Terminated(true),
            Event::Exited(Some(0)),
            Event::GroupGone,
        ],
    );
    let report = report_of(&asked);
    assert_eq!(report.outcome, Outcome::DescendantsSurvived);
    assert!(report.descendants_detected);
    assert_eq!(report.cleanup, Cleanup::Succeeded);
    assert_eq!(report.exit_code, Some(0));
    assert_eq!(exit_status(&Ok(report)), 6);
}

#[test]
fn json_spawn_failure_is_structured_and_redacted() {
    let opts = options("definitely-not-a-real-command-secret-value", &[], false);
    let asked = drive(
        &opts,
        vec![Event::SpawnFailed("No such file or directory (os error 2)".to_string())],
    );
    let error = match asked.last() {
        Some(Action::Fail(GuardError::Spawn(message))) => {
            assert_eq!(message, "No such file or directory (os error 2)");
            GuardError::Spawn(message.clone())
        }
        other => panic!("expected a spawn failure: {:?}", other),
    };
    let line = error.failure_json();
    assert!(line.contains("\"outcome\":\"spawn_failed\""));
    assert!(!line.contains("secret-value"));
    assert_eq!(exit_status(&Err(error)), 5);
}

#[test]
fn windows_no_handshake_reports_clean_exit() {
    let opts = options("cmd", &["/C", "exit", "0"], false);
    let asked = drive(
        &opts,
        vec![Event::Spawned, Event::Done, Event::Exited(Some(0)), Event::GroupAlive(false)],
    );
    let report = report_of(&asked);
    assert_eq!(report.outcome, Outcome::Exited);
    assert_eq!(exit_status(&Ok(report)), 0);
}

#[test]
fn windows_job_reports_and_cleans_descendant_after_root_exits() {
    let opts = options("cmd", &["/C", "start /B ping -n 30 127.0.0.1 >NUL & exit /B 0"], false);
    let asked = drive(
        &opts,
        vec![
            Event::Spawned,
            Event::Done,
            Event::Exited(Some(0)),
            Event::GroupAlive(true),
            Event::Terminated(true),
            Event::Exited(Some(0)),
            Event::GroupGone,
        ],
    );
    let report = report_of(&asked);
    assert_eq!(report.outcome, Outcome::DescendantsSurvived);
    assert_eq!(report.cleanup, Cleanup::Succeeded);
    assert_eq!(exit_status(&Ok(report)), 6);
}

#[test]
fn invalid_options_fail_before_anything_is_launched() {
    let mut opts = options("sh", &[], false);
    opts.grace = TimeSpan::from_millis(0);
    let asked = drive(&opts, vec![]);
    assert_eq!(asked.len(), 1);
    let error = match asked.last() {
        Some(Action::Fail(GuardError::InvalidOptions)) => GuardError::InvalidOptions,
        other => panic!("expected invalid options: {:?}", other),
    };
    assert!(error.failure_json().contains("\"outcome\":\"input_failed\""));
    assert_eq!(exit_status(&Err(error)), 5);
}

#[test]
fn ownership_failure_is_reported() {
    let opts = options("sh", &[], false);
    let asked = drive(&opts, vec![Event::OwnershipFailed("denied".to_string())]);
    match asked.last() {
        Some(Action::Fail(error @ GuardError::Ownership(_))) => {
            assert_eq!(error.outcome_label(), "ownership_failed")
        }
        other => panic!("expected an ownership failure: {:?}", other),
    }
}

#[test]
fn a_failed_wait_still_cleans_up_before_failing() {
    let opts = options("sh", &[], false);
    let asked = drive(
        &opts,
        vec![
            Event::Spawned,
            Event::Done,
            Event::WaitFailed("interrupted".to_string()),
            Event::Terminated(false),
            Event::StillRunning,
            Event::Done,
        ],
    );
    assert!(matches!(asked[3], Action::TerminateGroup));
    assert!(matches!(asked[4], Action::ReapChild { .. }));
    assert!(matches!(asked[5], Action::AwaitGroupGone { timeout_nanos: 2_000_000_000 }));
    match asked.last() {
        Some(Action::Fail(error @ GuardError::Wait(message))) => {
            assert_eq!(message, "interrupted");
            assert_eq!(error.outcome_label(), "wait_failed");
        }
        other => panic!("expected a wait failure: {:?}", other),
    }
}

#[test]
fn a_failed_probe_counts_as_surviving_descendants() {
    let opts = options("sh", &[], false);
    let asked = drive(
        &opts,
        vec![
            Event::Spawned,
            Event::Done,
            Event::Exited(Some(3)),
            Event::ProbeFailed,
            Event::Terminated(true),
            Event::Exited(Some(3)),
            Event::GroupGone,
        ],
    );
    let report = report_of(&asked);
    assert_eq!(report.outcome, Outcome::DescendantsSurvived);
    assert_eq!(report.exit_code, Some(3));
}

#[test]
fn a_non_zero_exit_is_a_child_failure() {
    let opts = options("sh", &[], false);
    let asked = drive(
        &opts,
        vec![Event::Spawned, Event::Done, Event::Exited(Some(2)), Event::GroupAlive(false)],
    );
    let report = report_of(&asked);
    assert_eq!(report.outcome, Outcome::Exited);
    assert_eq!(report.exit_code, Some(2));
    assert_eq!(exit_status(&Ok(report)), 1);
    let killed = Verdict { exit_code: None, ..verdict(&asked) }.into_report(0);
    assert_eq!(exit_status(&Ok(killed)), 1);
}

#[test]
fn refused_termination_fails_cleanup_without_waiting_for_the_group() {
    let opts = options("sh", &[], false);
    let asked = drive(
        &opts,
        vec![
            Event::Spawned,
            Event::Done,
            Event::StillRunning,
            Event::Terminated(false),
            Event::Exited(None),
        ],
    );
    let report = report_of(&asked);
    assert_eq!(report.outcome, Outcome::CleanupFailed);
    assert_eq!(report.cleanup, Cleanup::Failed);
    assert_eq!(exit_status(&Ok(report)), 7);
}

#[test]
fn an_unreaped_child_fails_cleanup() {
    let opts = options("sh", &[], false);
    let asked = drive(
        &opts,
        vec![
            Event::Spawned,
            Event::Done,
            Event::StillRunning,
            Event::Terminated(true),
            Event::StillRunning,
        ],
    );
    assert_eq!(report_of(&asked).cleanup, Cleanup::Failed);
}

#[test]
fn a_group_that_cannot_be_queried_fails_cleanup() {
    let opts = options("sh", &[], false);
    let asked = drive(
        &opts,
        vec![
            Event::Spawned,
            Event::Done,
            Event::StillRunning,
            Event::Terminated(true),
            Event::Exited(Some(137)),
            Event::GroupQueryFailed,
        ],
    );
    let report = report_of(&asked);
    assert_eq!(report.cleanup, Cleanup::Failed);
    assert_eq!(report.exit_code, Some(137));
}

#[test]
fn failed_writes_and_missing_frames_fail_the_handshake() {
    let opts = options("sh", &[], true);
    let cleanup = vec![Event::Done, Event::Terminated(true), Event::Exited(None), Event::GroupGone];
    let mut request_fails = vec![Event::Spawned, Event::WriteFailed];
    request_fails.extend(cleanup.iter().map(|e| clone_event(e)));
    let mut no_frame = vec![Event::Spawned, Event::Written, Event::NoFrame];
    no_frame.extend(cleanup.iter().map(|e| clone_event(e)));
    let mut notification_fails = vec![
        Event::Spawned,
        Event::Written,
        Event::Frame(VALID_RESPONSE.to_vec()),
        Event::WriteFailed,
    ];
    notification_fails.extend(cleanup.iter().map(|e| clone_event(e)));
    for events in [request_fails, no_frame, notification_fails] {
        let report = report_of(&drive(&opts, events));
        assert_eq!(report.handshake, Handshake::Failed);
        assert_eq!(report.outcome, Outcome::HandshakeFailed);
        assert_eq!(exit_status(&Ok(report)), 4);
    }
}

fn clone_event(event: &Event) -> Event {
    match event {
        Event::Done => Event::Done,
        Event::Terminated(t) => Event::Terminated(*t),
        Event::Exited(c) => Event::Exited(*c),
        Event::GroupGone => Event::GroupGone,
        other => panic!("not used here: {:?}", other),
    }
}

#[test]
fn an_event_that_does_not_answer_the_step_changes_nothing() {
    let opts = options("sh", &[], false);
    let mut state = GuardState::new();
    let first = run(&opts, &state);
    assert!(matches!(first, Action::Spawn));
    state.record(&first, Event::Written);
    assert!(matches!(run(&opts, &state), Action::Spawn));
}

#[test]
fn every_run_ends_within_eleven_steps() {
    let opts = options("sh", &[], true);
    let asked = drive(
        &opts,
        vec![
            Event::Spawned,
            Event::Written,
            Event::Frame(VALID_RESPONSE.to_vec()),
            Event::Written,
            Event::Done,
            Event::Exited(Some(0)),
            Event::GroupAlive(true),
            Event::Terminated(true),
            Event::Exited(Some(0)),
            Event::GroupGone,
        ],
    );
    assert!(asked.len() <= 12);
    assert_eq!(report_of(&asked).outcome, Outcome::DescendantsSurvived);
}

use mcp_process_guard::signals::{job_reply, kill_accepted, probe_liveness, SignalReply};
use mcp_process_guard::cli::{
    parse_bounded, parse_cleanup_timeout, parse_frame_size, parse_timeout, parse_u64,
};
use mcp_process_guard::options::options_are_valid;
use mcp_process_guard::text::{decimal_text, signed_decimal_text};
use mcp_process_guard::{
    exit_status, Cleanup, GuardError, GuardOptions, GuardReport, Handshake, Outcome, TimeSpan,
    MAX_HANDSHAKE_BYTES,
};

#[test]
fn rejects_zero_and_excessive_timeouts() {
    assert_eq!(parse_timeout("0"), Err("timeout must be between 1 and 3600000".to_string()));
    assert_eq!(
        parse_timeout("3600001"),
        Err("timeout must be between 1 and 3600000".to_string())
    );
    assert_eq!(parse_timeout("3600000"), Ok(3_600_000));
    assert_eq!(parse_timeout("1"), Ok(1));
}

#[test]
fn numerals_read_as_the_standard_library_reads_them() {
    assert_eq!(parse_u64("0"), Some(0));
    assert_eq!(parse_u64("+5"), Some(5));
    assert_eq!(parse_u64("007"), Some(7));
    assert_eq!(parse_u64("18446744073709551615"), Some(u64::MAX));
    assert_eq!(parse_u64("18446744073709551616"), None);
    assert_eq!(parse_u64("99999999999999999999x"), None);
    assert_eq!(parse_u64(""), None);
    assert_eq!(parse_u64("+"), None);
    assert_eq!(parse_u64("-5"), None);
    assert_eq!(parse_u64(" 5"), None);
    assert_eq!(parse_u64("5 "), None);
    assert_eq!(parse_u64("1_000"), None);
    assert_eq!(parse_u64("١"), None);
    for text in ["0", "+5", "42", "18446744073709551615", "18446744073709551616", "-1", "", "x"] {
        assert_eq!(parse_u64(text), text.parse::<u64>().ok());
    }
}

#[test]
fn bounded_values_name_what_was_wrong() {
    assert_eq!(parse_bounded("abc", 10, "size"), Err("size must be an integer".to_string()));
    assert_eq!(parse_bounded("11", 10, "size"), Err("size must be between 1 and 10".to_string()));
    assert_eq!(parse_bounded("10", 10, "size"), Ok(10));
    assert_eq!(
        parse_cleanup_timeout("60001"),
        Err("cleanup timeout must be between 1 and 60000".to_string())
    );
    assert_eq!(parse_cleanup_timeout("60000"), Ok(60_000));
    assert_eq!(
        parse_frame_size("1048577"),
        Err("handshake frame size must be between 1 and 1048576".to_string())
    );
    assert_eq!(parse_frame_size("1048576"), Ok(1_048_576usize));
    assert_eq!(
        parse_frame_size("lots"),
        Err("handshake frame size must be an integer".to_string())
    );
}

#[test]
fn numerals_render_in_decimal() {
    assert_eq!(decimal_text(0), "0");
    assert_eq!(decimal_text(7), "7");
    assert_eq!(decimal_text(1_234_567_890_123), "1234567890123");
    assert_eq!(decimal_text(u128::MAX), u128::MAX.to_string());
    assert_eq!(signed_decimal_text(-1), "-1");
    assert_eq!(signed_decimal_text(i32::MIN), "-2147483648");
    assert_eq!(signed_decimal_text(i32::MAX), "2147483647");
}

fn valid_options() -> GuardOptions {
    GuardOptions {
        command: "server".to_string(),
        args: vec![],
        handshake: true,
        handshake_timeout: TimeSpan::from_secs(3_600),
        grace: TimeSpan::from_secs(3_600),
        cleanup_timeout: TimeSpan::from_secs(60),
        max_handshake_bytes: MAX_HANDSHAKE_BYTES,
    }
}

#[test]
fn option_bounds_are_inclusive_and_exact() {
    assert!(options_are_valid(&valid_options()));
    let mut o = valid_options();
    o.grace = TimeSpan { nanos: 3_600_000_000_001 };
    assert!(!options_are_valid(&o));
    let mut o = valid_options();
    o.handshake_timeout = TimeSpan { nanos: 0 };
    assert!(!options_are_valid(&o));
    let mut o = valid_options();
    o.cleanup_timeout = TimeSpan { nanos: 60_000_000_001 };
    assert!(!options_are_valid(&o));
    let mut o = valid_options();
    o.cleanup_timeout = TimeSpan { nanos: 1 };
    assert!(options_are_valid(&o));
    let mut o = valid_options();
    o.max_handshake_bytes = 0;
    assert!(!options_are_valid(&o));
    let mut o = valid_options();
    o.max_handshake_bytes = MAX_HANDSHAKE_BYTES + 1;
    assert!(!options_are_valid(&o));
    assert_eq!(TimeSpan::from_millis(1_500).nanos, 1_500_000_000);
    assert_eq!(TimeSpan::from_secs(2).nanos, 2_000_000_000);
    assert!(TimeSpan::from_millis(0).is_zero());
}

fn report(outcome: Outcome, exit_code: Option<i32>, cleanup: Cleanup) -> GuardReport {
    GuardReport {
        outcome,
        handshake: Handshake::Skipped,
        elapsed_ms: 1_234,
        exit_code,
        descendants_detected: false,
        cleanup,
    }
}

#[test]
fn exit_statuses_follow_the_outcome() {
    assert_eq!(exit_status(&Ok(report(Outcome::Exited, Some(0), Cleanup::NotNeeded))), 0);
    assert_eq!(exit_status(&Ok(report(Outcome::Exited, Some(1), Cleanup::NotNeeded))), 1);
    assert_eq!(exit_status(&Ok(report(Outcome::Exited, None, Cleanup::NotNeeded))), 1);
    assert_eq!(exit_status(&Ok(report(Outcome::TimedOut, None, Cleanup::Succeeded))), 3);
    assert_eq!(exit_status(&Ok(report(Outcome::HandshakeFailed, None, Cleanup::Succeeded))), 4);
    assert_eq!(
        exit_status(&Ok(report(Outcome::DescendantsSurvived, Some(0), Cleanup::Succeeded))),
        6
    );
    assert_eq!(exit_status(&Ok(report(Outcome::CleanupFailed, None, Cleanup::Failed))), 7);
    assert_eq!(exit_status(&Err(GuardError::Wait("x".to_string()))), 5);
}

#[test]
fn the_human_summary_names_every_field() {
    let line = report(Outcome::TimedOut, None, Cleanup::Unverified).human_summary();
    assert_eq!(
        line,
        "outcome=TimedOut handshake=Skipped elapsed_ms=1234 exit_code=none descendants_detected=false cleanup=Unverified"
    );
    let mut r = report(Outcome::DescendantsSurvived, Some(-3), Cleanup::Succeeded);
    r.descendants_detected = true;
    r.handshake = Handshake::Succeeded;
    assert_eq!(
        r.human_summary(),
        "outcome=DescendantsSurvived handshake=Succeeded elapsed_ms=1234 exit_code=-3 descendants_detected=true cleanup=Succeeded"
    );
}

#[test]
fn failure_reports_are_fixed_json_lines() {
    assert_eq!(
        GuardError::Ownership("denied".to_string()).failure_json(),
        "{\"outcome\":\"ownership_failed\",\"handshake\":\"skipped\",\"elapsed_ms\":0,\"exit_code\":null,\"descendants_detected\":false,\"cleanup\":\"not_needed\"}"
    );
    assert_eq!(GuardError::InvalidOptions.outcome_label(), "input_failed");
    assert_eq!(GuardError::Spawn(String::new()).outcome_label(), "spawn_failed");
}

#[test]
fn signal_replies_tell_liveness_and_acceptance() {
    assert_eq!(probe_liveness(SignalReply::Delivered), Some(true));
    assert_eq!(probe_liveness(SignalReply::NotPermitted), Some(true));
    assert_eq!(probe_liveness(SignalReply::NoSuchProcess), Some(false));
    assert_eq!(probe_liveness(SignalReply::Failed), None);
    assert!(kill_accepted(SignalReply::Delivered));
    assert!(kill_accepted(SignalReply::NoSuchProcess));
    assert!(!kill_accepted(SignalReply::NotPermitted));
    assert!(!kill_accepted(SignalReply::Failed));
}

#[test]
fn job_accounting_reads_as_a_reply() {
    assert_eq!(job_reply(false, 3), SignalReply::Failed);
    assert_eq!(job_reply(true, 2), SignalReply::Delivered);
    assert_eq!(job_reply(true, 0), SignalReply::NoSuchProcess);
    assert_eq!(probe_liveness(job_reply(true, 0)), Some(false));
    assert!(kill_accepted(job_reply(true, 0)));
}

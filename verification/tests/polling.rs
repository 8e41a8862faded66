use mcp_process_guard::cli::{parse_bounded, parse_u64};
use mcp_process_guard::lifecycle::{GroupCheck, WaitResult};
use mcp_process_guard::polling::{
    child_wait_step, group_wait_step, ChildWaitStep, GroupWaitStep, POLL_INTERVAL_NANOS,
};
use mcp_process_guard::signals::SignalReply;
use mcp_process_guard::text::decimal_text;

#[test]
fn the_group_wait_probes_first_and_stops_on_a_settled_reply() {
    assert_eq!(group_wait_step(None, 0, 1_000), GroupWaitStep::Probe);
    assert_eq!(group_wait_step(None, 5_000, 1_000), GroupWaitStep::Probe);
    assert_eq!(
        group_wait_step(Some(SignalReply::NoSuchProcess), 0, 1_000),
        GroupWaitStep::Done(GroupCheck::Gone)
    );
    assert_eq!(
        group_wait_step(Some(SignalReply::Failed), 0, 1_000),
        GroupWaitStep::Done(GroupCheck::Unknown)
    );
}

#[test]
fn a_live_group_is_polled_until_the_deadline() {
    assert_eq!(
        group_wait_step(Some(SignalReply::Delivered), 999, 1_000),
        GroupWaitStep::Sleep { nanos: POLL_INTERVAL_NANOS }
    );
    assert_eq!(
        group_wait_step(Some(SignalReply::NotPermitted), 1_000, 1_000),
        GroupWaitStep::Done(GroupCheck::Lingering)
    );
    assert_eq!(POLL_INTERVAL_NANOS, 10_000_000);
}

#[test]
fn the_child_wait_polls_until_exit_error_or_deadline() {
    assert!(matches!(child_wait_step(None, 0, 1_000), ChildWaitStep::Poll));
    assert!(matches!(
        child_wait_step(Some(WaitResult::Exited(Some(0))), 5_000, 1_000),
        ChildWaitStep::Done(WaitResult::Exited(Some(0)))
    ));
    match child_wait_step(Some(WaitResult::Failed("gone".to_string())), 0, 1_000) {
        ChildWaitStep::Done(WaitResult::Failed(message)) => assert_eq!(message, "gone"),
        other => panic!("expected the failure: {:?}", other),
    }
    assert!(matches!(
        child_wait_step(Some(WaitResult::Running), 10, 1_000),
        ChildWaitStep::Sleep { nanos: 10_000_000 }
    ));
    assert!(matches!(
        child_wait_step(Some(WaitResult::Running), 1_000, 1_000),
        ChildWaitStep::Done(WaitResult::Running)
    ));
}

#[test]
fn decimal_numerals_read_back_as_their_number() {
    for n in [1u64, 9, 10, 1_234, 3_600_000, u64::MAX] {
        let text = decimal_text(n as u128);
        assert_eq!(parse_u64(&text), Some(n));
        assert_eq!(parse_bounded(&text, u64::MAX, "value"), Ok(n));
        assert_eq!(parse_bounded(&n.to_string(), u64::MAX, "value"), Ok(n));
    }
}

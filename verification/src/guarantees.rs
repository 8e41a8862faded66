//! What every run of the guard keeps, proved over the decisions of
//! [`crate::lifecycle::run`] for every state it can be asked about.

use vstd::prelude::*;
use crate::handshake::frame_status;
use crate::lifecycle::{
    cleanup_action, handshake_progress, GroupCheck, initial_state, next_action, recorded, Action, Event, GuardState,
    HandshakeProgress, WaitResult,
};
use crate::options::{
    options_valid, GuardOptions, MAX_CLEANUP_NANOS, MAX_HANDSHAKE_BYTES, MAX_TIMEOUT_NANOS,
};
use crate::report::{Cleanup, GuardError, Handshake, Outcome};

verus! {

/// The state a run reaches when each event in turn answers the step that the
/// run asked for.
pub open spec fn replay(options: &GuardOptions, events: Seq<Event>) -> GuardState
    decreases events.len(),
{
    if events.len() == 0 {
        initial_state()
    } else {
        let s = replay(options, events.drop_last());
        recorded(s, next_action(options, &s), events.last())
    }
}

/// What holds of every state a run reaches: a failed launch failed to start or
/// to own its group, and the grace period is waited only after a launch, a
/// handshake that did not fail, and the closing of the child's input.
pub open spec fn consistent(options: &GuardOptions, s: &GuardState) -> bool {
    &&& (s.spawn matches Some(Err(e)) ==> (e is Spawn || e is Ownership))
    &&& (s.grace_wait is Some ==> {
        &&& s.spawn matches Some(Ok(_))
        &&& s.input_closed
        &&& handshake_progress(options, s) matches HandshakeProgress::Decided(h)
        &&& h != Handshake::Failed
    })
}

proof fn step_keeps_consistency(options: &GuardOptions, s: GuardState, event: Event)
    requires
        consistent(options, &s),
    ensures
        consistent(options, &recorded(s, next_action(options, &s), event)),
{
    let a = next_action(options, &s);
    let t = recorded(s, a, event);
    if t.grace_wait is Some {
        if s.grace_wait is Some {
            assert(!(a is Spawn || a is SendRequest || a is ReadFrame || a is SendNotification));
            assert(t.spawn == s.spawn);
            assert(t.request_sent == s.request_sent);
            assert(t.frame == s.frame);
            assert(t.notification_sent == s.notification_sent);
            assert(t.input_closed);
            assert(handshake_progress(options, &t) == handshake_progress(options, &s));
        } else {
            assert(a is AwaitExit);
            assert(t.spawn == s.spawn);
            assert(t.request_sent == s.request_sent);
            assert(t.frame == s.frame);
            assert(t.notification_sent == s.notification_sent);
            assert(handshake_progress(options, &t) == handshake_progress(options, &s));
        }
        assert(t.spawn matches Some(Ok(_)));
        assert(handshake_progress(options, &t) matches HandshakeProgress::Decided(h) && h != Handshake::Failed);
    }
    assert(t.spawn matches Some(Err(e)) ==> (e is Spawn || e is Ownership));
}

/// Every state a run reaches is consistent.
pub proof fn replay_is_consistent(options: &GuardOptions, events: Seq<Event>)
    ensures
        consistent(options, &replay(options, events)),
    decreases events.len(),
{
    if events.len() > 0 {
        replay_is_consistent(options, events.drop_last());
        step_keeps_consistency(options, replay(options, events.drop_last()), events.last());
    }
}

/// Options that break a bound make the run fail before anything is launched,
/// whatever has been observed.
pub proof fn invalid_options_fail_before_launch(options: &GuardOptions, s: &GuardState)
    requires
        !options_valid(options),
    ensures
        next_action(options, s) == Action::Fail(GuardError::InvalidOptions),
{
}

/// Every wait the run asks for is bounded: the handshake wait and the grace
/// period by an hour, every cleanup wait by a minute, none of them zero; and a
/// frame is read with a limit one byte over the validated frame size.
pub proof fn waits_and_frames_are_bounded(options: &GuardOptions, s: &GuardState)
    ensures
        match next_action(options, s) {
            Action::ReadFrame { limit, timeout_nanos } => {
                &&& 0 < timeout_nanos <= MAX_TIMEOUT_NANOS
                &&& timeout_nanos == options.handshake_timeout.nanos
                &&& limit == options.max_handshake_bytes + 1
                &&& limit <= MAX_HANDSHAKE_BYTES + 1
            },
            Action::AwaitExit { timeout_nanos } => {
                &&& 0 < timeout_nanos <= MAX_TIMEOUT_NANOS
                &&& timeout_nanos == options.grace.nanos
            },
            Action::ReapChild { timeout_nanos } => {
                &&& 0 < timeout_nanos <= MAX_CLEANUP_NANOS
                &&& timeout_nanos == options.cleanup_timeout.nanos
            },
            Action::ConfirmCleanup { timeout_nanos } => {
                &&& 0 < timeout_nanos <= MAX_CLEANUP_NANOS
                &&& timeout_nanos == options.cleanup_timeout.nanos
            },
            Action::AwaitGroupGone { timeout_nanos } => {
                &&& 0 < timeout_nanos <= MAX_CLEANUP_NANOS
                &&& timeout_nanos == options.cleanup_timeout.nanos
            },
            _ => true,
        },
{
}

/// The owned group is probed, signalled or waited for only once the command
/// runs inside it: every step but the launch and the failures before it comes
/// after a successful launch.
pub proof fn group_work_follows_launch(options: &GuardOptions, events: Seq<Event>)
    ensures
        ({
            let s = replay(options, events);
            match next_action(options, &s) {
                Action::Spawn => s.spawn is None,
                Action::Fail(GuardError::InvalidOptions) => true,
                Action::Fail(GuardError::Spawn(_)) => s.spawn is Some,
                Action::Fail(GuardError::Ownership(_)) => s.spawn is Some,
                _ => s.spawn matches Some(Ok(_)),
            }
        }),
{
    replay_is_consistent(options, events);
}

/// The cleanup status and the outcome agree: cleanup failed or stayed
/// unverified exactly when the outcome is `CleanupFailed`.
pub proof fn cleanup_failure_is_the_outcome(options: &GuardOptions, s: &GuardState)
    ensures
        match next_action(options, s) {
            Action::Finish(v) => ((v.cleanup == Cleanup::Failed || v.cleanup == Cleanup::Unverified)
                <==> v.outcome == Outcome::CleanupFailed),
            _ => true,
        },
{
}

/// A clean exit is reported only for a child that exited within the grace
/// period and whose group was then found empty; nothing was cleaned up, and
/// its exit code is the one the wait observed.
pub proof fn clean_exit_means_empty_group(options: &GuardOptions, s: &GuardState)
    ensures
        match next_action(options, s) {
            Action::Finish(v) => v.outcome == Outcome::Exited ==> {
                &&& v.cleanup == Cleanup::NotNeeded
                &&& !v.descendants_detected
                &&& s.grace_wait == Some(WaitResult::Exited(v.exit_code))
                &&& s.probe == Some(Some(false))
            },
            _ => true,
        },
{
}

/// A root that exits in time still has its group probed before any report.
pub proof fn exited_root_has_group_probed(options: &GuardOptions, events: Seq<Event>)
    ensures
        ({
            let s = replay(options, events);
            match next_action(options, &s) {
                Action::Finish(_) => s.grace_wait matches Some(WaitResult::Exited(_)) ==> s.probe is Some,
                _ => true,
            }
        }),
{
    replay_is_consistent(options, events);
}

/// Surviving descendants are reported only when the group was found alive
/// after the root exited, or could not be probed; the run then cleaned up.
pub proof fn descendants_reported_after_live_probe(options: &GuardOptions, s: &GuardState)
    ensures
        match next_action(options, s) {
            Action::Finish(v) => v.descendants_detected ==> {
                &&& v.outcome == Outcome::DescendantsSurvived || v.outcome == Outcome::CleanupFailed
                &&& s.grace_wait matches Some(WaitResult::Exited(_))
                &&& (s.probe == Some(Some(true)) || s.probe == Some(None::<bool>))
                &&& v.cleanup != Cleanup::NotNeeded
            },
            _ => true,
        },
{
}

/// A child still running at the end of the grace period is reported as timed
/// out, or as a failed cleanup, and its group was always signalled.
pub proof fn timeout_triggers_cleanup(options: &GuardOptions, events: Seq<Event>)
    ensures
        ({
            let s = replay(options, events);
            match next_action(options, &s) {
                Action::Finish(v) => s.grace_wait == Some(WaitResult::Running) ==> {
                    &&& v.outcome == Outcome::TimedOut || v.outcome == Outcome::CleanupFailed
                    &&& v.cleanup != Cleanup::NotNeeded
                    &&& s.terminated is Some
                },
                _ => true,
            }
        }),
{
    replay_is_consistent(options, events);
}

/// Cleanup counts as succeeded only when termination was accepted, an exit
/// status of the child is known, and the group was gone within the deadline;
/// it counts as unverified only when the first two hold and the group stayed
/// observable until the deadline.
pub proof fn cleanup_success_is_proved(options: &GuardOptions, s: &GuardState)
    ensures
        match next_action(options, s) {
            Action::Finish(v) => (v.cleanup == Cleanup::Succeeded || v.cleanup == Cleanup::Unverified)
                ==> {
                &&& s.terminated == Some(true)
                &&& s.confirmed == Some(
                    if v.cleanup == Cleanup::Succeeded {
                        GroupCheck::Gone
                    } else {
                        GroupCheck::Lingering
                    },
                )
                &&& (s.grace_wait matches Some(WaitResult::Exited(Some(_))) || s.reap matches Some(
                    WaitResult::Exited(_),
                ))
            },
            _ => true,
        },
{
}

/// The handshake is reported skipped exactly when the options disable it.
pub proof fn handshake_skipped_iff_disabled(options: &GuardOptions, s: &GuardState)
    ensures
        match next_action(options, s) {
            Action::Finish(v) => (v.handshake == Handshake::Skipped <==> !options.handshake),
            _ => true,
        },
{
}

/// A handshake is reported succeeded only after the request was written, a
/// frame within the limit was judged an accepted `initialize` response, and
/// the notification was written.
pub proof fn handshake_success_needs_accepted_frame(options: &GuardOptions, s: &GuardState)
    ensures
        match next_action(options, s) {
            Action::Finish(v) => v.handshake == Handshake::Succeeded ==> {
                &&& options.handshake
                &&& s.request_sent == Some(true)
                &&& s.frame matches Some(Some(bytes)) && frame_status(
                    bytes@,
                    options.max_handshake_bytes as nat,
                ) == Handshake::Succeeded
                &&& s.notification_sent == Some(true)
            },
            _ => true,
        },
{
}

/// A failed handshake goes straight to cleanup: the grace period is never
/// waited, and the outcome is `HandshakeFailed`, or `CleanupFailed`.
pub proof fn failed_handshake_skips_grace(options: &GuardOptions, events: Seq<Event>)
    ensures
        ({
            let s = replay(options, events);
            match next_action(options, &s) {
                Action::Finish(v) => v.handshake == Handshake::Failed ==> {
                    &&& s.grace_wait is None
                    &&& v.outcome == Outcome::HandshakeFailed || v.outcome == Outcome::CleanupFailed
                    &&& v.cleanup != Cleanup::NotNeeded
                },
                _ => true,
            }
        }),
{
    replay_is_consistent(options, events);
}

/// An exit code observed by the grace wait is the one reported.
pub proof fn observed_exit_code_is_reported(options: &GuardOptions, events: Seq<Event>, code: i32)
    ensures
        ({
            let s = replay(options, events);
            match next_action(options, &s) {
                Action::Finish(v) => s.grace_wait == Some(WaitResult::Exited(Some(code))) ==> v.exit_code
                    == Some(code),
                _ => true,
            }
        }),
{
    replay_is_consistent(options, events);
}

/// A failed wait is reported only after the group was signalled, the child
/// waited for, and the group waited for; the error carries the wait's message.
pub proof fn wait_failure_still_cleans_up(options: &GuardOptions, events: Seq<Event>)
    ensures
        ({
            let s = replay(options, events);
            match next_action(options, &s) {
                Action::Fail(GuardError::Wait(m)) => {
                    &&& s.grace_wait == Some(WaitResult::Failed(m))
                    &&& s.terminated is Some
                    &&& s.reap is Some
                    &&& s.group_gone_awaited
                },
                _ => true,
            }
        }),
{
    replay_is_consistent(options, events);
}

/// Whether `event` is an answer to `action`.
pub open spec fn answers(action: Action, event: Event) -> bool {
    match action {
        Action::Spawn => event is Spawned || event is SpawnFailed || event is OwnershipFailed,
        Action::SendRequest | Action::SendNotification => event is Written || event is WriteFailed,
        Action::ReadFrame { .. } => event is Frame || event is NoFrame,
        Action::CloseInput | Action::AwaitGroupGone { .. } => event is Done,
        Action::AwaitExit { .. } | Action::ReapChild { .. } => event is Exited || event
            is StillRunning || event is WaitFailed,
        Action::ProbeGroup => event is GroupAlive || event is ProbeFailed,
        Action::TerminateGroup => event is Terminated,
        Action::ConfirmCleanup { .. } => event is GroupGone || event is GroupLingering || event
            is GroupQueryFailed,
        Action::Finish(_) | Action::Fail(_) => false,
    }
}

/// One for an open question.
pub open spec fn open_if(unanswered: bool) -> nat {
    if unanswered { 1 } else { 0 }
}

/// How many of the run's questions are still unanswered.
pub open spec fn unanswered(s: GuardState) -> nat {
    open_if(s.spawn is None) + open_if(s.request_sent is None) + open_if(s.frame is None)
        + open_if(s.notification_sent is None) + open_if(!s.input_closed) + open_if(
        s.grace_wait is None,
    ) + open_if(s.probe is None) + open_if(s.terminated is None) + open_if(s.reap is None)
        + open_if(s.confirmed is None) + open_if(!s.group_gone_awaited)
}

/// The question that `action` asks is still open in `s`.
pub open spec fn question_open(action: Action, s: GuardState) -> bool {
    match action {
        Action::Spawn => s.spawn is None,
        Action::SendRequest => s.request_sent is None,
        Action::ReadFrame { .. } => s.frame is None,
        Action::SendNotification => s.notification_sent is None,
        Action::CloseInput => !s.input_closed,
        Action::AwaitExit { .. } => s.grace_wait is None,
        Action::ProbeGroup => s.probe is None,
        Action::TerminateGroup => s.terminated is None,
        Action::ReapChild { .. } => s.reap is None,
        Action::ConfirmCleanup { .. } => s.confirmed is None,
        Action::AwaitGroupGone { .. } => !s.group_gone_awaited,
        Action::Finish(_) | Action::Fail(_) => true,
    }
}

proof fn cleanup_asks_open_questions(
    options: &GuardOptions,
    s: &GuardState,
    handshake: Handshake,
    intended: Outcome,
    descendants_detected: bool,
    known_exit_code: Option<i32>,
)
    ensures
        question_open(
            cleanup_action(options, s, handshake, intended, descendants_detected, known_exit_code),
            *s,
        ),
{
}

proof fn run_asks_open_questions(options: &GuardOptions, s: &GuardState)
    ensures
        question_open(next_action(options, s), *s),
{
    if options_valid(options) && s.spawn matches Some(Ok(_)) {
        match handshake_progress(options, s) {
            HandshakeProgress::Decided(h) => {
                cleanup_asks_open_questions(options, s, h, Outcome::HandshakeFailed, false, None);
                cleanup_asks_open_questions(options, s, h, Outcome::TimedOut, false, None);
                if let Some(WaitResult::Exited(code)) = s.grace_wait {
                    cleanup_asks_open_questions(
                        options,
                        s,
                        h,
                        Outcome::DescendantsSurvived,
                        true,
                        code,
                    );
                }
            },
            _ => {},
        }
    }
}

proof fn answering_closes_the_question(s: GuardState, action: Action, event: Event)
    requires
        answers(action, event),
        question_open(action, s),
    ensures
        unanswered(recorded(s, action, event)) < unanswered(s),
{
    let t = recorded(s, action, event);
    match action {
        Action::Spawn => assert(t.spawn is Some && t == GuardState { spawn: t.spawn, ..s }),
        Action::SendRequest => assert(t.request_sent is Some && t == GuardState {
            request_sent: t.request_sent,
            ..s
        }),
        Action::ReadFrame { .. } => assert(t.frame is Some && t == GuardState { frame: t.frame, ..s }),
        Action::SendNotification => assert(t.notification_sent is Some && t == GuardState {
            notification_sent: t.notification_sent,
            ..s
        }),
        Action::CloseInput => assert(t.input_closed && t == GuardState { input_closed: true, ..s }),
        Action::AwaitExit { .. } => assert(t.grace_wait is Some && t == GuardState {
            grace_wait: t.grace_wait,
            ..s
        }),
        Action::ProbeGroup => assert(t.probe is Some && t == GuardState { probe: t.probe, ..s }),
        Action::TerminateGroup => assert(t.terminated is Some && t == GuardState {
            terminated: t.terminated,
            ..s
        }),
        Action::ReapChild { .. } => assert(t.reap is Some && t == GuardState { reap: t.reap, ..s }),
        Action::ConfirmCleanup { .. } => assert(t.confirmed is Some && t == GuardState {
            confirmed: t.confirmed,
            ..s
        }),
        Action::AwaitGroupGone { .. } => assert(t.group_gone_awaited && t == GuardState {
            group_gone_awaited: true,
            ..s
        }),
        _ => {},
    }
}

/// A run never asks a question twice: answering the question it asks leaves
/// strictly fewer questions open. A run starts with eleven open questions, so
/// it ends after at most eleven answered steps.
pub proof fn every_answer_makes_progress(options: &GuardOptions, s: GuardState, event: Event)
    requires
        answers(next_action(options, &s), event),
    ensures
        unanswered(recorded(s, next_action(options, &s), event)) < unanswered(s),
        unanswered(s) <= 11,
        unanswered(initial_state()) == 11,
{
    run_asks_open_questions(options, &s);
    answering_closes_the_question(s, next_action(options, &s), event);
}

/// The launched command and its arguments never enter a decision: two option
/// sets that differ only there take every run through the same steps, so
/// nothing of them can reach a report.
pub proof fn decisions_ignore_the_command(first: &GuardOptions, second: &GuardOptions, s: &GuardState)
    requires
        first.handshake == second.handshake,
        first.handshake_timeout == second.handshake_timeout,
        first.grace == second.grace,
        first.cleanup_timeout == second.cleanup_timeout,
        first.max_handshake_bytes == second.max_handshake_bytes,
    ensures
        next_action(first, s) == next_action(second, s),
{
    assert(handshake_progress(first, s) == handshake_progress(second, s));
}

/// Cleanup succeeds whenever it is proved: once termination was accepted, the
/// child's exit is known (from the grace wait, or from reaping it with any
/// status, a kill signal's included) and the group is confirmed gone, the run
/// ends with cleanup `Succeeded` and keeps its intended outcome and exit code.
pub proof fn proved_cleanup_succeeds(
    options: &GuardOptions,
    s: &GuardState,
    handshake: Handshake,
    intended: Outcome,
    descendants_detected: bool,
    known_exit_code: Option<i32>,
    reaped: Option<i32>,
)
    requires
        s.terminated == Some(true),
        s.confirmed == Some(GroupCheck::Gone),
        s.reap == Some(WaitResult::Exited(reaped)),
    ensures
        cleanup_action(options, s, handshake, intended, descendants_detected, known_exit_code)
            == Action::Finish(
            crate::report::Verdict {
                outcome: intended,
                handshake,
                exit_code: if known_exit_code is Some {
                    known_exit_code
                } else {
                    reaped
                },
                descendants_detected,
                cleanup: Cleanup::Succeeded,
            },
        ),
{
}

/// A timed-out run whose group was killed, whose child was reaped with any exit
/// status, and whose group was confirmed gone reports `TimedOut` with cleanup
/// `Succeeded`; a failed handshake cleaned up the same way reports
/// `HandshakeFailed`.
pub proof fn proved_cleanup_keeps_the_outcome(options: &GuardOptions, s: &GuardState, reaped: Option<i32>)
    requires
        options_valid(options),
        s.spawn matches Some(Ok(_)),
        s.input_closed,
        s.terminated == Some(true),
        s.reap == Some(WaitResult::Exited(reaped)),
        s.confirmed == Some(GroupCheck::Gone),
    ensures
        match handshake_progress(options, s) {
            HandshakeProgress::Decided(h) => if h == Handshake::Failed {
                next_action(options, s) == Action::Finish(
                    crate::report::Verdict {
                        outcome: Outcome::HandshakeFailed,
                        handshake: h,
                        exit_code: reaped,
                        descendants_detected: false,
                        cleanup: Cleanup::Succeeded,
                    },
                )
            } else {
                s.grace_wait == Some(WaitResult::Running) ==> next_action(options, s)
                    == Action::Finish(
                    crate::report::Verdict {
                        outcome: Outcome::TimedOut,
                        handshake: h,
                        exit_code: reaped,
                        descendants_detected: false,
                        cleanup: Cleanup::Succeeded,
                    },
                )
            },
            _ => true,
        },
{
}

} // verus!

//! The bounded polling waits: for the child to exit, and for the owned group
//! to be gone. The caller asks the operating system, reads the clock and
//! sleeps; these functions decide, after each reply, whether to ask again,
//! to sleep first, or to stop and with what.

use vstd::prelude::*;
use crate::lifecycle::{GroupCheck, WaitResult};
use crate::signals::{liveness, probe_liveness, SignalReply};

verus! {

/// How long a polling wait sleeps between two questions: ten milliseconds.
pub const POLL_INTERVAL_NANOS: u64 = 10_000_000;

/// The next step of the wait for the child to exit.
#[derive(Debug)]
pub enum ChildWaitStep {
    /// Ask whether the child has exited, without blocking.
    Poll,
    /// Sleep this many nanoseconds, then ask again.
    Sleep { nanos: u64 },
    /// The wait is over with this result.
    Done(WaitResult),
}

/// The next step of the wait for the owned group to be gone.
#[derive(Debug, PartialEq, Eq, Structural)]
pub enum GroupWaitStep {
    /// Probe the group.
    Probe,
    /// Sleep this many nanoseconds, then probe again.
    Sleep { nanos: u64 },
    /// The wait is over with this finding.
    Done(GroupCheck),
}

/// The step that follows a question about the child: with no reply yet, ask;
/// an exited child or a failed question ends the wait with that reply; a child
/// still running ends it as `Running` once `elapsed_nanos` has reached the
/// timeout, and otherwise leads to a sleep of one interval.
pub open spec fn child_step(reply: Option<WaitResult>, elapsed_nanos: u128, timeout_nanos: u64) -> ChildWaitStep {
    match reply {
        None => ChildWaitStep::Poll,
        Some(WaitResult::Running) => if elapsed_nanos >= timeout_nanos {
            ChildWaitStep::Done(WaitResult::Running)
        } else {
            ChildWaitStep::Sleep { nanos: POLL_INTERVAL_NANOS }
        },
        Some(done) => ChildWaitStep::Done(done),
    }
}

/// The step that follows a probe of the group: with no reply yet, probe; an
/// empty group ends the wait as `Gone`, an unreadable reply as `Unknown`; a
/// live group ends it as `Lingering` once `elapsed_nanos` has reached the
/// timeout, and otherwise leads to a sleep of one interval.
pub open spec fn group_step(reply: Option<SignalReply>, elapsed_nanos: u128, timeout_nanos: u64) -> GroupWaitStep {
    match reply {
        None => GroupWaitStep::Probe,
        Some(r) => match liveness(r) {
            Some(false) => GroupWaitStep::Done(GroupCheck::Gone),
            None => GroupWaitStep::Done(GroupCheck::Unknown),
            Some(true) => if elapsed_nanos >= timeout_nanos {
                GroupWaitStep::Done(GroupCheck::Lingering)
            } else {
                GroupWaitStep::Sleep { nanos: POLL_INTERVAL_NANOS }
            },
        },
    }
}

/// Decides the next step of the wait for the child to exit, given the reply to
/// the last question (none before the first) and the time since the wait began.
pub fn child_wait_step(reply: Option<WaitResult>, elapsed_nanos: u128, timeout_nanos: u64) -> (step: ChildWaitStep)
    ensures
        step == child_step(reply, elapsed_nanos, timeout_nanos),
{
    match reply {
        None => ChildWaitStep::Poll,
        Some(WaitResult::Running) => if elapsed_nanos >= timeout_nanos as u128 {
            ChildWaitStep::Done(WaitResult::Running)
        } else {
            ChildWaitStep::Sleep { nanos: POLL_INTERVAL_NANOS }
        },
        Some(done) => ChildWaitStep::Done(done),
    }
}

/// Decides the next step of the wait for the owned group to be gone, given the
/// reply to the last probe (none before the first) and the time since the wait
/// began.
pub fn group_wait_step(reply: Option<SignalReply>, elapsed_nanos: u128, timeout_nanos: u64) -> (step: GroupWaitStep)
    ensures
        reply is None ==> step == GroupWaitStep::Probe,
        reply matches Some(r) ==> step == (match liveness(r) {
            Some(false) => GroupWaitStep::Done(GroupCheck::Gone),
            None => GroupWaitStep::Done(GroupCheck::Unknown),
            Some(true) => if elapsed_nanos >= timeout_nanos {
                GroupWaitStep::Done(GroupCheck::Lingering)
            } else {
                GroupWaitStep::Sleep { nanos: POLL_INTERVAL_NANOS }
            },
        }),
        step == group_step(reply, elapsed_nanos, timeout_nanos),
{
    match reply {
        None => GroupWaitStep::Probe,
        Some(r) => match probe_liveness(r) {
            Some(false) => GroupWaitStep::Done(GroupCheck::Gone),
            None => GroupWaitStep::Done(GroupCheck::Unknown),
            Some(true) => if elapsed_nanos >= timeout_nanos as u128 {
                GroupWaitStep::Done(GroupCheck::Lingering)
            } else {
                GroupWaitStep::Sleep { nanos: POLL_INTERVAL_NANOS }
            },
        },
    }
}

/// Polling waits are bounded: each ends as soon as an answer settles it, a
/// wait sleeps only while its timeout has not been reached, a sleep is always
/// one interval, and the answers `Running` and `Lingering` come only once the
/// timeout has been reached.
pub proof fn polling_waits_are_bounded(
    child: Option<WaitResult>,
    group: Option<SignalReply>,
    elapsed_nanos: u128,
    timeout_nanos: u64,
)
    ensures
        match child_step(child, elapsed_nanos, timeout_nanos) {
            ChildWaitStep::Sleep { nanos } => nanos == POLL_INTERVAL_NANOS && elapsed_nanos
                < timeout_nanos,
            ChildWaitStep::Done(WaitResult::Running) => elapsed_nanos >= timeout_nanos,
            ChildWaitStep::Done(_) => child is Some,
            ChildWaitStep::Poll => child is None,
        },
        match group_step(group, elapsed_nanos, timeout_nanos) {
            GroupWaitStep::Sleep { nanos } => nanos == POLL_INTERVAL_NANOS && elapsed_nanos
                < timeout_nanos,
            GroupWaitStep::Done(GroupCheck::Lingering) => elapsed_nanos >= timeout_nanos,
            GroupWaitStep::Done(_) => group is Some,
            GroupWaitStep::Probe => group is None,
        },
{
}

/// A settled reply ends the wait carrying that very reply: an exit ends it with
/// the same exit status, a failure with the same message, whatever the time;
/// only a child still running is turned into a sleep or, at the deadline, into
/// `Running`.
pub proof fn settled_replies_end_the_wait_unchanged(reply: WaitResult, elapsed_nanos: u128, timeout_nanos: u64)
    ensures
        reply matches WaitResult::Exited(code) ==> child_step(Some(reply), elapsed_nanos, timeout_nanos)
            == ChildWaitStep::Done(WaitResult::Exited(code)),
        reply matches WaitResult::Failed(message) ==> child_step(
            Some(reply),
            elapsed_nanos,
            timeout_nanos,
        ) == ChildWaitStep::Done(WaitResult::Failed(message)),
        child_step(Some(reply), elapsed_nanos, timeout_nanos) matches ChildWaitStep::Done(result)
            ==> (result == reply || (reply == WaitResult::Running && result == WaitResult::Running)),
{
}

} // verus!

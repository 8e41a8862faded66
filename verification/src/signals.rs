//! Reading the operating system's replies to signals sent to the owned group.

use vstd::prelude::*;

verus! {

/// What the operating system replied to a signal sent to every process of the
/// owned group.
#[derive(Clone, Copy, Debug, PartialEq, Eq, Structural)]
pub enum SignalReply {
    /// The signal could be sent to at least one process of the group.
    Delivered,
    /// No process of the group exists any more.
    NoSuchProcess,
    /// A process of the group exists but may not be signalled.
    NotPermitted,
    /// Any other failure.
    Failed,
}

/// Whether the group is alive, from the reply to the existence probe (a null
/// signal): a process that exists, signalled or not, keeps it alive; `None`
/// when the reply tells nothing.
pub open spec fn liveness(reply: SignalReply) -> Option<bool> {
    match reply {
        SignalReply::Delivered | SignalReply::NotPermitted => Some(true),
        SignalReply::NoSuchProcess => Some(false),
        SignalReply::Failed => None,
    }
}

/// Whether the group is alive, from the reply to the existence probe.
pub fn probe_liveness(reply: SignalReply) -> (alive: Option<bool>)
    ensures
        alive == liveness(reply),
{
    match reply {
        SignalReply::Delivered => Some(true),
        SignalReply::NotPermitted => Some(true),
        SignalReply::NoSuchProcess => Some(false),
        SignalReply::Failed => None,
    }
}

/// A kill signal for the group counts as accepted when it was delivered, or
/// when nothing of the group was left to kill.
pub open spec fn kill_is_accepted(reply: SignalReply) -> bool {
    reply == SignalReply::Delivered || reply == SignalReply::NoSuchProcess
}

/// Whether a kill signal for the group counts as accepted.
pub fn kill_accepted(reply: SignalReply) -> (accepted: bool)
    ensures
        accepted == kill_is_accepted(reply),
{
    match reply {
        SignalReply::Delivered => true,
        SignalReply::NoSuchProcess => true,
        _ => false,
    }
}

/// The reply that a query of a job's process accounting stands for: a failed
/// query tells nothing, active processes mean the group is alive, and none
/// means nothing of it is left.
pub fn job_reply(query_succeeded: bool, active_processes: u32) -> (reply: SignalReply)
    ensures
        reply == (if !query_succeeded {
            SignalReply::Failed
        } else if active_processes > 0 {
            SignalReply::Delivered
        } else {
            SignalReply::NoSuchProcess
        }),
{
    if !query_succeeded {
        SignalReply::Failed
    } else if active_processes > 0 {
        SignalReply::Delivered
    } else {
        SignalReply::NoSuchProcess
    }
}

/// Killing a group that is already empty never counts as a failure: a reply
/// that says nothing of the group is left is an accepted kill. So once a kill
/// has emptied the group, killing it again is accepted too, as long as the
/// operating system answers the second kill that nothing is left.
pub proof fn killing_an_empty_group_is_accepted(first: SignalReply, second: SignalReply)
    ensures
        liveness(second) == Some(false) ==> kill_is_accepted(second),
        kill_is_accepted(first) && second == SignalReply::NoSuchProcess ==> kill_is_accepted(
            second,
        ),
{
}

} // verus!

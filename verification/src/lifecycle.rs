//! The decisions of one guarded run, as a state machine.
//!
//! The run alternates outside work (launching the command, writing and reading
//! its pipes, waiting with a deadline, signalling its process group) with
//! decisions. [`run`] makes the decisions: from the options and what has been
//! observed so far it names the next piece of work, or the end of the run.
//! The caller performs that work and hands back what it observed with
//! [`GuardState::record`], until [`run`] answers [`Action::Finish`] or
//! [`Action::Fail`].

use vstd::prelude::*;
use crate::handshake::{frame_status, judge_frame};
use crate::options::{options_are_valid, options_valid, wait_nanos, GuardOptions};
use crate::report::{Cleanup, GuardError, Handshake, Outcome, Verdict};

verus! {

/// The next piece of work that the run asks for, or its end.
#[derive(Debug)]
pub enum Action {
    /// Launch the command, without a shell, as the root of a new owned process
    /// group, with piped input and output.
    Spawn,
    /// Write the `initialize` request line to the child's input.
    SendRequest,
    /// Read one newline-terminated frame of at most `limit` bytes from the
    /// child's output, waiting at most `timeout_nanos`.
    ReadFrame { limit: usize, timeout_nanos: u64 },
    /// Write the `notifications/initialized` line to the child's input.
    SendNotification,
    /// Close the child's input.
    CloseInput,
    /// Wait at most `timeout_nanos` for the child to exit: the grace period.
    AwaitExit { timeout_nanos: u64 },
    /// Ask whether any process of the owned group is still alive.
    ProbeGroup,
    /// Ask the operating system to kill every process of the owned group.
    TerminateGroup,
    /// Wait at most `timeout_nanos` to reap the child after termination.
    ReapChild { timeout_nanos: u64 },
    /// Wait at most `timeout_nanos` for the owned group to be gone, and tell
    /// whether it went, stayed observable, or could not be queried.
    ConfirmCleanup { timeout_nanos: u64 },
    /// Wait at most `timeout_nanos` for the owned group to be gone, whatever comes of it.
    AwaitGroupGone { timeout_nanos: u64 },
    /// The run is over and produced this verdict.
    Finish(Verdict),
    /// The run is over and failed.
    Fail(GuardError),
}

/// What the caller observed while performing an [`Action`].
#[derive(Debug)]
pub enum Event {
    /// The command was launched in its owned group.
    Spawned,
    /// The command could not be started; the operating system's message.
    SpawnFailed(String),
    /// The owned process boundary could not be established; the message.
    OwnershipFailed(String),
    /// A line was written and flushed to the child's input.
    Written,
    /// The line could not be written, or the pipe was not there.
    WriteFailed,
    /// A frame was read: the bytes up to and including the first newline, or
    /// up to the limit, or up to the end of the output.
    Frame(Vec<u8>),
    /// No frame arrived in time, or reading failed.
    NoFrame,
    /// The work was done; nothing more to report.
    Done,
    /// The child has exited, with this exit code where it has one.
    Exited(Option<i32>),
    /// The child was still running at the deadline.
    StillRunning,
    /// Waiting for the child failed; the operating system's message.
    WaitFailed(String),
    /// Whether processes of the owned group are still alive.
    GroupAlive(bool),
    /// Whether the group is alive could not be told.
    ProbeFailed,
    /// Whether the termination request was accepted.
    Terminated(bool),
    /// The owned group was gone within the deadline.
    GroupGone,
    /// The owned group was still observable at the deadline.
    GroupLingering,
    /// Whether the owned group is gone could not be told.
    GroupQueryFailed,
}

/// What the wait for the owned group to be gone found.
#[derive(Clone, Copy, Debug, PartialEq, Eq, Structural)]
pub enum GroupCheck {
    /// The group was gone within the deadline.
    Gone,
    /// The group was still observable at the deadline.
    Lingering,
    /// The group could not be queried.
    Unknown,
}

/// The outcome of a bounded wait for the child.
#[derive(Debug)]
pub enum WaitResult {
    /// The child exited, with this exit code where it has one.
    Exited(Option<i32>),
    /// The deadline passed first.
    Running,
    /// Waiting failed, with the operating system's message.
    Failed(String),
}

/// What has been observed so far in one run. Each field is the answer to one
/// question the run may ask, `None` (or `false`) while it has not been asked.
#[derive(Debug)]
pub struct GuardState {
    /// The launch: `Ok` once the command runs in its owned group.
    pub spawn: Option<Result<(), GuardError>>,
    /// Whether the `initialize` request was written.
    pub request_sent: Option<bool>,
    /// The response frame, `None` inside when none arrived.
    pub frame: Option<Option<Vec<u8>>>,
    /// Whether the `initialized` notification was written.
    pub notification_sent: Option<bool>,
    /// Whether the child's input was closed.
    pub input_closed: bool,
    /// The wait for the child within the grace period.
    pub grace_wait: Option<WaitResult>,
    /// The probe of the owned group, `None` inside when it failed.
    pub probe: Option<Option<bool>>,
    /// Whether the termination request was accepted.
    pub terminated: Option<bool>,
    /// The wait for the child after termination.
    pub reap: Option<WaitResult>,
    /// What the wait for the owned group to be gone found.
    pub confirmed: Option<GroupCheck>,
    /// Whether the run waited for the group to be gone after a failed wait.
    pub group_gone_awaited: bool,
}

/// Where the `initialize` exchange stands.
#[derive(Debug)]
pub enum HandshakeProgress {
    /// It still needs this piece of work.
    Pending(Action),
    /// It is decided.
    Decided(Handshake),
}

/// The state of a run before anything is observed.
pub open spec fn initial_state() -> GuardState {
    GuardState {
        spawn: None,
        request_sent: None,
        frame: None,
        notification_sent: None,
        input_closed: false,
        grace_wait: None,
        probe: None,
        terminated: None,
        reap: None,
        confirmed: None,
        group_gone_awaited: false,
    }
}

/// The frame limit that reading asks for: one byte over the accepted size, so
/// that an oversized frame shows itself.
pub open spec fn read_limit(options: &GuardOptions) -> usize {
    (options.max_handshake_bytes + 1) as usize
}

/// Where the `initialize` exchange stands given what was observed: skipped
/// when the options say so; failed when a write fails, no frame arrives, or
/// the frame is judged failed; succeeded once the notification follows an
/// accepted frame.
pub open spec fn handshake_progress(options: &GuardOptions, s: &GuardState) -> HandshakeProgress {
    if !options.handshake {
        HandshakeProgress::Decided(Handshake::Skipped)
    } else {
        match s.request_sent {
            None => HandshakeProgress::Pending(Action::SendRequest),
            Some(false) => HandshakeProgress::Decided(Handshake::Failed),
            Some(true) => match s.frame {
                None => HandshakeProgress::Pending(
                    Action::ReadFrame {
                        limit: read_limit(options),
                        timeout_nanos: options.handshake_timeout.nanos as u64,
                    },
                ),
                Some(None) => HandshakeProgress::Decided(Handshake::Failed),
                Some(Some(bytes)) => if frame_status(bytes@, options.max_handshake_bytes as nat)
                    == Handshake::Succeeded {
                    match s.notification_sent {
                        None => HandshakeProgress::Pending(Action::SendNotification),
                        Some(true) => HandshakeProgress::Decided(Handshake::Succeeded),
                        Some(false) => HandshakeProgress::Decided(Handshake::Failed),
                    }
                } else {
                    HandshakeProgress::Decided(Handshake::Failed)
                },
            },
        }
    }
}

/// Whether a probe answer counts the group as alive: a failed probe does.
pub open spec fn probe_says_alive(probe: Option<bool>) -> bool {
    match probe {
        Some(alive) => alive,
        None => true,
    }
}

/// The exit code known from a wait after termination, if the child was reaped.
pub open spec fn reaped_code(reap: WaitResult) -> Option<Option<i32>> {
    match reap {
        WaitResult::Exited(code) => Some(code),
        _ => None,
    }
}

/// The end of a run that cleans up its group: it asks to terminate the group,
/// to reap the child, and, when termination was accepted and an exit status is
/// known, to wait for the group to be gone. Cleanup succeeds when the group is
/// then gone, and the intended outcome stands. It is unverified when the group
/// stays observable until the deadline, and failed in every other case; both
/// make the outcome `CleanupFailed`. The exit code is the one known before
/// cleanup, else the one reaping found.
pub open spec fn cleanup_action(
    options: &GuardOptions,
    s: &GuardState,
    handshake: Handshake,
    intended: Outcome,
    descendants_detected: bool,
    known_exit_code: Option<i32>,
) -> Action {
    match s.terminated {
        None => Action::TerminateGroup,
        Some(terminated) => match s.reap {
            None => Action::ReapChild { timeout_nanos: options.cleanup_timeout.nanos as u64 },
            Some(reap) => {
                let waited = reaped_code(reap);
                let exit_code = match known_exit_code {
                    Some(c) => Some(c),
                    None => match waited {
                        Some(c) => c,
                        None => None,
                    },
                };
                if terminated && (known_exit_code is Some || waited is Some) && s.confirmed is None {
                    Action::ConfirmCleanup { timeout_nanos: options.cleanup_timeout.nanos as u64 }
                } else {
                    let reaped = terminated && (known_exit_code is Some || waited is Some);
                    let cleanup = if reaped && s.confirmed == Some(GroupCheck::Gone) {
                        Cleanup::Succeeded
                    } else if reaped && s.confirmed == Some(GroupCheck::Lingering) {
                        Cleanup::Unverified
                    } else {
                        Cleanup::Failed
                    };
                    Action::Finish(
                        Verdict {
                            outcome: if cleanup == Cleanup::Succeeded {
                                intended
                            } else {
                                Outcome::CleanupFailed
                            },
                            handshake,
                            exit_code,
                            descendants_detected,
                            cleanup,
                        },
                    )
                }
            },
        },
    }
}

/// The end of a run whose grace wait failed: it still kills the group, reaps
/// the child and waits for the group to be gone, then fails with the message.
pub open spec fn abandon_action(options: &GuardOptions, s: &GuardState, message: String) -> Action {
    if s.terminated is None {
        Action::TerminateGroup
    } else if s.reap is None {
        Action::ReapChild { timeout_nanos: options.cleanup_timeout.nanos as u64 }
    } else if !s.group_gone_awaited {
        Action::AwaitGroupGone { timeout_nanos: options.cleanup_timeout.nanos as u64 }
    } else {
        Action::Fail(GuardError::Wait(message))
    }
}

/// The next step of a run. Invalid options fail before anything is launched.
/// After the launch and the handshake, the child's input is closed and the run
/// waits for the grace period. A failed handshake goes straight to cleanup. A
/// child that exits in time has its group probed: an empty group ends the run
/// as `Exited` with nothing to clean up, a live one leads to cleanup as
/// `DescendantsSurvived`. A child still running leads to cleanup as `TimedOut`.
pub open spec fn next_action(options: &GuardOptions, s: &GuardState) -> Action {
    if !options_valid(options) {
        Action::Fail(GuardError::InvalidOptions)
    } else {
        match s.spawn {
            None => Action::Spawn,
            Some(Err(error)) => Action::Fail(error),
            Some(Ok(())) => match handshake_progress(options, s) {
                HandshakeProgress::Pending(action) => action,
                HandshakeProgress::Decided(handshake) => if !s.input_closed {
                    Action::CloseInput
                } else if handshake == Handshake::Failed {
                    cleanup_action(options, s, handshake, Outcome::HandshakeFailed, false, None)
                } else {
                    match s.grace_wait {
                        None => Action::AwaitExit { timeout_nanos: options.grace.nanos as u64 },
                        Some(WaitResult::Exited(code)) => match s.probe {
                            None => Action::ProbeGroup,
                            Some(probe) => if probe_says_alive(probe) {
                                cleanup_action(
                                    options,
                                    s,
                                    handshake,
                                    Outcome::DescendantsSurvived,
                                    true,
                                    code,
                                )
                            } else {
                                Action::Finish(
                                    Verdict {
                                        outcome: Outcome::Exited,
                                        handshake,
                                        exit_code: code,
                                        descendants_detected: false,
                                        cleanup: Cleanup::NotNeeded,
                                    },
                                )
                            },
                        },
                        Some(WaitResult::Running) => cleanup_action(
                            options,
                            s,
                            handshake,
                            Outcome::TimedOut,
                            false,
                            None,
                        ),
                        Some(WaitResult::Failed(message)) => abandon_action(options, s, message),
                    }
                },
            },
        }
    }
}

/// What a state becomes when `event` answers `action`. An event that does not
/// answer the action leaves the state as it was.
pub open spec fn recorded(s: GuardState, action: Action, event: Event) -> GuardState {
    match action {
        Action::Spawn => match event {
            Event::Spawned => GuardState { spawn: Some(Ok(())), ..s },
            Event::SpawnFailed(m) => GuardState { spawn: Some(Err(GuardError::Spawn(m))), ..s },
            Event::OwnershipFailed(m) => GuardState {
                spawn: Some(Err(GuardError::Ownership(m))),
                ..s
            },
            _ => s,
        },
        Action::SendRequest => match event {
            Event::Written => GuardState { request_sent: Some(true), ..s },
            Event::WriteFailed => GuardState { request_sent: Some(false), ..s },
            _ => s,
        },
        Action::ReadFrame { .. } => match event {
            Event::Frame(bytes) => GuardState { frame: Some(Some(bytes)), ..s },
            Event::NoFrame => GuardState { frame: Some(None), ..s },
            _ => s,
        },
        Action::SendNotification => match event {
            Event::Written => GuardState { notification_sent: Some(true), ..s },
            Event::WriteFailed => GuardState { notification_sent: Some(false), ..s },
            _ => s,
        },
        Action::CloseInput => match event {
            Event::Done => GuardState { input_closed: true, ..s },
            _ => s,
        },
        Action::AwaitExit { .. } => match event {
            Event::Exited(code) => GuardState { grace_wait: Some(WaitResult::Exited(code)), ..s },
            Event::StillRunning => GuardState { grace_wait: Some(WaitResult::Running), ..s },
            Event::WaitFailed(m) => GuardState { grace_wait: Some(WaitResult::Failed(m)), ..s },
            _ => s,
        },
        Action::ProbeGroup => match event {
            Event::GroupAlive(alive) => GuardState { probe: Some(Some(alive)), ..s },
            Event::ProbeFailed => GuardState { probe: Some(None), ..s },
            _ => s,
        },
        Action::TerminateGroup => match event {
            Event::Terminated(accepted) => GuardState { terminated: Some(accepted), ..s },
            _ => s,
        },
        Action::ReapChild { .. } => match event {
            Event::Exited(code) => GuardState { reap: Some(WaitResult::Exited(code)), ..s },
            Event::StillRunning => GuardState { reap: Some(WaitResult::Running), ..s },
            Event::WaitFailed(m) => GuardState { reap: Some(WaitResult::Failed(m)), ..s },
            _ => s,
        },
        Action::ConfirmCleanup { .. } => match event {
            Event::GroupGone => GuardState { confirmed: Some(GroupCheck::Gone), ..s },
            Event::GroupLingering => GuardState { confirmed: Some(GroupCheck::Lingering), ..s },
            Event::GroupQueryFailed => GuardState { confirmed: Some(GroupCheck::Unknown), ..s },
            _ => s,
        },
        Action::AwaitGroupGone { .. } => match event {
            Event::Done => GuardState { group_gone_awaited: true, ..s },
            _ => s,
        },
        _ => s,
    }
}

/// A copy of an error.
fn copy_error(error: &GuardError) -> (copy: GuardError)
    ensures
        copy == *error,
{
    match error {
        GuardError::InvalidOptions => GuardError::InvalidOptions,
        GuardError::Spawn(m) => GuardError::Spawn(m.clone()),
        GuardError::Ownership(m) => GuardError::Ownership(m.clone()),
        GuardError::Wait(m) => GuardError::Wait(m.clone()),
    }
}

/// Where the `initialize` exchange stands.
fn progress_of_handshake(options: &GuardOptions, s: &GuardState) -> (progress: HandshakeProgress)
    requires
        options_valid(options),
    ensures
        progress == handshake_progress(options, s),
{
    if !options.handshake {
        return HandshakeProgress::Decided(Handshake::Skipped);
    }
    match s.request_sent {
        None => HandshakeProgress::Pending(Action::SendRequest),
        Some(false) => HandshakeProgress::Decided(Handshake::Failed),
        Some(true) => match &s.frame {
            None => HandshakeProgress::Pending(
                Action::ReadFrame {
                    limit: options.max_handshake_bytes + 1,
                    timeout_nanos: wait_nanos(options.handshake_timeout),
                },
            ),
            Some(None) => HandshakeProgress::Decided(Handshake::Failed),
            Some(Some(bytes)) => {
                let status = judge_frame(bytes.as_slice(), options.max_handshake_bytes);
                match status {
                    Handshake::Succeeded => match s.notification_sent {
                        None => HandshakeProgress::Pending(Action::SendNotification),
                        Some(true) => HandshakeProgress::Decided(Handshake::Succeeded),
                        Some(false) => HandshakeProgress::Decided(Handshake::Failed),
                    },
                    _ => HandshakeProgress::Decided(Handshake::Failed),
                }
            },
        },
    }
}

/// The end of a run that cleans up its group.
fn cleanup_step(
    options: &GuardOptions,
    s: &GuardState,
    handshake: Handshake,
    intended: Outcome,
    descendants_detected: bool,
    known_exit_code: Option<i32>,
) -> (action: Action)
    requires
        options_valid(options),
    ensures
        action == cleanup_action(options, s, handshake, intended, descendants_detected, known_exit_code),
{
    let terminated = match s.terminated {
        None => return Action::TerminateGroup,
        Some(t) => t,
    };
    let waited: Option<Option<i32>> = match &s.reap {
        None => return Action::ReapChild { timeout_nanos: wait_nanos(options.cleanup_timeout) },
        Some(WaitResult::Exited(code)) => Some(*code),
        Some(_) => None,
    };
    let exit_code = match known_exit_code {
        Some(c) => Some(c),
        None => match waited {
            Some(c) => c,
            None => None,
        },
    };
    let status_known = known_exit_code.is_some() || waited.is_some();
    if terminated && status_known && s.confirmed.is_none() {
        return Action::ConfirmCleanup { timeout_nanos: wait_nanos(options.cleanup_timeout) };
    }
    let reaped = terminated && status_known;
    let cleanup = match s.confirmed {
        Some(GroupCheck::Gone) if reaped => Cleanup::Succeeded,
        Some(GroupCheck::Lingering) if reaped => Cleanup::Unverified,
        _ => Cleanup::Failed,
    };
    let outcome = match cleanup {
        Cleanup::Succeeded => intended,
        _ => Outcome::CleanupFailed,
    };
    Action::Finish(Verdict { outcome, handshake, exit_code, descendants_detected, cleanup })
}

/// The end of a run whose grace wait failed.
fn abandon_step(options: &GuardOptions, s: &GuardState, message: &String) -> (action: Action)
    requires
        options_valid(options),
    ensures
        action == abandon_action(options, s, *message),
{
    if s.terminated.is_none() {
        Action::TerminateGroup
    } else if s.reap.is_none() {
        Action::ReapChild { timeout_nanos: wait_nanos(options.cleanup_timeout) }
    } else if !s.group_gone_awaited {
        Action::AwaitGroupGone { timeout_nanos: wait_nanos(options.cleanup_timeout) }
    } else {
        Action::Fail(GuardError::Wait(message.clone()))
    }
}

/// Decides the next step of a run from its options and what has been observed
/// so far (see [`next_action`]). A run starts from [`GuardState::new`]; the
/// caller performs each piece of work asked for and records what it observed,
/// until the answer is [`Action::Finish`] or [`Action::Fail`].
pub fn run(options: &GuardOptions, state: &GuardState) -> (action: Action)
    ensures
        action == next_action(options, state),
{
    if !options_are_valid(options) {
        return Action::Fail(GuardError::InvalidOptions);
    }
    match &state.spawn {
        None => Action::Spawn,
        Some(Err(error)) => Action::Fail(copy_error(error)),
        Some(Ok(())) => match progress_of_handshake(options, state) {
            HandshakeProgress::Pending(action) => action,
            HandshakeProgress::Decided(handshake) => {
                if !state.input_closed {
                    Action::CloseInput
                } else if let Handshake::Failed = handshake {
                    cleanup_step(options, state, handshake, Outcome::HandshakeFailed, false, None)
                } else {
                    match &state.grace_wait {
                        None => Action::AwaitExit { timeout_nanos: wait_nanos(options.grace) },
                        Some(WaitResult::Exited(code)) => match state.probe {
                            None => Action::ProbeGroup,
                            Some(probe) => {
                                let alive = match probe {
                                    Some(a) => a,
                                    None => true,
                                };
                                if alive {
                                    cleanup_step(
                                        options,
                                        state,
                                        handshake,
                                        Outcome::DescendantsSurvived,
                                        true,
                                        *code,
                                    )
                                } else {
                                    Action::Finish(
                                        Verdict {
                                            outcome: Outcome::Exited,
                                            handshake,
                                            exit_code: *code,
                                            descendants_detected: false,
                                            cleanup: Cleanup::NotNeeded,
                                        },
                                    )
                                }
                            },
                        },
                        Some(WaitResult::Running) => cleanup_step(
                            options,
                            state,
                            handshake,
                            Outcome::TimedOut,
                            false,
                            None,
                        ),
                        Some(WaitResult::Failed(message)) => abandon_step(options, state, message),
                    }
                }
            },
        },
    }
}

impl GuardState {
    /// The state of a run before anything is observed.
    pub fn new() -> (s: GuardState)
        ensures
            s == initial_state(),
    {
        GuardState {
            spawn: None,
            request_sent: None,
            frame: None,
            notification_sent: None,
            input_closed: false,
            grace_wait: None,
            probe: None,
            terminated: None,
            reap: None,
            confirmed: None,
            group_gone_awaited: false,
        }
    }

    /// Records what the caller observed while performing `action`. An event
    /// that does not answer the action changes nothing.
    pub fn record(&mut self, action: &Action, event: Event)
        ensures
            *final(self) == recorded(*old(self), *action, event),
    {
        match action {
            Action::Spawn => match event {
                Event::Spawned => self.spawn = Some(Ok(())),
                Event::SpawnFailed(m) => self.spawn = Some(Err(GuardError::Spawn(m))),
                Event::OwnershipFailed(m) => self.spawn = Some(Err(GuardError::Ownership(m))),
                _ => {},
            },
            Action::SendRequest => match event {
                Event::Written => self.request_sent = Some(true),
                Event::WriteFailed => self.request_sent = Some(false),
                _ => {},
            },
            Action::ReadFrame { .. } => match event {
                Event::Frame(bytes) => self.frame = Some(Some(bytes)),
                Event::NoFrame => self.frame = Some(None),
                _ => {},
            },
            Action::SendNotification => match event {
                Event::Written => self.notification_sent = Some(true),
                Event::WriteFailed => self.notification_sent = Some(false),
                _ => {},
            },
            Action::CloseInput => match event {
                Event::Done => self.input_closed = true,
                _ => {},
            },
            Action::AwaitExit { .. } => match event {
                Event::Exited(code) => self.grace_wait = Some(WaitResult::Exited(code)),
                Event::StillRunning => self.grace_wait = Some(WaitResult::Running),
                Event::WaitFailed(m) => self.grace_wait = Some(WaitResult::Failed(m)),
                _ => {},
            },
            Action::ProbeGroup => match event {
                Event::GroupAlive(alive) => self.probe = Some(Some(alive)),
                Event::ProbeFailed => self.probe = Some(None),
                _ => {},
            },
            Action::TerminateGroup => match event {
                Event::Terminated(accepted) => self.terminated = Some(accepted),
                _ => {},
            },
            Action::ReapChild { .. } => match event {
                Event::Exited(code) => self.reap = Some(WaitResult::Exited(code)),
                Event::StillRunning => self.reap = Some(WaitResult::Running),
                Event::WaitFailed(m) => self.reap = Some(WaitResult::Failed(m)),
                _ => {},
            },
            Action::ConfirmCleanup { .. } => match event {
                Event::GroupGone => self.confirmed = Some(GroupCheck::Gone),
                Event::GroupLingering => self.confirmed = Some(GroupCheck::Lingering),
                Event::GroupQueryFailed => self.confirmed = Some(GroupCheck::Unknown),
                _ => {},
            },
            Action::AwaitGroupGone { .. } => match event {
                Event::Done => self.group_gone_awaited = true,
                _ => {},
            },
            _ => {},
        }
    }
}

} // verus!

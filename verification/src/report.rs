//! The outcome of one guarded run: the report, the errors, and how each is shown.

use vstd::prelude::*;
use vstd::string::*;
use crate::text::{decimal, decimal_text, signed_decimal, signed_decimal_text};
use crate::cli::{decimal_is_ascii_digits, decimal_reads_back, parsed_u64};
use vstd::utf8::encode_utf8;

verus! {

/// How the run ended.
#[derive(Clone, Copy, Debug, PartialEq, Eq, Structural)]
pub enum Outcome {
    /// The server exited within the grace period and left nothing behind.
    Exited,
    /// The server did not exit within the grace period.
    TimedOut,
    /// The `initialize` exchange did not succeed.
    HandshakeFailed,
    /// The server exited but processes of its owned group outlived it.
    DescendantsSurvived,
    /// Cleanup of the owned group could not be shown within its deadline.
    CleanupFailed,
}

/// What became of the `initialize` exchange.
#[derive(Clone, Copy, Debug, PartialEq, Eq, Structural)]
pub enum Handshake {
    Succeeded,
    Failed,
    Skipped,
}

/// What became of the owned process group.
#[derive(Clone, Copy, Debug, PartialEq, Eq, Structural)]
pub enum Cleanup {
    /// Nothing was left to clean up.
    NotNeeded,
    /// Termination was accepted, the child was reaped and the owned group was
    /// gone within the cleanup deadline.
    Succeeded,
    /// Termination was accepted and the child was reaped, but the owned group
    /// remained observable until the cleanup deadline.
    Unverified,
    /// Termination was not accepted, the child was not reaped, or the group
    /// could not be queried.
    Failed,
}

/// Everything the run decides about its outcome; the report adds the elapsed time.
#[derive(Clone, Copy, Debug, PartialEq, Eq, Structural)]
pub struct Verdict {
    pub outcome: Outcome,
    pub handshake: Handshake,
    pub exit_code: Option<i32>,
    pub descendants_detected: bool,
    pub cleanup: Cleanup,
}

/// The report of one run. It holds no command, argument, environment or payload.
#[derive(Clone, Copy, Debug, PartialEq, Eq, Structural)]
pub struct GuardReport {
    pub outcome: Outcome,
    pub handshake: Handshake,
    pub elapsed_ms: u128,
    pub exit_code: Option<i32>,
    pub descendants_detected: bool,
    pub cleanup: Cleanup,
}

/// Why a run could not produce a report. The texts are those of the
/// operating-system errors that stopped it.
#[derive(Debug)]
pub enum GuardError {
    /// The options break one of their bounds.
    InvalidOptions,
    /// The child process could not be started.
    Spawn(String),
    /// The owned process boundary could not be established.
    Ownership(String),
    /// Waiting for the child process failed.
    Wait(String),
}

impl Verdict {
    /// The report of this verdict, reached after `elapsed_ms` milliseconds.
    pub fn into_report(self, elapsed_ms: u128) -> (report: GuardReport)
        ensures
            report.outcome == self.outcome,
            report.handshake == self.handshake,
            report.elapsed_ms == elapsed_ms,
            report.exit_code == self.exit_code,
            report.descendants_detected == self.descendants_detected,
            report.cleanup == self.cleanup,
    {
        GuardReport {
            outcome: self.outcome,
            handshake: self.handshake,
            elapsed_ms,
            exit_code: self.exit_code,
            descendants_detected: self.descendants_detected,
            cleanup: self.cleanup,
        }
    }
}

/// The process exit status that a report stands for: 0 for a clean zero exit,
/// 1 for a child failure, 3 for a grace timeout, 4 for an initialization
/// failure, 6 when owned descendants survived, 7 when cleanup was not shown.
pub open spec fn report_status(report: GuardReport) -> u8 {
    match report.outcome {
        Outcome::Exited => if report.exit_code == Some(0i32) { 0 } else { 1 },
        Outcome::TimedOut => 3,
        Outcome::HandshakeFailed => 4,
        Outcome::DescendantsSurvived => 6,
        Outcome::CleanupFailed => 7,
    }
}

/// The exit status for a run that could not produce a report.
pub const FAILURE_STATUS: u8 = 5;

/// The process exit status of a run's result: that of its report, or 5 for
/// a run that failed to launch, to own its group, or to wait.
pub fn exit_status(result: &Result<GuardReport, GuardError>) -> (status: u8)
    ensures
        status == (match result {
            Ok(report) => report_status(*report),
            Err(_) => FAILURE_STATUS,
        }),
{
    match result {
        Ok(report) => match report.outcome {
            Outcome::Exited => match report.exit_code {
                Some(code) => if code == 0 { 0 } else { 1 },
                None => 1,
            },
            Outcome::TimedOut => 3,
            Outcome::HandshakeFailed => 4,
            Outcome::DescendantsSurvived => 6,
            Outcome::CleanupFailed => 7,
        },
        Err(_) => FAILURE_STATUS,
    }
}

/// Exit statuses tell the endings apart: a clean zero exit, a child failure,
/// a timeout, a handshake failure, surviving descendants and a failed cleanup
/// each have their own status, and none of them is the status of a run that
/// could not produce a report.
pub proof fn statuses_tell_endings_apart(a: GuardReport, b: GuardReport)
    ensures
        report_status(a) == report_status(b) ==> {
            &&& a.outcome == b.outcome
            &&& a.outcome == Outcome::Exited ==> (a.exit_code == Some(0i32) <==> b.exit_code == Some(
                0i32,
            ))
        },
        report_status(a) != FAILURE_STATUS,
{
}

/// The label under which a failed run is reported.
pub open spec fn error_label(error: GuardError) -> Seq<char> {
    match error {
        GuardError::InvalidOptions => "input_failed"@,
        GuardError::Spawn(_) => "spawn_failed"@,
        GuardError::Ownership(_) => "ownership_failed"@,
        GuardError::Wait(_) => "wait_failed"@,
    }
}

impl GuardError {
    /// The label under which this failure is reported.
    pub fn outcome_label(&self) -> (label: &'static str)
        ensures
            label@ == error_label(*self),
    {
        match self {
            GuardError::InvalidOptions => "input_failed",
            GuardError::Spawn(_) => "spawn_failed",
            GuardError::Ownership(_) => "ownership_failed",
            GuardError::Wait(_) => "wait_failed",
        }
    }

    /// The one-line JSON report of a failed run: its label as the outcome,
    /// and the fixed values of a run that never reached a report.
    pub fn failure_json(&self) -> (line: String)
        ensures
            line@ == "{\"outcome\":\""@ + error_label(*self)
                + "\",\"handshake\":\"skipped\",\"elapsed_ms\":0,\"exit_code\":null,\"descendants_detected\":false,\"cleanup\":\"not_needed\"}"@,
    {
        let line = String::from_str("{\"outcome\":\"").concat(self.outcome_label()).concat(
            "\",\"handshake\":\"skipped\",\"elapsed_ms\":0,\"exit_code\":null,\"descendants_detected\":false,\"cleanup\":\"not_needed\"}",
        );
        line
    }
}

/// The name of an outcome as the human report shows it.
pub open spec fn outcome_name(outcome: Outcome) -> Seq<char> {
    match outcome {
        Outcome::Exited => "Exited"@,
        Outcome::TimedOut => "TimedOut"@,
        Outcome::HandshakeFailed => "HandshakeFailed"@,
        Outcome::DescendantsSurvived => "DescendantsSurvived"@,
        Outcome::CleanupFailed => "CleanupFailed"@,
    }
}

/// The name of a handshake status as the human report shows it.
pub open spec fn handshake_name(handshake: Handshake) -> Seq<char> {
    match handshake {
        Handshake::Succeeded => "Succeeded"@,
        Handshake::Failed => "Failed"@,
        Handshake::Skipped => "Skipped"@,
    }
}

/// The name of a cleanup status as the human report shows it.
pub open spec fn cleanup_name(cleanup: Cleanup) -> Seq<char> {
    match cleanup {
        Cleanup::NotNeeded => "NotNeeded"@,
        Cleanup::Succeeded => "Succeeded"@,
        Cleanup::Unverified => "Unverified"@,
        Cleanup::Failed => "Failed"@,
    }
}

/// How the human report shows an exit code: its numeral, or `none`.
pub open spec fn exit_code_text(code: Option<i32>) -> Seq<char> {
    match code {
        Some(c) => signed_decimal(c as int),
        None => "none"@,
    }
}

/// How the human report shows a flag.
pub open spec fn flag_text(flag: bool) -> Seq<char> {
    if flag { "true"@ } else { "false"@ }
}

/// The one-line human report.
pub open spec fn human_line(report: GuardReport) -> Seq<char> {
    "outcome="@ + outcome_name(report.outcome)
        + " handshake="@ + handshake_name(report.handshake)
        + " elapsed_ms="@ + decimal(report.elapsed_ms as nat)
        + " exit_code="@ + exit_code_text(report.exit_code)
        + " descendants_detected="@ + flag_text(report.descendants_detected)
        + " cleanup="@ + cleanup_name(report.cleanup)
}

fn outcome_text(outcome: Outcome) -> (text: &'static str)
    ensures
        text@ == outcome_name(outcome),
{
    match outcome {
        Outcome::Exited => "Exited",
        Outcome::TimedOut => "TimedOut",
        Outcome::HandshakeFailed => "HandshakeFailed",
        Outcome::DescendantsSurvived => "DescendantsSurvived",
        Outcome::CleanupFailed => "CleanupFailed",
    }
}

fn handshake_text(handshake: Handshake) -> (text: &'static str)
    ensures
        text@ == handshake_name(handshake),
{
    match handshake {
        Handshake::Succeeded => "Succeeded",
        Handshake::Failed => "Failed",
        Handshake::Skipped => "Skipped",
    }
}

fn cleanup_text(cleanup: Cleanup) -> (text: &'static str)
    ensures
        text@ == cleanup_name(cleanup),
{
    match cleanup {
        Cleanup::NotNeeded => "NotNeeded",
        Cleanup::Succeeded => "Succeeded",
        Cleanup::Unverified => "Unverified",
        Cleanup::Failed => "Failed",
    }
}

impl GuardReport {
    /// The one-line human report: each field by name, the exit code as its
    /// numeral or `none`. Nothing of the launched command appears in it.
    pub fn human_summary(&self) -> (line: String)
        ensures
            line@ == human_line(*self),
    {
        let code = match self.exit_code {
            Some(c) => signed_decimal_text(c),
            None => String::from_str("none"),
        };
        let flag = if self.descendants_detected { "true" } else { "false" };
        let elapsed = decimal_text(self.elapsed_ms);
        let line = String::from_str("outcome=").concat(outcome_text(self.outcome)).concat(
            " handshake=",
        ).concat(handshake_text(self.handshake)).concat(" elapsed_ms=").concat(
            elapsed.as_str(),
        ).concat(" exit_code=").concat(code.as_str()).concat(" descendants_detected=").concat(
            flag,
        ).concat(" cleanup=").concat(cleanup_text(self.cleanup));
        line
    }
}

/// The human report shows an exit code as its numeral: a code of zero or more
/// as digits that read back as the code, a negative one as a minus sign before
/// the digits of its magnitude; `none` appears only for a missing code.
pub proof fn exit_codes_show_as_their_numerals(code: i32)
    ensures
        exit_code_text(None) == "none"@,
        code >= 0 ==> parsed_u64(encode_utf8(exit_code_text(Some(code)))) == Some(code as u64),
        code < 0 ==> exit_code_text(Some(code))[0] == '-' && parsed_u64(
            encode_utf8(exit_code_text(Some(code)).drop_first()),
        ) == Some((-code) as u64),
        exit_code_text(Some(code)) != "none"@,
{
    reveal_strlit("none");
    if code >= 0 {
        decimal_reads_back(code as nat);
        decimal_is_ascii_digits(code as nat);
        assert('0' <= decimal(code as nat)[0] <= '9');
        assert("none"@[0] == 'n');
    } else {
        let magnitude = (-code) as nat;
        decimal_reads_back(magnitude);
        let text = exit_code_text(Some(code));
        assert(text.drop_first() =~= decimal(magnitude));
        assert(text[0] == '-');
        assert("none"@[0] == 'n');
    }
}

/// Exit statuses are only the documented ones: 0 for a clean zero exit, 1 for
/// any other exit of the child, 3, 4, 6 and 7 for the other endings.
pub proof fn statuses_are_the_documented_ones(report: GuardReport)
    ensures
        report_status(report) == 0 || report_status(report) == 1 || report_status(report) == 3
            || report_status(report) == 4 || report_status(report) == 6 || report_status(report)
            == 7,
        report.outcome == Outcome::Exited ==> (report_status(report) == 0 || report_status(report)
            == 1),
        report.outcome == Outcome::Exited ==> (report_status(report) == 0 <==> report.exit_code
            == Some(0i32)),
{
}

} // verus!

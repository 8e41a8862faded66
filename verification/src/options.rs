//! The options of one guarded run and the bounds they must respect.

use vstd::prelude::*;

verus! {

/// Nanoseconds in one second.
pub const NANOS_PER_SEC: u128 = 1_000_000_000;

/// The longest grace period or handshake wait that a run accepts: one hour.
pub const MAX_TIMEOUT_NANOS: u128 = 3_600_000_000_000;

/// The longest cleanup wait that a run accepts: one minute.
pub const MAX_CLEANUP_NANOS: u128 = 60_000_000_000;

/// The largest handshake frame limit that a run accepts: one mebibyte.
pub const MAX_HANDSHAKE_BYTES: usize = 1_048_576;

/// A length of time, held exactly as a whole number of nanoseconds.
#[derive(Clone, Copy, Debug, PartialEq, Eq, Structural)]
pub struct TimeSpan {
    pub nanos: u128,
}

impl TimeSpan {
    /// The span of `ms` milliseconds.
    pub fn from_millis(ms: u64) -> (span: TimeSpan)
        ensures
            span.nanos == ms * 1_000_000,
    {
        TimeSpan { nanos: (ms as u128) * 1_000_000 }
    }

    /// The span of `secs` seconds.
    pub fn from_secs(secs: u64) -> (span: TimeSpan)
        ensures
            span.nanos == secs * NANOS_PER_SEC,
    {
        TimeSpan { nanos: (secs as u128) * NANOS_PER_SEC }
    }

    /// Whether the span is zero long.
    pub fn is_zero(&self) -> (zero: bool)
        ensures
            zero == (self.nanos == 0),
    {
        self.nanos == 0
    }
}

/// What to launch and how long each bounded step of the check may take.
#[derive(Clone, Debug)]
pub struct GuardOptions {
    /// The program to launch, without a shell.
    pub command: String,
    /// Its arguments.
    pub args: Vec<String>,
    /// Whether to perform the `initialize` exchange before closing input.
    pub handshake: bool,
    /// How long to wait for the `initialize` response frame.
    pub handshake_timeout: TimeSpan,
    /// How long the server may take to exit once its input is closed.
    pub grace: TimeSpan,
    /// How long each cleanup wait may take.
    pub cleanup_timeout: TimeSpan,
    /// The largest response frame accepted, newline included.
    pub max_handshake_bytes: usize,
}

/// A wait of this length is accepted: not zero and at most `max` nanoseconds.
pub open spec fn span_within(span: TimeSpan, max: u128) -> bool {
    0 < span.nanos <= max
}

/// The bounds that every accepted option set respects.
pub open spec fn options_valid(options: &GuardOptions) -> bool {
    &&& span_within(options.grace, MAX_TIMEOUT_NANOS)
    &&& span_within(options.handshake_timeout, MAX_TIMEOUT_NANOS)
    &&& span_within(options.cleanup_timeout, MAX_CLEANUP_NANOS)
    &&& 0 < options.max_handshake_bytes <= MAX_HANDSHAKE_BYTES
}

/// Whether the options respect every bound: each wait is positive, the grace
/// period and handshake wait are at most an hour, the cleanup wait at most a
/// minute, and the frame limit is positive and at most one mebibyte.
pub fn options_are_valid(options: &GuardOptions) -> (valid: bool)
    ensures
        valid == options_valid(options),
{
    !(options.grace.is_zero() || options.grace.nanos > MAX_TIMEOUT_NANOS
        || options.handshake_timeout.is_zero()
        || options.handshake_timeout.nanos > MAX_TIMEOUT_NANOS
        || options.cleanup_timeout.is_zero()
        || options.cleanup_timeout.nanos > MAX_CLEANUP_NANOS
        || options.max_handshake_bytes == 0
        || options.max_handshake_bytes > MAX_HANDSHAKE_BYTES)
}

/// A span that passed validation, as the nanosecond count that a wait is given.
pub fn wait_nanos(span: TimeSpan) -> (nanos: u64)
    requires
        span.nanos <= MAX_TIMEOUT_NANOS,
    ensures
        nanos == span.nanos,
{
    span.nanos as u64
}

} // verus!

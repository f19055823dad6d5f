//! Timing of a captured request and the browser context it was issued in.
use vstd::prelude::*;

use chrono::{DateTime, FixedOffset};

use crate::json::opt_chars;

verus! {

/// A duration in milliseconds as the capturing host holds it: `bits` is the
/// IEEE-754 bit pattern of the `f64` value, and `nanos` is that value times one
/// million, rounded, clamped at zero and saturated to `u64`.
#[derive(Clone, Copy, Debug, PartialEq, Eq, Structural)]
pub struct Milliseconds {
    pub bits: u64,
    pub nanos: u64,
}

/// When a request started and how long each of its phases took.
#[derive(Debug)]
pub struct RequestTiming {
    pub started_at: Option<String>,
    pub duration_ms: Option<Milliseconds>,
    pub blocked_ms: Option<Milliseconds>,
    pub dns_ms: Option<Milliseconds>,
    pub connect_ms: Option<Milliseconds>,
    pub ssl_ms: Option<Milliseconds>,
    pub send_ms: Option<Milliseconds>,
    pub wait_ms: Option<Milliseconds>,
    pub receive_ms: Option<Milliseconds>,
}

/// The initiator's top stack frame and the depth of its stack.
#[derive(Debug)]
pub struct InitiatorContext {
    pub top_function: Option<String>,
    pub top_url: Option<String>,
    pub top_line: Option<i64>,
    pub top_column: Option<i64>,
    pub stack_depth: Option<usize>,
}

/// What the browser reports of a request beyond HTTP.
#[derive(Debug)]
pub struct BrowserContext {
    pub resource_type: Option<String>,
    pub priority: Option<String>,
    pub connection_id: Option<String>,
    pub initiator: Option<InitiatorContext>,
}

impl BrowserContext {
    /// A context that knows nothing.
    pub fn empty() -> (b: Self)
        ensures
            b.resource_type is None,
            b.priority is None,
            b.connection_id is None,
            b.initiator is None,
    {
        BrowserContext { resource_type: None, priority: None, connection_id: None, initiator: None }
    }
}

/// Unix nanoseconds of an RFC 3339 timestamp, as `chrono` reads it
/// (`DateTime::<FixedOffset>::parse_from_rfc3339` then `timestamp_nanos_opt`).
pub uninterp spec fn rfc3339_unix_nanos(text: Seq<char>) -> Option<i64>;

/// Calls `chrono::DateTime::<FixedOffset>::parse_from_rfc3339` and
/// `timestamp_nanos_opt` on the result. Claimed: the outcome is the value named
/// `rfc3339_unix_nanos` of the text; `None` when the text does not parse or its
/// nanoseconds leave `i64`.
#[verifier::external_body]
fn parse_rfc3339_nanos(text: &str) -> (r: Option<i64>)
    ensures
        r == rfc3339_unix_nanos(text@),
{
    match DateTime::<FixedOffset>::parse_from_rfc3339(text) {
        Ok(time) => time.timestamp_nanos_opt(),
        Err(_) => None,
    }
}

/// Unix nanoseconds of an RFC 3339 timestamp, when there is one and it is not before 1970.
pub open spec fn unix_nanos_of(timestamp: Option<Seq<char>>) -> Option<u64> {
    match timestamp {
        None => None,
        Some(t) => match rfc3339_unix_nanos(t) {
            Some(n) => if n >= 0 {
                Some(n as u64)
            } else {
                None
            },
            None => None,
        },
    }
}

/// Unix nanoseconds of an RFC 3339 timestamp; `None` when there is none, when it
/// does not parse, or when it lies before 1970.
pub fn unix_nano(timestamp: Option<&str>) -> (r: Option<u64>)
    ensures
        r == unix_nanos_of(
            match timestamp {
                Some(t) => Some(t@),
                None => None,
            },
        ),
{
    let text = match timestamp {
        Some(t) => t,
        None => return None,
    };
    match parse_rfc3339_nanos(text) {
        Some(n) => if n >= 0 {
            Some(n as u64)
        } else {
            None
        },
        None => None,
    }
}

/// The end of a request: its start plus its duration, unless that overflows.
pub open spec fn end_nanos(start: Option<u64>, duration: Option<Milliseconds>) -> Option<u64> {
    match (start, duration) {
        (Some(s), Some(d)) => if s + d.nanos <= u64::MAX {
            Some((s + d.nanos) as u64)
        } else {
            None
        },
        _ => None,
    }
}

/// The end of a request: its start plus its duration in whole nanoseconds;
/// `None` when either is unknown or the sum overflows.
pub fn end_unix_nano(start: Option<u64>, duration_ms: Option<Milliseconds>) -> (r: Option<u64>)
    ensures
        r == end_nanos(start, duration_ms),
{
    let duration = match duration_ms {
        Some(d) => d,
        None => return None,
    };
    match start {
        Some(s) => s.checked_add(duration.nanos),
        None => None,
    }
}

impl RequestTiming {
    /// Unix nanoseconds of `started_at`.
    pub fn start_unix_nano(&self) -> (r: Option<u64>)
        ensures
            r == unix_nanos_of(opt_chars(self.started_at)),
    {
        match &self.started_at {
            Some(s) => unix_nano(Some(s.as_str())),
            None => unix_nano(None),
        }
    }

    /// Unix nanoseconds at which the request ended: start plus duration.
    pub fn end_unix_nano(&self) -> (r: Option<u64>)
        ensures
            r == end_nanos(unix_nanos_of(opt_chars(self.started_at)), self.duration_ms),
    {
        let start = self.start_unix_nano();
        end_unix_nano(start, self.duration_ms)
    }

    /// A timing that knows nothing.
    pub fn empty() -> (t: Self)
        ensures
            t.started_at is None,
            t.duration_ms is None,
            t.blocked_ms is None,
            t.dns_ms is None,
            t.connect_ms is None,
            t.ssl_ms is None,
            t.send_ms is None,
            t.wait_ms is None,
            t.receive_ms is None,
    {
        RequestTiming {
            started_at: None,
            duration_ms: None,
            blocked_ms: None,
            dns_ms: None,
            connect_ms: None,
            ssl_ms: None,
            send_ms: None,
            wait_ms: None,
            receive_ms: None,
        }
    }
}

} // verus!

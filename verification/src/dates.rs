//! Instants, their RFC 3339 text, and the date ranges that a query filters by.

use vstd::prelude::*;

verus! {

/// A point in time: whole seconds since the Unix epoch, and the nanoseconds
/// into that second. During a leap second the nanoseconds run past
/// 999,999,999.
#[derive(Clone, Copy, Debug, PartialEq, Eq, Structural)]
pub struct Timestamp {
    pub secs: i64,
    pub nanos: u32,
}

/// Whether the instant `(secs_a, nanos_a)` is no later than `(secs_b, nanos_b)`.
pub open spec fn no_later(secs_a: int, nanos_a: int, secs_b: int, nanos_b: int) -> bool {
    secs_a < secs_b || (secs_a == secs_b && nanos_a <= nanos_b)
}

/// The instant that `chrono` reads from an RFC 3339 text, as seconds since
/// the epoch and nanoseconds into the second, or `None` where it rejects
/// the text.
pub uninterp spec fn rfc3339_instant(text: Seq<char>) -> Option<(int, int)>;

/// The RFC 3339 text that `chrono` writes for an instant, in UTC, or `None`
/// for an instant outside the range of its calendar.
pub uninterp spec fn rfc3339_text(secs: int, nanos: int) -> Option<Seq<char>>;

/// Calls `chrono::DateTime::parse_from_rfc3339` and reads the instant off
/// the result with `timestamp` and `timestamp_subsec_nanos`. The contract
/// names the outcome and claims nothing else of it.
#[verifier::external_body]
fn parse_rfc3339(text: &str) -> (out: Option<Timestamp>)
    ensures
        match out {
            Some(t) => rfc3339_instant(text@) == Some((t.secs as int, t.nanos as int)),
            None => rfc3339_instant(text@) is None,
        },
{
    let parsed = chrono::DateTime::parse_from_rfc3339(text).ok()?;
    Some(Timestamp { secs: parsed.timestamp(), nanos: parsed.timestamp_subsec_nanos() })
}

/// Calls `chrono::DateTime::from_timestamp`, which refuses an instant that
/// its calendar cannot hold, and `to_rfc3339` on the date it gives. The
/// contract names the outcome and claims nothing else of it.
#[verifier::external_body]
fn format_rfc3339(at: &Timestamp) -> (out: Option<String>)
    ensures
        match out {
            Some(text) => rfc3339_text(at.secs as int, at.nanos as int) == Some(text@),
            None => rfc3339_text(at.secs as int, at.nanos as int) is None,
        },
{
    let date = chrono::DateTime::from_timestamp(at.secs, at.nanos)?;
    Some(date.to_rfc3339())
}

/// The text that stands for an instant in a note: its RFC 3339 form, or
/// nothing where it has none.
pub open spec fn stamp_text(at: Timestamp) -> Seq<char> {
    match rfc3339_text(at.secs as int, at.nanos as int) {
        Some(text) => text,
        None => Seq::empty(),
    }
}

/// The date text for an instant that was read from a clock or from a file's
/// metadata.
pub fn stamp(at: &Timestamp) -> (text: String)
    ensures
        text@ == stamp_text(*at),
{
    stamp_or_empty(format_rfc3339(at))
}

/// The date text for what the formatter gave: its text, or the empty text
/// where it gave none.
pub fn stamp_or_empty(formatted: Option<String>) -> (text: String)
    ensures
        text@ == match formatted {
            Some(t) => t@,
            None => Seq::<char>::empty(),
        },
{
    match formatted {
        Some(t) => t,
        None => String::new(),
    }
}

impl Timestamp {
    /// Whether this instant is no later than `other`.
    pub open spec fn not_after(self, other: Timestamp) -> bool {
        no_later(self.secs as int, self.nanos as int, other.secs as int, other.nanos as int)
    }

    /// Whether this instant is no later than `other`.
    pub fn le(&self, other: &Timestamp) -> (r: bool)
        ensures
            r == self.not_after(*other),
    {
        self.secs < other.secs || (self.secs == other.secs && self.nanos <= other.nanos)
    }
}

/// A closed range of instants, both ends included.
#[derive(Clone, Copy, Debug, PartialEq, Eq, Structural)]
pub struct DateRange {
    pub start: Timestamp,
    pub end: Timestamp,
}

impl DateRange {
    /// Whether the instant lies between `start` and `end`, ends included.
    pub open spec fn spans(self, secs: int, nanos: int) -> bool {
        &&& no_later(self.start.secs as int, self.start.nanos as int, secs, nanos)
        &&& no_later(secs, nanos, self.end.secs as int, self.end.nanos as int)
    }

    /// Whether a date text denotes an instant in the range. A text that is
    /// no RFC 3339 date, the empty text among them, is in no range.
    pub open spec fn admits(self, date: Seq<char>) -> bool {
        match rfc3339_instant(date) {
            Some(at) => self.spans(at.0, at.1),
            None => false,
        }
    }

    /// Whether the instant lies in the range.
    pub fn contains(&self, at: &Timestamp) -> (r: bool)
        ensures
            r == self.spans(at.secs as int, at.nanos as int),
    {
        self.start.le(at) && at.le(&self.end)
    }

    /// Whether what was read from a date text lies in the range; a text
    /// that could not be read lies in none.
    pub fn contains_parsed(&self, parsed: Option<Timestamp>) -> (r: bool)
        ensures
            r == match parsed {
                Some(at) => self.spans(at.secs as int, at.nanos as int),
                None => false,
            },
    {
        match parsed {
            Some(at) => self.contains(&at),
            None => false,
        }
    }

    /// Whether the date text denotes an instant in the range.
    pub fn within(&self, date: &str) -> (r: bool)
        ensures
            r == self.admits(date@),
    {
        self.contains_parsed(parse_rfc3339(date))
    }
}

} // verus!

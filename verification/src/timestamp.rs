//! Moments in time as plain numbers, and the one step of date arithmetic that
//! the service takes.

use vstd::prelude::*;

verus! {

/// The first second that a date and time can name: midnight before
/// 1 January of the year -262143.
pub const MIN_SECS: i64 = -8_334_601_228_800;

/// The last second that a date and time can name: the one before midnight
/// after 31 December of the year 262142.
pub const MAX_SECS: i64 = 8_210_266_876_799;

/// The nanoseconds in a second.
pub const NANOS_PER_SEC: u32 = 1_000_000_000;

/// A moment without a time zone: whole seconds since 1970-01-01 00:00:00,
/// not counting leap seconds, and the nanoseconds into that second.
#[derive(Debug, PartialEq, Eq, Structural, Clone, Copy)]
pub struct Timestamp {
    pub secs: i64,
    pub nanos: u32,
}

impl Timestamp {
    /// The moment is one that a date and time can name, and it does not stand
    /// inside a leap second.
    pub open spec fn wf(self) -> bool {
        MIN_SECS <= self.secs <= MAX_SECS && self.nanos < NANOS_PER_SEC
    }

    /// The moment `hours` hours later, where a date and time can still name it.
    pub open spec fn plus_hours(self, hours: int) -> Option<Timestamp> {
        let secs = self.secs + 3600 * hours;
        if MIN_SECS <= secs <= MAX_SECS {
            Some(Timestamp { secs: secs as i64, nanos: self.nanos })
        } else {
            None
        }
    }

    /// Whether this moment is `other` or comes before it.
    pub open spec fn at_or_before(self, other: Timestamp) -> bool {
        self.secs < other.secs || (self.secs == other.secs && self.nanos <= other.nanos)
    }

    /// The moment of the given seconds and nanoseconds, or `None` where no date
    /// and time names it or the nanoseconds reach a full second.
    pub fn new(secs: i64, nanos: u32) -> (made: Option<Timestamp>)
        ensures
            made == (if (Timestamp { secs, nanos }).wf() {
                Some(Timestamp { secs, nanos })
            } else {
                None
            }),
    {
        if MIN_SECS <= secs && secs <= MAX_SECS && nanos < NANOS_PER_SEC {
            Some(Timestamp { secs, nanos })
        } else {
            None
        }
    }

    /// The moment `hours` hours after this one, or `None` where that moment is
    /// past the last second that a date and time can name.
    pub fn checked_add_hours(self, hours: u64) -> (later: Option<Timestamp>)
        requires
            self.wf(),
        ensures
            later == self.plus_hours(hours as int),
    {
        if hours > 0x7fff_ffff_ffff_ffff {
            None
        } else {
            add_hours(self, hours as i64)
        }
    }
}

/// chrono's `NaiveDateTime::checked_add_signed`, applied to the date and time
/// that `DateTime::from_timestamp` makes of `start` and to the span that
/// `TimeDelta::try_hours` makes of `hours`, and read back with
/// `DateTime::timestamp` and `DateTime::timestamp_subsec_nanos`. Not proved:
/// that for a start outside a leap second and a span that is not negative the
/// sum is `3600 * hours` seconds later with the same nanoseconds, and that it
/// is `None` exactly where the sum leaves chrono's range of dates, which
/// `MIN_SECS` and `MAX_SECS` bound.
#[verifier::external_body]
fn add_hours(start: Timestamp, hours: i64) -> (later: Option<Timestamp>)
    requires
        start.wf(),
        hours >= 0,
    ensures
        later == start.plus_hours(hours as int),
{
    let from = chrono::DateTime::from_timestamp(start.secs, start.nanos)?.naive_utc();
    let span = chrono::TimeDelta::try_hours(hours)?;
    let to = from.checked_add_signed(span)?.and_utc();
    Some(Timestamp { secs: to.timestamp(), nanos: to.timestamp_subsec_nanos() })
}

} // verus!

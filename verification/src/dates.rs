//! Points in time as whole numbers, and the reading of dates in the form of
//! RFC 3339.

use vstd::prelude::*;

verus! {

/// A point in time: the seconds since the epoch, in UTC and without leap
/// seconds, and the nanoseconds since that second began.
#[derive(Debug, Clone, Copy, PartialEq, Eq, Structural)]
pub struct UtcTime {
    pub secs: i64,
    pub nanos: u32,
}

/// The point in time that the `chrono` crate reads from a text in the form
/// of RFC 3339, or `None` where it does not accept the text.
pub uninterp spec fn rfc3339_instant(s: Seq<char>) -> Option<UtcTime>;

/// `chrono::DateTime::parse_from_rfc3339`, with the result taken apart by
/// `timestamp` and `timestamp_subsec_nanos`: the point in time that a text
/// stands for, in UTC whatever offset the text names. The contract only names
/// the result.
#[verifier::external_body]
pub(crate) fn parse_rfc3339(s: &str) -> (r: Option<UtcTime>)
    ensures
        r == rfc3339_instant(s@),
{
    match chrono::DateTime::parse_from_rfc3339(s) {
        Ok(dt) => Some(UtcTime { secs: dt.timestamp(), nanos: dt.timestamp_subsec_nanos() }),
        Err(_) => None,
    }
}

impl UtcTime {
    /// `self` is not later than `other`.
    pub open spec fn no_later_than(self, other: UtcTime) -> bool {
        self.secs < other.secs || (self.secs == other.secs && self.nanos <= other.nanos)
    }

    /// Whether `self` is not later than `other`.
    pub fn is_no_later_than(&self, other: &UtcTime) -> (r: bool)
        ensures
            r == self.no_later_than(*other),
    {
        self.secs < other.secs || (self.secs == other.secs && self.nanos <= other.nanos)
    }
}

/// The point in time of an optional date text: see `rfc3339_instant`.
pub open spec fn instant_of(date: Option<Seq<char>>) -> Option<UtcTime> {
    match date {
        Some(s) => rfc3339_instant(s),
        None => None,
    }
}

/// Reads an optional date text.
pub fn read_date(date: &Option<String>) -> (r: Option<UtcTime>)
    ensures
        r == instant_of(crate::market::opt_text(*date)),
{
    match date {
        Some(s) => parse_rfc3339(s.as_str()),
        None => None,
    }
}

/// A date that is known stands before one that is not; two known dates in
/// the order of time; two unknown dates tie.
pub open spec fn ends_no_later(a: Option<UtcTime>, b: Option<UtcTime>) -> bool {
    match (a, b) {
        (Some(x), Some(y)) => x.no_later_than(y),
        (Some(_), None) => true,
        (None, Some(_)) => false,
        (None, None) => true,
    }
}

/// Decides `ends_no_later`.
pub fn is_ending_no_later(a: &Option<UtcTime>, b: &Option<UtcTime>) -> (r: bool)
    ensures
        r == ends_no_later(*a, *b),
{
    match (a, b) {
        (Some(x), Some(y)) => x.is_no_later_than(y),
        (Some(_), None) => true,
        (None, Some(_)) => false,
        (None, None) => true,
    }
}

} // verus!

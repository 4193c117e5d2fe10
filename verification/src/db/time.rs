//! Points in time as the service carries them.

use vstd::prelude::*;
use crate::text::opt_text;

verus! {

/// A point in time: whole seconds since 1970-01-01T00:00:00Z and the
/// nanoseconds into that second.
#[derive(Debug, Clone, Copy, PartialEq, Eq, Structural)]
pub struct Timestamp {
    pub secs: i64,
    pub nanos: u32,
}

/// Reads the clock. Calls `chrono::Utc::now` and takes the seconds and the
/// nanoseconds of the moment that it returns, with `DateTime::timestamp` and
/// `DateTime::timestamp_subsec_nanos`. Which moment comes back is left open.
/// Whatever it is, it lies in the calendar: `DateTime::from_timestamp` is
/// documented to round-trip with these two numbers, so it builds a date and
/// time from them again.
#[verifier::external_body]
pub(crate) fn utc_now() -> (t: Timestamp)
    ensures
        t.in_calendar(),
{
    let moment = chrono::Utc::now();
    Timestamp { secs: moment.timestamp(), nanos: moment.timestamp_subsec_nanos() }
}

impl Timestamp {
    /// The start of 1970, from which the seconds are counted.
    pub open spec fn spec_epoch() -> Timestamp {
        Timestamp { secs: 0, nanos: 0 }
    }

    /// The start of 1970, from which the seconds are counted.
    #[verifier::when_used_as_spec(spec_epoch)]
    pub fn epoch() -> (t: Timestamp)
        ensures
            t == Timestamp::spec_epoch(),
    {
        Timestamp { secs: 0, nanos: 0 }
    }

    /// Whether this point lies in the calendar, so that a date and time can
    /// be built from it, written as text and bound to a placeholder.
    pub open spec fn in_calendar(self) -> bool {
        rfc3339_text(self.secs, self.nanos) is Some
    }

    /// The present moment, by the clock of the machine. It lies in the
    /// calendar, so a statement that is written under it does not fail for
    /// want of a text for the moment.
    pub fn now() -> (t: Timestamp)
        ensures
            t.in_calendar(),
    {
        utc_now()
    }

    /// Whether `self` lies strictly before `other`.
    pub open spec fn before(self, other: Timestamp) -> bool {
        self.secs < other.secs || (self.secs == other.secs && self.nanos < other.nanos)
    }

    /// Tests whether `self` lies strictly before `other`.
    pub fn is_before(&self, other: &Timestamp) -> (r: bool)
        ensures
            r == self.before(*other),
    {
        self.secs < other.secs || (self.secs == other.secs && self.nanos < other.nanos)
    }

    /// The moment one step after this one: the next nanosecond, or the start
    /// of the next second where this second is full. The last second that can
    /// be counted has no second after it.
    pub open spec fn spec_next(self) -> Option<Timestamp> {
        if self.nanos < 999_999_999 {
            Some(Timestamp { secs: self.secs, nanos: (self.nanos + 1) as u32 })
        } else if self.secs < i64::MAX {
            Some(Timestamp { secs: (self.secs + 1) as i64, nanos: 0 })
        } else {
            None
        }
    }

    /// The moment one step after this one.
    pub fn next(&self) -> (r: Option<Timestamp>)
        ensures
            r == self.spec_next(),
    {
        if self.nanos < 999_999_999 {
            Some(Timestamp { secs: self.secs, nanos: self.nanos + 1 })
        } else if self.secs < i64::MAX {
            Some(Timestamp { secs: self.secs + 1, nanos: 0 })
        } else {
            None
        }
    }
}

/// The moment under which a change is written, the row having been changed
/// last at `stored`: the present moment where that lies after `stored`,
/// else one step after `stored`, so that the moment of the last change
/// always moves on. `None` where no moment lies after `stored`.
pub open spec fn moment_after(stored: Timestamp, now: Timestamp) -> Option<Timestamp> {
    if stored.before(now) {
        Some(now)
    } else {
        stored.spec_next()
    }
}

/// The moment under which a change is written.
pub fn advance(stored: Timestamp, now: Timestamp) -> (r: Option<Timestamp>)
    ensures
        r == moment_after(stored, now),
{
    if stored.is_before(&now) {
        Some(now)
    } else {
        stored.next()
    }
}

/// The moment under which a change is written lies strictly after the
/// moment of the last change, whatever the clock says. It is the present
/// moment where the clock has moved on. It is missing only behind the last
/// second that can be counted.
pub proof fn lemma_moment_after(stored: Timestamp, now: Timestamp)
    ensures
        moment_after(stored, now) matches Some(written) ==> stored.before(written),
        stored.before(now) ==> moment_after(stored, now) == Some(now),
        moment_after(stored, now) is None ==> stored.secs == i64::MAX && stored.nanos
            >= 999_999_999,
{
}

/// The text of a point in time in the form of RFC 3339, such as
/// `1996-12-19T16:39:57+00:00`, or `None` for a point that the calendar of
/// the formatter does not reach.
pub uninterp spec fn rfc3339_text(secs: i64, nanos: u32) -> Option<Seq<char>>;

/// Writes a point in time in the form of RFC 3339. Builds the date and time
/// with `chrono::DateTime::from_timestamp`, which gives `None` for seconds
/// out of range or invalid nanoseconds, and formats it with
/// `DateTime::to_rfc3339`. The result is a function of the two numbers alone.
#[verifier::external_body]
pub(crate) fn rfc3339(t: Timestamp) -> (r: Option<String>)
    ensures
        opt_text(r) == rfc3339_text(t.secs, t.nanos),
{
    match chrono::DateTime::from_timestamp(t.secs, t.nanos) {
        Some(moment) => Some(moment.to_rfc3339()),
        None => None,
    }
}

} // verus!

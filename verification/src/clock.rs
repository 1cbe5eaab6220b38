//! Points in time, counted in seconds and nanoseconds since the epoch, in UTC.

use vstd::prelude::*;

verus! {

/// A point in time: whole seconds since the epoch and the nanoseconds after them.
#[derive(Clone, Copy, Debug, PartialEq, Eq, Structural, PartialOrd, Ord, Hash)]
pub struct Time {
    /// Whole seconds since the epoch.
    pub sec: i64,
    /// Nanoseconds after the whole second.
    pub nsec: i32,
}

impl Time {
    /// `self` is not earlier than `other`.
    pub open spec fn at_or_after(self, other: Time) -> bool {
        self.sec > other.sec || (self.sec == other.sec && self.nsec >= other.nsec)
    }

    /// The point in time with the given seconds and nanoseconds.
    pub fn new(sec: i64, nsec: i32) -> (time: Time)
        ensures
            time == (Time { sec, nsec }),
    {
        Time { sec, nsec }
    }

    /// The nanoseconds are a part of one second.
    pub open spec fn is_well_formed(self) -> bool {
        0 <= self.nsec < 1_000_000_000
    }

    /// The current time, as the clock gives it: whole seconds, and nanoseconds that are a
    /// part of one second. Which time it is is not known: the clock may stand still or be
    /// set back.
    pub fn now() -> (now: Time)
        ensures
            now.is_well_formed(),
    {
        now_utc()
    }

    /// Whether `self` is not earlier than `other`.
    pub fn is_at_or_after(&self, other: &Time) -> (later: bool)
        ensures
            later == self.at_or_after(*other),
    {
        self.sec > other.sec || (self.sec == other.sec && self.nsec >= other.nsec)
    }
}

/// Being not earlier is a total preorder on points in time, and two points that are each
/// not earlier than the other are the same point.
pub proof fn lemma_time_order(a: Time, b: Time, c: Time)
    ensures
        a.at_or_after(a),
        a.at_or_after(b) || b.at_or_after(a),
        a.at_or_after(b) && b.at_or_after(c) ==> a.at_or_after(c),
        a.at_or_after(b) && b.at_or_after(a) ==> a == b,
{
}

/// Among points in time whose nanoseconds are a part of one second, being not earlier is
/// being no fewer nanoseconds from the epoch.
pub proof fn lemma_order_is_that_of_the_clock(a: Time, b: Time)
    requires
        a.is_well_formed(),
        b.is_well_formed(),
    ensures
        a.at_or_after(b) <==> a.sec * 1_000_000_000 + a.nsec >= b.sec * 1_000_000_000 + b.nsec,
{
}

/// Reads the clock with `time::now_utc` and takes the seconds and nanoseconds that
/// `Tm::to_timespec` gives for it. The contract claims of the value that its nanoseconds
/// are at least zero and less than a thousand million: `to_timespec` makes its result with
/// `Timespec::new`, which admits no others. Of the seconds it claims nothing.
#[verifier::external_body]
fn now_utc() -> (now: Time)
    ensures
        0 <= now.nsec < 1_000_000_000,
{
    let now = time::now_utc().to_timespec();
    Time { sec: now.sec, nsec: now.nsec }
}

} // verus!

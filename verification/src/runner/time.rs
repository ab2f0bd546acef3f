use vstd::prelude::*;

verus! {

/// Nanoseconds in one second.
pub const NANOS_PER_SECOND: i128 = 1_000_000_000;

/// A point in time: seconds since the Unix epoch, and nanoseconds behind them.
#[derive(Clone, Copy, Debug, PartialEq, Eq)]
pub struct Timestamp {
    pub secs: i64,
    pub subsec_nanos: u32,
}

/// A signed span of time, counted in nanoseconds.
#[derive(Clone, Copy, Debug, PartialEq, Eq)]
pub struct TimeDelta {
    pub nanos: i128,
}

impl Default for Timestamp {
    /// The Unix epoch.
    fn default() -> (epoch: Timestamp)
        ensures
            epoch.secs == 0,
            epoch.subsec_nanos == 0,
    {
        Timestamp { secs: 0, subsec_nanos: 0 }
    }
}

impl Timestamp {
    /// Nanoseconds since the Unix epoch.
    pub open spec fn nanos(self) -> int {
        self.secs * 1_000_000_000 + self.subsec_nanos
    }

    /// The present time by the wall clock, to the nanosecond within its second.
    pub fn now() -> (now: Timestamp)
        ensures
            now.subsec_nanos < NANOS_PER_SECOND,
    {
        utc_now()
    }

    /// The time that passed from `earlier` to `self`; negative where `self`
    /// is the earlier of the two.
    pub fn signed_duration_since(self, earlier: Timestamp) -> (delta: TimeDelta)
        ensures
            delta.nanos == self.nanos() - earlier.nanos(),
    {
        let to: i128 = self.secs as i128 * NANOS_PER_SECOND + self.subsec_nanos as i128;
        let from: i128 = earlier.secs as i128 * NANOS_PER_SECOND + earlier.subsec_nanos as i128;
        TimeDelta { nanos: to - from }
    }
}

impl TimeDelta {
    /// A span of `nanos` nanoseconds.
    pub fn nanoseconds(nanos: i64) -> (delta: TimeDelta)
        ensures
            delta.nanos == nanos,
    {
        TimeDelta { nanos: nanos as i128 }
    }

    /// The span in nanoseconds, where that fits in an `i64`.
    pub fn num_nanoseconds(&self) -> (nanos: Option<i64>)
        ensures
            nanos is Some <==> i64::MIN <= self.nanos <= i64::MAX,
            nanos is Some ==> nanos->0 == self.nanos,
    {
        if self.nanos >= i64::MIN as i128 && self.nanos <= i64::MAX as i128 {
            Some(self.nanos as i64)
        } else {
            None
        }
    }

    /// The whole seconds in the span, rounded toward zero.
    pub fn num_seconds(&self) -> (secs: i128)
        ensures
            self.nanos >= 0 ==> secs == self.nanos / 1_000_000_000,
            self.nanos < 0 ==> secs == -((-self.nanos) / 1_000_000_000),
    {
        if self.nanos >= 0 {
            self.nanos / NANOS_PER_SECOND
        } else if self.nanos < -NANOS_PER_SECOND {
            -((-(self.nanos + NANOS_PER_SECOND)) / NANOS_PER_SECOND) - 1
        } else {
            -((-self.nanos) / NANOS_PER_SECOND)
        }
    }
}

/// Reads the wall clock through `chrono::Utc::now` and hands back the
/// reading's `timestamp()` and `timestamp_subsec_nanos()`.
///
/// `Utc::now` makes its reading from the whole seconds and the fractional
/// part of the `Duration` since the Unix epoch that the system clock gives,
/// and the two accessors hand those back as they went in. The fractional
/// part of a `Duration` is less than a second, so the nanoseconds of the
/// reading are fewer than a second's worth: the reading is no leap second.
/// Nothing is claimed of the seconds: the clock may stand anywhere and may
/// step backwards. The call panics where the system clock stands before the
/// Unix epoch.
#[verifier::external_body]
fn utc_now() -> (now: Timestamp)
    ensures
        now.subsec_nanos < NANOS_PER_SECOND,
{
    let now = chrono::Utc::now();
    Timestamp { secs: now.timestamp(), subsec_nanos: now.timestamp_subsec_nanos() }
}

} // verus!

//! Points in time as plain numbers, and the whole seconds between two of them.

use vstd::prelude::*;

verus! {

/// The greatest distance from the epoch, in seconds, that a `Timestamp` may
/// have: about 253,000 years, inside the range of dates that chrono's
/// `DateTime` can hold.
pub const MAX_SECONDS: i64 = 8_000_000_000_000;

/// Nanoseconds in one second.
pub const NANOS_PER_SECOND: u32 = 1_000_000_000;

/// A point in time: whole seconds since 1970-01-01 00:00:00 UTC, and the
/// nanoseconds into that second.
#[derive(Clone, Copy, Debug, PartialEq, Eq, Structural)]
pub struct Timestamp {
    pub secs: i64,
    pub nanos: u32,
}

/// The whole seconds in a span of `nanos` nanoseconds, rounded toward zero.
pub open spec fn whole_seconds(nanos: int) -> int {
    if nanos >= 0 {
        nanos / 1_000_000_000
    } else {
        -((-nanos) / 1_000_000_000)
    }
}

impl Timestamp {
    /// The seconds are within `MAX_SECONDS` of the epoch, and the nanoseconds
    /// are less than a second.
    pub open spec fn wf(&self) -> bool {
        &&& -MAX_SECONDS <= self.secs <= MAX_SECONDS
        &&& self.nanos < NANOS_PER_SECOND
    }

    /// Nanoseconds since the epoch.
    pub open spec fn instant(&self) -> int {
        self.secs * 1_000_000_000 + self.nanos
    }

    /// The timestamp with these parts, if they make one.
    pub fn new(secs: i64, nanos: u32) -> (r: Option<Timestamp>)
        ensures
            r == if (Timestamp { secs, nanos }).wf() {
                Some(Timestamp { secs, nanos })
            } else {
                None
            },
    {
        if -MAX_SECONDS <= secs && secs <= MAX_SECONDS && nanos < NANOS_PER_SECOND {
            Some(Timestamp { secs, nanos })
        } else {
            None
        }
    }

    /// The timestamp for a reading that may stand in a leap second: such a
    /// reading, whose nanoseconds are a second or more, is held as the last
    /// nanosecond of the second it follows. `None` where the seconds are out
    /// of range.
    pub fn folding_leap_second(secs: i64, nanos: u32) -> (r: Option<Timestamp>)
        ensures
            r == if -MAX_SECONDS <= secs <= MAX_SECONDS {
                Some(
                    Timestamp {
                        secs,
                        nanos: if nanos < NANOS_PER_SECOND {
                            nanos
                        } else {
                            (NANOS_PER_SECOND - 1) as u32
                        },
                    },
                )
            } else {
                None
            },
            r matches Some(t) ==> t.wf(),
    {
        if nanos < NANOS_PER_SECOND {
            Timestamp::new(secs, nanos)
        } else {
            Timestamp::new(secs, NANOS_PER_SECOND - 1)
        }
    }

    /// The current time, or `None` where the system clock's reading is beyond
    /// what a `Timestamp` holds. A clock that stands before 1970 reads as
    /// negative seconds.
    pub fn now() -> (r: Option<Timestamp>)
        ensures
            r matches Some(t) ==> t.wf(),
    {
        let (secs, nanos) = clock_reading();
        Timestamp::new(secs, nanos)
    }

    /// Whole seconds from this time to `later`, rounded toward zero; negative
    /// where `later` is the earlier one.
    pub fn seconds_until(&self, later: &Timestamp) -> (r: i64)
        requires
            self.wf(),
            later.wf(),
        ensures
            r == whole_seconds(later.instant() - self.instant()),
    {
        seconds_between(*self, *later)
    }
}

/// Reads the system clock with std's `SystemTime::now`, turns the reading
/// into a `DateTime<Utc>` with chrono's `From<SystemTime>`, which takes a time
/// before 1970 as negative seconds, and takes it apart with
/// `DateTime::timestamp` and `DateTime::timestamp_subsec_nanos`. Nothing is
/// claimed of the reading.
#[verifier::external_body]
fn clock_reading() -> (r: (i64, u32)) {
    let now = chrono::DateTime::<chrono::Utc>::from(std::time::SystemTime::now());
    (now.timestamp(), now.timestamp_subsec_nanos())
}

/// Calls chrono's `DateTime::signed_duration_since` on the two times, built
/// with `DateTime::from_timestamp`, and `TimeDelta::num_seconds` on what it
/// gives. Claimed: both times can be built, since they are within chrono's
/// range and hold no leap second; and the result is the span between them in
/// whole seconds, rounded toward zero.
#[verifier::external_body]
fn seconds_between(from: Timestamp, to: Timestamp) -> (r: i64)
    requires
        from.wf(),
        to.wf(),
    ensures
        r == whole_seconds(to.instant() - from.instant()),
{
    let start = chrono::DateTime::from_timestamp(from.secs, from.nanos).unwrap();
    let end = chrono::DateTime::from_timestamp(to.secs, to.nanos).unwrap();
    end.signed_duration_since(start).num_seconds()
}

} // verus!

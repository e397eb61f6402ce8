use vstd::prelude::*;

verus! {

/// Seconds since the Unix epoch of the first instant chrono can represent.
pub const EARLIEST_SECS: i64 = -8334601315200;

/// Seconds since the Unix epoch of the last whole second chrono can represent.
pub const LATEST_SECS: i64 = 8210266876799;

/// Nanoseconds in one second.
pub const NANOS_PER_SEC: u32 = 1000000000;

/// An instant in UTC: whole seconds since the Unix epoch and the nanoseconds
/// within that second.
#[derive(Clone, Copy, Debug, PartialEq, Eq, Structural)]
pub struct Timestamp {
    pub secs: i64,
    pub nanos: u32,
}

/// The instant lies in the range of UTC date-times that chrono represents,
/// with its sub-second part below one second.
pub open spec fn representable(t: Timestamp) -> bool {
    &&& EARLIEST_SECS <= t.secs <= LATEST_SECS
    &&& t.nanos < NANOS_PER_SEC
}

/// `a` comes strictly before `b`.
pub open spec fn earlier(a: Timestamp, b: Timestamp) -> bool {
    a.secs < b.secs || (a.secs == b.secs && a.nanos < b.nanos)
}

impl Timestamp {
    /// `self < other` in time.
    pub fn is_before(&self, other: &Timestamp) -> (res: bool)
        ensures
            res == earlier(*self, *other),
    {
        self.secs < other.secs || (self.secs == other.secs && self.nanos < other.nanos)
    }

    /// The instant one minute before `self`.
    pub fn minus_one_minute(&self) -> (res: Timestamp)
        requires
            self.secs >= i64::MIN + 60,
        ensures
            res.secs == self.secs - 60,
            res.nanos == self.nanos,
    {
        Timestamp { secs: self.secs - 60, nanos: self.nanos }
    }
}

/// A reading of the system clock: the time elapsed since the Unix epoch, or
/// the time still to go until it, as whole seconds and nanoseconds.
#[derive(Clone, Copy, Debug, PartialEq, Eq, Structural)]
pub enum ClockReading {
    SinceEpoch(u64, u32),
    BeforeEpoch(u64, u32),
}

/// The earliest instant the clock is taken to read: a minute after the first
/// instant chrono represents, so that a minute before it is still one.
pub const CLOCK_FLOOR_SECS: i64 = -8334601315140;

/// The instant a reading stands for, as (seconds since the epoch rounded
/// down, nanoseconds within that second).
pub open spec fn reading_instant(reading: ClockReading) -> (int, int) {
    match reading {
        ClockReading::SinceEpoch(s, n) => (s as int, n as int),
        ClockReading::BeforeEpoch(s, n) => if n == 0 {
            (-s, 0)
        } else {
            (-s - 1, NANOS_PER_SEC - n)
        },
    }
}

/// The timestamp of a reading, held within the range of instants the bot
/// works with: a reading before [`CLOCK_FLOOR_SECS`] is taken as that
/// second, and one after [`LATEST_SECS`] as that second.
pub open spec fn clock_timestamp(reading: ClockReading) -> Timestamp {
    let (s, n) = reading_instant(reading);
    if s < CLOCK_FLOOR_SECS {
        Timestamp { secs: CLOCK_FLOOR_SECS, nanos: 0 }
    } else if s > LATEST_SECS {
        Timestamp { secs: LATEST_SECS, nanos: 0 }
    } else {
        Timestamp { secs: s as i64, nanos: n as u32 }
    }
}

/// Reads the system clock with `std::time::SystemTime::now`, measured from
/// `UNIX_EPOCH` by `duration_since` (whose error carries the time before
/// the epoch).
///
/// What holds of every reading: `Duration::subsec_nanos` is below one
/// second. Which instant comes back is the machine's and is not stated.
#[verifier::external_body]
pub fn read_clock() -> (res: ClockReading)
    ensures
        match res {
            ClockReading::SinceEpoch(_, n) => n < NANOS_PER_SEC,
            ClockReading::BeforeEpoch(_, n) => n < NANOS_PER_SEC,
        },
{
    match std::time::SystemTime::now().duration_since(std::time::UNIX_EPOCH) {
        Ok(d) => ClockReading::SinceEpoch(d.as_secs(), d.subsec_nanos()),
        Err(e) => ClockReading::BeforeEpoch(e.duration().as_secs(), e.duration().subsec_nanos()),
    }
}

/// The timestamp of a clock reading.
pub fn timestamp_from_clock(reading: ClockReading) -> (res: Timestamp)
    requires
        match reading {
            ClockReading::SinceEpoch(_, n) => n < NANOS_PER_SEC,
            ClockReading::BeforeEpoch(_, n) => n < NANOS_PER_SEC,
        },
    ensures
        res == clock_timestamp(reading),
        representable(res),
        res.secs >= CLOCK_FLOOR_SECS,
{
    match reading {
        ClockReading::SinceEpoch(s, n) => {
            if s > (LATEST_SECS as u64) {
                Timestamp { secs: LATEST_SECS, nanos: 0 }
            } else {
                Timestamp { secs: s as i64, nanos: n }
            }
        },
        ClockReading::BeforeEpoch(s, n) => {
            let floor_distance: u64 = 8334601315140;
            if n == 0 {
                if s > floor_distance {
                    Timestamp { secs: CLOCK_FLOOR_SECS, nanos: 0 }
                } else {
                    Timestamp { secs: -(s as i64), nanos: 0 }
                }
            } else {
                if s >= floor_distance {
                    Timestamp { secs: CLOCK_FLOOR_SECS, nanos: 0 }
                } else {
                    Timestamp { secs: -(s as i64) - 1, nanos: NANOS_PER_SEC - n }
                }
            }
        },
    }
}

/// The current time in UTC, by the system clock, held within the range of
/// instants the bot works with.
pub fn utc_now() -> (res: Timestamp)
    ensures
        representable(res),
        res.secs >= CLOCK_FLOOR_SECS,
{
    timestamp_from_clock(read_clock())
}

} // verus!

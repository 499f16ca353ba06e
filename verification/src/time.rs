//! Lengths of time and points in time.
use vstd::prelude::*;

verus! {

/// Nanoseconds in a second.
pub const NANOS_PER_SEC: u32 = 1_000_000_000;

/// First second of the calendar that timestamps are written in.
pub const FIRST_CALENDAR_SECOND: i64 = -8_334_601_228_800;

/// Last second of the calendar that timestamps are written in.
pub const LAST_CALENDAR_SECOND: i64 = 8_210_266_876_799;

/// Length of time, as whole seconds and the nanoseconds that remain.
#[derive(Clone, Copy, Debug, PartialEq, Eq, Hash, Structural)]
pub struct Duration {
    /// Whole seconds.
    pub secs: u64,
    /// Nanoseconds beyond the whole seconds.
    pub nanos: u32,
}

impl View for Duration {
    type V = int;

    /// Length in nanoseconds.
    open spec fn view(&self) -> int {
        self.secs * 1_000_000_000 + self.nanos
    }
}

impl Duration {
    /// The nanoseconds are less than a second.
    pub open spec fn wf(self) -> bool {
        self.nanos < NANOS_PER_SEC
    }

    /// A number of whole seconds.
    pub fn from_secs(secs: u64) -> (r: Duration)
        ensures
            r.wf(),
            r.secs == secs,
            r.nanos == 0,
    {
        Duration { secs, nanos: 0 }
    }

    /// A number of milliseconds.
    pub fn from_millis(millis: u64) -> (r: Duration)
        ensures
            r.wf(),
            r@ == millis * 1_000_000,
    {
        Duration { secs: millis / 1000, nanos: (millis % 1000) as u32 * 1_000_000 }
    }

    /// What is left of `self` after `other`, or nothing where `other` is as long.
    pub fn saturating_sub(self, other: Duration) -> (r: Duration)
        requires
            self.wf(),
            other.wf(),
        ensures
            r.wf(),
            r@ == if self@ >= other@ { self@ - other@ } else { 0 },
    {
        if self.secs > other.secs || (self.secs == other.secs && self.nanos >= other.nanos) {
            if self.nanos >= other.nanos {
                Duration { secs: self.secs - other.secs, nanos: self.nanos - other.nanos }
            } else {
                Duration {
                    secs: self.secs - other.secs - 1,
                    nanos: self.nanos + NANOS_PER_SEC - other.nanos,
                }
            }
        } else {
            Duration { secs: 0, nanos: 0 }
        }
    }
}

/// Point in time, counted from the start of 1970 in UTC.
#[derive(Clone, Copy, Debug, PartialEq, Eq, Structural)]
pub struct Timestamp {
    /// Whole seconds, rounded down.
    pub secs: i64,
    /// Nanoseconds beyond the whole seconds.
    pub nanos: u32,
}

impl View for Timestamp {
    type V = int;

    /// Nanoseconds from the start of 1970.
    open spec fn view(&self) -> int {
        self.secs * 1_000_000_000 + self.nanos
    }
}

impl Timestamp {
    /// The nanoseconds are less than a second.
    pub open spec fn wf(self) -> bool {
        self.nanos < NANOS_PER_SEC
    }

    /// The point in time has a date.
    pub open spec fn in_calendar(self) -> bool {
        FIRST_CALENDAR_SECOND <= self.secs <= LAST_CALENDAR_SECOND
    }

    /// The year of the point has four digits.
    pub open spec fn in_four_digit_year(self) -> bool {
        FIRST_FOUR_DIGIT_SECOND <= self.secs <= LAST_FOUR_DIGIT_SECOND
    }

    /// Time passed since an earlier point.
    pub fn since(self, earlier: Timestamp) -> (r: Duration)
        requires
            self.wf(),
            earlier.wf(),
            earlier@ <= self@,
        ensures
            r.wf(),
            r@ == self@ - earlier@,
    {
        let seconds: i128 = self.secs as i128 - earlier.secs as i128;
        if self.nanos >= earlier.nanos {
            Duration { secs: seconds as u64, nanos: self.nanos - earlier.nanos }
        } else {
            Duration {
                secs: (seconds - 1) as u64,
                nanos: self.nanos + NANOS_PER_SEC - earlier.nanos,
            }
        }
    }

    /// The point after a length of time can be written down.
    pub open spec fn can_wait(self, length: Duration) -> bool {
        self@ + length@ < 0x8000_0000_0000_0000 * 1_000_000_000
    }

    /// Point after a length of time.
    pub fn after(self, length: Duration) -> (r: Timestamp)
        requires
            self.wf(),
            length.wf(),
            self.can_wait(length),
        ensures
            r.wf(),
            r@ == self@ + length@,
    {
        let nanos: u32 = self.nanos + length.nanos;
        let seconds: i128 = self.secs as i128 + length.secs as i128;
        if nanos >= NANOS_PER_SEC {
            Timestamp { secs: (seconds + 1) as i64, nanos: nanos - NANOS_PER_SEC }
        } else {
            Timestamp { secs: seconds as i64, nanos }
        }
    }

    /// The other point lies later.
    pub fn is_before(self, other: Timestamp) -> (r: bool)
        requires
            self.wf(),
            other.wf(),
        ensures
            r == (self@ < other@),
    {
        self.secs < other.secs || (self.secs == other.secs && self.nanos < other.nanos)
    }
}

/// First second of the year 0.
pub const FIRST_FOUR_DIGIT_SECOND: i64 = -62_167_219_200;

/// Last second of the year 9999.
pub const LAST_FOUR_DIGIT_SECOND: i64 = 253_402_300_799;

/// Date and time of a second in RFC 3339 form, without a fraction and with `Z` for UTC.
pub uninterp spec fn rfc3339(secs: int) -> Seq<char>;

/// Writes a point in time with `chrono`: `DateTime::to_rfc3339_opts` with whole seconds and `Z`,
/// of the UTC time that `DateTime::from_timestamp` makes of the seconds. The text depends on the
/// seconds alone. `DateTime::from_timestamp` has a value for every second of the calendar. A text with
/// a year of four digits is read back by `DateTime::parse_from_rfc3339` as the same second.
#[verifier::external_body]
pub(crate) fn to_rfc3339(time: Timestamp) -> (r: String)
    requires
        time.wf(),
        time.in_calendar(),
    ensures
        r@ == rfc3339(time.secs as int),
        time.in_four_digit_year() ==> rfc3339_time(r@) == Some(time.secs * 1_000_000_000),
{
    let utc = chrono::DateTime::from_timestamp(time.secs, time.nanos).unwrap();
    utc.to_rfc3339_opts(chrono::SecondsFormat::Secs, true)
}

/// Nanoseconds from the start of 1970 to the time that a text in RFC 3339 form denotes, if it denotes
/// one.
pub uninterp spec fn rfc3339_time(text: Seq<char>) -> Option<int>;

/// Reads a point in time with `chrono`'s `DateTime::parse_from_rfc3339`, as its seconds (`timestamp`)
/// and the nanoseconds beyond them (`timestamp_subsec_nanos`). What they are depends on the text alone.
/// The seconds lie in the calendar, and the nanoseconds make up less than two seconds: a leap second
/// has more than one.
#[verifier::external_body]
fn rfc3339_parts(text: &str) -> (r: Option<(i64, u32)>)
    ensures
        match r {
            Some(parts) => {
                &&& FIRST_CALENDAR_SECOND <= parts.0 <= LAST_CALENDAR_SECOND
                &&& parts.1 < 2 * NANOS_PER_SEC
                &&& rfc3339_time(text@) == Some(parts.0 * 1_000_000_000 + parts.1)
            },
            None => rfc3339_time(text@) is None,
        },
{
    match chrono::DateTime::parse_from_rfc3339(text) {
        Ok(time) => Some((time.timestamp(), time.timestamp_subsec_nanos())),
        Err(_) => None,
    }
}

/// Reads a point in time in RFC 3339 form.
pub fn parse_rfc3339(text: &str) -> (r: Option<Timestamp>)
    ensures
        match r {
            Some(time) => time.wf() && rfc3339_time(text@) == Some(time@),
            None => rfc3339_time(text@) is None,
        },
{
    match rfc3339_parts(text) {
        Some((secs, nanos)) => if nanos < NANOS_PER_SEC {
            Some(Timestamp { secs, nanos })
        } else {
            Some(Timestamp { secs: secs + 1, nanos: nanos - NANOS_PER_SEC })
        },
        None => None,
    }
}

} // verus!

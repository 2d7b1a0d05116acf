//! Points in time, as the ledger records them.

use vstd::prelude::*;

verus! {

/// The first second that a timestamp can name: the start of the year -262143.
pub const MIN_SECONDS: i64 = -8_334_601_228_800;

/// The last second that a timestamp can name: the end of the year 262142.
pub const MAX_SECONDS: i64 = 8_210_266_876_799;

/// Whether a count of seconds since 1970-01-01T00:00:00Z, with the
/// nanoseconds since the last whole second, names a point in time. The
/// nanoseconds reach a thousand million and beyond only within a leap
/// second, which follows the last second of a minute.
pub open spec fn representable(seconds: i64, nanos: u32) -> bool {
    &&& MIN_SECONDS <= seconds <= MAX_SECONDS
    &&& (nanos < 1_000_000_000 || (nanos < 2_000_000_000 && seconds as int % 60 == 59))
}

/// The text that `chrono` writes for a UTC date and time under `{:?}`, such
/// as `2023-11-14T22:13:20Z`, given its seconds and nanoseconds.
pub uninterp spec fn timestamp_debug_text(seconds: i64, nanos: u32) -> Seq<char>;

/// Reads the clock with `chrono::Utc::now` and hands back what
/// `DateTime::timestamp` and `DateTime::timestamp_subsec_nanos` give for it.
/// The crate builds the value with `DateTime::from_timestamp`, so the pair
/// names a point in time; nothing else is claimed of it. Where the clock of
/// the machine stands before 1970, the crate panics.
#[verifier::external_body]
fn clock_reading() -> (reading: (i64, u32))
    ensures
        representable(reading.0, reading.1),
{
    let now = chrono::Utc::now();
    (now.timestamp(), now.timestamp_subsec_nanos())
}

/// Builds the date and time with `chrono::DateTime::from_timestamp` and
/// formats it with `{:?}`. The crate accepts every pair that `representable`
/// admits; the text is named `timestamp_debug_text`.
#[verifier::external_body]
fn format_timestamp(seconds: i64, nanos: u32) -> (text: String)
    requires
        representable(seconds, nanos),
    ensures
        text@ == timestamp_debug_text(seconds, nanos),
{
    format!("{:?}", chrono::DateTime::from_timestamp(seconds, nanos).unwrap())
}

/// A point in time in UTC: whole seconds since 1970-01-01T00:00:00Z and the
/// nanoseconds since the last whole second.
#[derive(Clone, Copy, Debug, PartialEq, Eq)]
pub struct Timestamp {
    seconds: i64,
    nanos: u32,
}

impl Timestamp {
    #[verifier::type_invariant]
    spec fn names_a_point_in_time(self) -> bool {
        representable(self.seconds, self.nanos)
    }

    /// The whole seconds since 1970-01-01T00:00:00Z.
    pub closed spec fn spec_seconds(self) -> i64 {
        self.seconds
    }

    /// The nanoseconds since the last whole second.
    pub closed spec fn spec_nanos(self) -> u32 {
        self.nanos
    }

    /// The text of the timestamp, as it enters a digest.
    pub open spec fn text(self) -> Seq<char> {
        timestamp_debug_text(self.spec_seconds(), self.spec_nanos())
    }

    /// The timestamp of the given seconds and nanoseconds, where they name a
    /// point in time.
    pub fn new(seconds: i64, nanos: u32) -> (made: Option<Timestamp>)
        ensures
            made is Some <==> representable(seconds, nanos),
            made is Some ==> made.unwrap().spec_seconds() == seconds && made.unwrap().spec_nanos()
                == nanos,
    {
        if seconds < MIN_SECONDS || seconds > MAX_SECONDS {
            return None;
        }
        let in_leap_second = nanos < 2_000_000_000 && (seconds % 60 + 60) % 60 == 59;
        if nanos < 1_000_000_000 || in_leap_second {
            Some(Timestamp { seconds, nanos })
        } else {
            None
        }
    }

    /// The present time, as the clock of the machine tells it.
    pub fn now() -> (current: Timestamp)
        ensures
            representable(current.spec_seconds(), current.spec_nanos()),
    {
        let (seconds, nanos) = clock_reading();
        Timestamp { seconds, nanos }
    }

    /// The whole seconds since 1970-01-01T00:00:00Z.
    pub fn seconds(&self) -> (seconds: i64)
        ensures
            seconds == self.spec_seconds(),
    {
        self.seconds
    }

    /// The nanoseconds since the last whole second.
    pub fn subsec_nanos(&self) -> (nanos: u32)
        ensures
            nanos == self.spec_nanos(),
    {
        self.nanos
    }

    /// Writes the timestamp as text.
    pub fn to_text(&self) -> (text: String)
        ensures
            text@ == self.text(),
    {
        proof {
            use_type_invariant(self);
        }
        format_timestamp(self.seconds, self.nanos)
    }
}

} // verus!

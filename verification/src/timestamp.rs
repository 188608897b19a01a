//! Wall-clock instants, their text in the access-log date format, and the
//! time between two of them.
//!
//! An instant is held as plain integers: whole seconds since the Unix epoch
//! and the nanoseconds into that second. Calendar arithmetic and date
//! formatting are left to `chrono`.

use vstd::prelude::*;

verus! {

/// Seconds from the Unix epoch to 0000-01-01 00:00:00 UTC, the earliest
/// instant whose year has four digits.
pub const MIN_SECS: i64 = -62_167_219_200;

/// Seconds from the Unix epoch to 9999-12-31 23:59:59 UTC, the last second
/// whose year has four digits.
pub const MAX_SECS: i64 = 253_402_300_799;

/// Nanoseconds in a second.
pub const NANOS_PER_SEC: u32 = 1_000_000_000;

/// A wall-clock instant in UTC, between the years 0 and 9999, with
/// nanosecond resolution. Leap seconds have no representation of their own.
#[derive(Clone, Copy, Debug, PartialEq, Eq, Structural)]
pub struct Timestamp {
    secs: i64,
    nanos: u32,
}

/// The text that `chrono` gives for the UTC instant `secs` seconds and
/// `nanos` nanoseconds after the Unix epoch under the pattern
/// `%d/%b/%Y:%H:%M:%S %z`: day, abbreviated month, year, time of day and
/// numeric offset, as in `10/Oct/2023:13:55:36 +0000`.
pub uninterp spec fn clf_timestamp(secs: i64, nanos: u32) -> Seq<char>;

/// The whole microseconds from one instant to another, each given as
/// seconds and nanoseconds, rounded towards zero; negative if the second
/// instant is the earlier one.
pub open spec fn elapsed_micros(
    start_secs: int,
    start_nanos: int,
    end_secs: int,
    end_nanos: int,
) -> int {
    let nanos = (end_secs - start_secs) * 1_000_000_000 + (end_nanos - start_nanos);
    if nanos >= 0 {
        nanos / 1_000
    } else {
        -((-nanos) / 1_000)
    }
}

/// The whole microseconds from `start` to `end`, rounded towards zero.
pub open spec fn micros_between(start: Timestamp, end: Timestamp) -> int {
    elapsed_micros(
        start.secs() as int,
        start.nanos() as int,
        end.secs() as int,
        end.nanos() as int,
    )
}

/// Builds the instant with `chrono::DateTime::from_timestamp` and renders it
/// with `DateTime::format` under the pattern `%d/%b/%Y:%H:%M:%S %z`.
///
/// Within the required range `from_timestamp` returns a date, and every
/// item of the pattern is one that a date and time in UTC can fill, so
/// neither step fails. The text depends on the two numbers alone: the
/// offset is always UTC and the month names are chrono's built-in English
/// ones. Nothing more is claimed of it than that it is this text.
#[verifier::external_body]
fn chrono_clf_timestamp(secs: i64, nanos: u32) -> (text: String)
    requires
        MIN_SECS <= secs <= MAX_SECS,
        nanos < NANOS_PER_SEC,
    ensures
        text@ == clf_timestamp(secs, nanos),
{
    let instant = chrono::DateTime::from_timestamp(secs, nanos).unwrap();
    instant.format("%d/%b/%Y:%H:%M:%S %z").to_string()
}

/// Builds both instants with `chrono::DateTime::from_timestamp`, subtracts
/// them with `DateTime::signed_duration_since` and reads the difference with
/// `TimeDelta::num_microseconds`.
///
/// Within the required range `from_timestamp` returns a date. With both
/// nanosecond parts below one second chrono applies no leap-second
/// correction, so the difference is the exact number of nanoseconds between
/// the two. `num_microseconds` counts the whole microseconds in it, dropping
/// the rest towards zero, and overflows only beyond some 292,000 years, more
/// than any two instants in range are apart.
#[verifier::external_body]
fn chrono_micros_between(
    start_secs: i64,
    start_nanos: u32,
    end_secs: i64,
    end_nanos: u32,
) -> (micros: i64)
    requires
        MIN_SECS <= start_secs <= MAX_SECS,
        start_nanos < NANOS_PER_SEC,
        MIN_SECS <= end_secs <= MAX_SECS,
        end_nanos < NANOS_PER_SEC,
    ensures
        micros == elapsed_micros(
            start_secs as int,
            start_nanos as int,
            end_secs as int,
            end_nanos as int,
        ),
{
    let start = chrono::DateTime::from_timestamp(start_secs, start_nanos).unwrap();
    let end = chrono::DateTime::from_timestamp(end_secs, end_nanos).unwrap();
    end.signed_duration_since(start).num_microseconds().unwrap()
}

impl Timestamp {
    /// Whole seconds since the Unix epoch; negative before it.
    pub closed spec fn secs(self) -> i64 {
        self.secs
    }

    /// Nanoseconds since the last whole second.
    pub closed spec fn nanos(self) -> u32 {
        self.nanos
    }

    /// Every timestamp lies between the years 0 and 9999, and its
    /// nanoseconds stay below one second.
    #[verifier::type_invariant]
    pub closed spec fn in_range(self) -> bool {
        &&& MIN_SECS <= self.secs <= MAX_SECS
        &&& self.nanos < NANOS_PER_SEC
    }

    /// The instant `secs` seconds and `nanos` nanoseconds after the Unix
    /// epoch, if it lies within the years 0 to 9999 and `nanos` is less
    /// than a second.
    pub fn new(secs: i64, nanos: u32) -> (timestamp: Option<Timestamp>)
        ensures
            timestamp is Some <==> MIN_SECS <= secs <= MAX_SECS && nanos < NANOS_PER_SEC,
            timestamp matches Some(t) ==> t.secs() == secs && t.nanos() == nanos && t.in_range(),
    {
        if MIN_SECS <= secs && secs <= MAX_SECS && nanos < NANOS_PER_SEC {
            Some(Timestamp { secs, nanos })
        } else {
            None
        }
    }

    /// Whole seconds since the Unix epoch.
    pub fn unix_seconds(&self) -> (secs: i64)
        ensures
            secs == self.secs(),
            MIN_SECS <= secs <= MAX_SECS,
    {
        proof {
            use_type_invariant(self);
        }
        self.secs
    }

    /// Nanoseconds since the last whole second.
    pub fn subsec_nanos(&self) -> (nanos: u32)
        ensures
            nanos == self.nanos(),
            nanos < NANOS_PER_SEC,
    {
        proof {
            use_type_invariant(self);
        }
        self.nanos
    }

    /// The instant in the access-log date format.
    pub fn clf_text(&self) -> (text: String)
        ensures
            text@ == clf_timestamp(self.secs(), self.nanos()),
    {
        proof {
            use_type_invariant(self);
        }
        chrono_clf_timestamp(self.secs, self.nanos)
    }

    /// The whole microseconds from this instant to `later`.
    pub fn micros_until(&self, later: &Timestamp) -> (micros: i64)
        ensures
            micros == micros_between(*self, *later),
    {
        proof {
            use_type_invariant(self);
            use_type_invariant(later);
        }
        chrono_micros_between(self.secs, self.nanos, later.secs, later.nanos)
    }
}

} // verus!

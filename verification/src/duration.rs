//! Human-scaled text of a request's latency.
//!
//! A latency measured in microseconds is shown in one of three units, so
//! that fast requests are not rendered as fractions of a millisecond and
//! slow ones get a comparable scale:
//!
//! | latency                   | text                         |
//! |---------------------------|------------------------------|
//! | below 1,000 µs            | whole microseconds, `42µs`   |
//! | 1,000 µs to 999,999 µs    | milliseconds, `1.50ms`       |
//! | 1,000,000 µs and more     | seconds, `2.50s`             |
//!
//! Milliseconds and seconds are shown with two decimal places, rounded to
//! the nearest hundredth, halves up.

use crate::decimal::{
    hundredths_text, push_hundredths, push_signed_decimal, signed_decimal_text,
};
use vstd::prelude::*;
use vstd::string::StringExecFns;

verus! {

/// The unit in which a latency is shown.
pub enum DurationUnit {
    Micros,
    Millis,
    Seconds,
}

impl DurationUnit {
    /// The length of one unit, in microseconds.
    pub open spec fn micros(self) -> int {
        match self {
            DurationUnit::Micros => 1,
            DurationUnit::Millis => 1_000,
            DurationUnit::Seconds => 1_000_000,
        }
    }

    /// The unit's abbreviation, as it follows the amount.
    pub open spec fn suffix(self) -> Seq<char> {
        match self {
            DurationUnit::Micros => seq!['\u{b5}', 's'],
            DurationUnit::Millis => seq!['m', 's'],
            DurationUnit::Seconds => seq!['s'],
        }
    }
}

/// The unit in which a latency of `micros` microseconds is shown.
pub open spec fn duration_unit(micros: int) -> DurationUnit {
    if micros < 1_000 {
        DurationUnit::Micros
    } else if micros < 1_000_000 {
        DurationUnit::Millis
    } else {
        DurationUnit::Seconds
    }
}

/// The amount shown for a latency of `micros` microseconds: whole
/// microseconds in the first tier, otherwise hundredths of the unit, rounded
/// to the nearest with halves up.
pub open spec fn duration_amount(micros: int) -> int {
    match duration_unit(micros) {
        DurationUnit::Micros => micros,
        DurationUnit::Millis => (micros + 5) / 10,
        DurationUnit::Seconds => (micros + 5_000) / 10_000,
    }
}

/// The latency that the text of `micros` denotes, in microseconds.
pub open spec fn denoted_micros(micros: int) -> int {
    match duration_unit(micros) {
        DurationUnit::Micros => duration_amount(micros),
        DurationUnit::Millis => duration_amount(micros) * 10,
        DurationUnit::Seconds => duration_amount(micros) * 10_000,
    }
}

/// The text of a latency of `micros` microseconds: the amount, then the
/// unit, with nothing in between.
pub open spec fn duration_text(micros: int) -> Seq<char> {
    match duration_unit(micros) {
        DurationUnit::Micros => signed_decimal_text(micros) + DurationUnit::Micros.suffix(),
        DurationUnit::Millis => hundredths_text(duration_amount(micros) as nat)
            + DurationUnit::Millis.suffix(),
        DurationUnit::Seconds => hundredths_text(duration_amount(micros) as nat)
            + DurationUnit::Seconds.suffix(),
    }
}

/// Appends the text of a latency of `micros` microseconds to `out`.
pub fn push_duration(out: &mut String, micros: i64)
    ensures
        final(out)@ == old(out)@ + duration_text(micros as int),
{
    proof {
        reveal_strlit("\u{b5}s");
        reveal_strlit("ms");
        reveal_strlit("s");
    }
    if micros < 1_000 {
        push_signed_decimal(out, micros);
        out.append("\u{b5}s");
    } else if micros < 1_000_000 {
        push_hundredths(out, (micros as u64 + 5) / 10);
        out.append("ms");
    } else {
        push_hundredths(out, (micros as u64 + 5_000) / 10_000);
        out.append("s");
    }
}

/// The text of a latency of `micros` microseconds.
pub fn format_duration(micros: i64) -> (text: String)
    ensures
        text@ == duration_text(micros as int),
{
    let mut text = String::new();
    push_duration(&mut text, micros);
    text
}

/// Latency text is monotonic: a longer latency is never shown in a smaller
/// unit, never with a smaller amount in the same unit, and never denotes a
/// shorter time, across the tiers as within them.
pub proof fn law_duration_monotonic(shorter: int, longer: int)
    requires
        shorter <= longer,
    ensures
        duration_unit(shorter).micros() <= duration_unit(longer).micros(),
        duration_unit(shorter) == duration_unit(longer) ==> duration_amount(shorter)
            <= duration_amount(longer),
        denoted_micros(shorter) <= denoted_micros(longer),
{
}

} // verus!

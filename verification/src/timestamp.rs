//! Timestamps from the host's monotonic high-resolution counter.
//!
//! The host hands out a tick count and a constant ticks-per-second
//! frequency; a timestamp is the elapsed time they encode, held exactly
//! as whole microseconds since the counter's arbitrary epoch.

use vstd::prelude::*;
use vstd::arithmetic::div_mod::lemma_div_is_ordered;

verus! {

/// Microseconds in one second.
pub const MICROS_PER_SECOND: u64 = 1_000_000;

/// The whole microseconds a tick count stands for at a given frequency.
pub open spec fn micros_of(counter: int, freq: int) -> int
    recommends
        0 < freq,
{
    counter * MICROS_PER_SECOND / freq
}

/// Converts a counter reading to microseconds. The host guarantees a
/// non-negative counter; a zero or negative frequency means the timer is
/// unusable, which callers must treat as a fatal configuration error
/// before coming here.
pub fn timestamp_micros(counter: i64, freq: i64) -> (m: u128)
    requires
        0 <= counter,
        0 < freq,
    ensures
        m == micros_of(counter as int, freq as int),
{
    let ticks = counter as u128;
    let f = freq as u128;
    let product = ticks * (MICROS_PER_SECOND as u128);
    product / f
}

/// Timestamps never run backwards: a later (not smaller) counter reading
/// never yields a smaller timestamp, at any fixed positive frequency.
pub proof fn lemma_timestamp_monotonic(c1: int, c2: int, freq: int)
    requires
        c1 <= c2,
        0 < freq,
    ensures
        micros_of(c1, freq) <= micros_of(c2, freq),
{
    assert(c1 * MICROS_PER_SECOND <= c2 * MICROS_PER_SECOND);
    lemma_div_is_ordered(c1 * MICROS_PER_SECOND, c2 * MICROS_PER_SECOND, freq);
}

/// A timestamp from a non-negative counter is itself non-negative.
pub proof fn lemma_timestamp_non_negative(counter: int, freq: int)
    requires
        0 <= counter,
        0 < freq,
    ensures
        0 <= micros_of(counter, freq),
{
    lemma_div_is_ordered(0, counter * MICROS_PER_SECOND, freq);
}

/// A timestamp never exceeds the microseconds the bare tick count would
/// give at frequency one.
pub proof fn lemma_timestamp_bounded(counter: int, freq: int)
    requires
        0 <= counter,
        0 < freq,
    ensures
        0 <= micros_of(counter, freq) <= counter * MICROS_PER_SECOND,
{
    lemma_div_is_ordered(0, counter * MICROS_PER_SECOND, freq);
    vstd::arithmetic::div_mod::lemma_div_is_ordered_by_denominator(
        counter * MICROS_PER_SECOND,
        1,
        freq,
    );
    vstd::arithmetic::div_mod::lemma_div_basics(counter * MICROS_PER_SECOND);
}

} // verus!

//! The body of one input-notification callback: accept or drop the
//! fetched record, decode it, stamp it, and render its output line.
//!
//! The host's message loop and the fetch itself live outside the
//! library; they hand in the first-phase size, the fetched bytes with
//! the second-phase byte count, and a counter reading with its
//! frequency, and take back the line to print, if the record yielded
//! an event.

use vstd::prelude::*;

use crate::decode::decode_fetched;
use crate::decode::spec_decode_fetched;
use crate::event::DecodeError;
use crate::event::EventData;
use crate::event::RawInputEvent;
use crate::format::format_event_line;
use crate::format::spec_event_line;
use crate::timestamp::lemma_timestamp_bounded;
use crate::timestamp::lemma_timestamp_monotonic;
use crate::timestamp::micros_of;
use crate::timestamp::timestamp_micros;

verus! {

/// What one notification must come to, given the fetched bytes and the
/// counter reading: a stamped event, nothing for a foreign tag, or the
/// error the record is dropped for.
pub open spec fn spec_decode_and_stamp(
    expected: u32,
    written: u32,
    b: Seq<u8>,
    counter: int,
    freq: int,
) -> Result<Option<RawInputEvent>, DecodeError>
    recommends
        0 <= counter,
        0 < freq,
{
    match spec_decode_fetched(expected, written, b) {
        Ok(Some(d)) => Ok(
            Some(
                RawInputEvent {
                    data: d,
                    timestamp_micros: micros_of(counter, freq) as u128,
                },
            ),
        ),
        Ok(None) => Ok(None),
        Err(e) => Err(e),
    }
}

/// Stamped events never run backwards: of two records whose counter
/// readings are in delivery order (the counter is monotonic, so records
/// observed later carry a reading at least as large), whatever the
/// records hold, the events they yield carry non-decreasing timestamps.
pub proof fn lemma_stamped_events_monotonic(
    expected1: u32,
    written1: u32,
    b1: Seq<u8>,
    c1: int,
    expected2: u32,
    written2: u32,
    b2: Seq<u8>,
    c2: int,
    freq: int,
)
    requires
        0 <= c1 <= c2 <= i64::MAX,
        0 < freq,
    ensures
        spec_decode_and_stamp(expected1, written1, b1, c1, freq) matches Ok(Some(e1)) ==> (
        spec_decode_and_stamp(expected2, written2, b2, c2, freq) matches Ok(Some(e2))
            ==> e1.timestamp_micros <= e2.timestamp_micros),
{
    lemma_timestamp_bounded(c1, freq);
    lemma_timestamp_bounded(c2, freq);
    lemma_timestamp_monotonic(c1, c2, freq);
}

/// Runs the two-phase acceptance rule and the decoder on one fetched
/// record, and stamps the event, if any, with the timestamp the counter
/// reading stands for. The timestamp is read once per decoded record,
/// not once per field.
pub fn decode_and_stamp(
    expected: u32,
    written: u32,
    buf: &Vec<u8>,
    counter: i64,
    freq: i64,
) -> (r: Result<Option<RawInputEvent>, DecodeError>)
    requires
        0 <= counter,
        0 < freq,
    ensures
        r == spec_decode_and_stamp(expected, written, buf@, counter as int, freq as int),
{
    match decode_fetched(expected, written, buf) {
        Ok(Some(d)) => {
            let micros = timestamp_micros(counter, freq);
            Ok(Some(RawInputEvent { data: d, timestamp_micros: micros }))
        },
        Ok(None) => Ok(None),
        Err(e) => Err(e),
    }
}

/// Handles one raw-input notification end to end: exactly the records
/// the decoder turns into an event come back as their output line, with
/// the timestamp of the given counter reading; a dropped record (size
/// mismatch, truncation, foreign tag) comes back as nothing, and leaves
/// later records untouched, since nothing is carried between calls.
pub fn handle_input_record(
    expected: u32,
    written: u32,
    buf: &Vec<u8>,
    counter: i64,
    freq: i64,
) -> (r: Option<String>)
    requires
        0 <= counter,
        0 < freq,
    ensures
        match spec_decode_fetched(expected, written, buf@) {
            Ok(Some(d)) => r matches Some(line) && line@ == spec_event_line(
                d,
                micros_of(counter as int, freq as int) as nat,
            ),
            Ok(None) => r is None,
            Err(_) => r is None,
        },
{
    proof {
        lemma_timestamp_bounded(counter as int, freq as int);
    }
    match decode_and_stamp(expected, written, buf, counter, freq) {
        Ok(Some(e)) => Some(format_event_line(&e.data, e.timestamp_micros)),
        _ => None,
    }
}

} // verus!

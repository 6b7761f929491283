//! The decoded shape of one raw-input record, and the errors a decode
//! attempt can end in.

use vstd::prelude::*;

verus! {

/// Fields of one keyboard record, copied verbatim from the record.
#[derive(Clone, Copy, Debug, PartialEq, Eq, Structural)]
pub struct KeyboardData {
    /// Scan code ("make code") of the key.
    pub make_code: u16,
    /// Flag bitmask of the keystroke.
    pub flags: u16,
    /// Virtual-key code.
    pub vkey: u16,
    /// Message code of the keystroke notification.
    pub message: u32,
}

/// Fields of one mouse record, copied verbatim from the record.
#[derive(Clone, Copy, Debug, PartialEq, Eq, Structural)]
pub struct MouseData {
    /// Relative displacement along X since the last record.
    pub last_x: i32,
    /// Relative displacement along Y since the last record.
    pub last_y: i32,
    /// Button-transition bitmask, read from the transition member of the
    /// record's button union, never from the absolute-state member.
    pub button_flags: u16,
}

/// The device-specific payload of one decoded record.
#[derive(Clone, Copy, Debug, PartialEq, Eq, Structural)]
pub enum EventData {
    Keyboard(KeyboardData),
    Mouse(MouseData),
}

/// Why a record yielded no event. Either way the record is dropped and
/// the stream of later records goes on untouched.
#[derive(Clone, Copy, Debug, PartialEq, Eq, Structural)]
pub enum DecodeError {
    /// The second-phase fetch reported a byte count different from the
    /// first-phase size query: the record is stale or changed size.
    SizeMismatch,
    /// The buffer is too short to hold the header, or the payload the
    /// header's tag announces.
    Truncated,
}

/// One decoded event together with the monotonic timestamp taken at
/// decode time, in microseconds since the counter's epoch.
#[derive(Clone, Copy, Debug, PartialEq, Eq, Structural)]
pub struct RawInputEvent {
    pub data: EventData,
    pub timestamp_micros: u128,
}

} // verus!

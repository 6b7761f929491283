//! Interpreting a fetched raw-input record.
//!
//! A record is a byte buffer: a fixed-size header whose leading word is a
//! little-endian device-type tag, followed by a device-specific payload.
//! The keyboard and mouse payload layouts are fixed; the mouse button
//! word is a union whose transition member (a 16-bit word) overlaps the
//! absolute-state member (a 32-bit word): only the transition member is
//! read.

use vstd::prelude::*;

use crate::event::DecodeError;
use crate::event::EventData;
use crate::event::KeyboardData;
use crate::event::MouseData;

verus! {

/// Device-type tag of a mouse record.
pub const TAG_MOUSE: u32 = 0;

/// Device-type tag of a keyboard record.
pub const TAG_KEYBOARD: u32 = 1;

/// Bytes of the fixed record header: tag word, size word, and two
/// pointer-sized words (device handle, message payload).
pub const HEADER_LEN: usize = 24;

/// Total bytes of a keyboard record: the header and a 16-byte payload.
pub const KEYBOARD_RECORD_LEN: usize = 40;

/// Total bytes of a mouse record: the header and a 24-byte payload.
pub const MOUSE_RECORD_LEN: usize = 48;

/// Byte offset of the keyboard make code within the record.
pub const KEYBOARD_MAKE_CODE_AT: usize = 24;

/// Byte offset of the keyboard flag bitmask within the record.
pub const KEYBOARD_FLAGS_AT: usize = 26;

/// Byte offset of the keyboard virtual-key code within the record.
pub const KEYBOARD_VKEY_AT: usize = 30;

/// Byte offset of the keyboard message code within the record.
pub const KEYBOARD_MESSAGE_AT: usize = 32;

/// Byte offset of the mouse button union within the record. The
/// transition member is the 16-bit word here; the absolute-state member
/// is the 32-bit word at the same offset.
pub const MOUSE_BUTTON_FLAGS_AT: usize = 28;

/// Byte offset of the mouse X displacement within the record.
pub const MOUSE_LAST_X_AT: usize = 36;

/// Byte offset of the mouse Y displacement within the record.
pub const MOUSE_LAST_Y_AT: usize = 40;

/// The 16-bit little-endian value at offset `i` of `b`.
pub open spec fn le16_at(b: Seq<u8>, i: int) -> u16
    recommends
        0 <= i,
        i + 2 <= b.len(),
{
    (b[i] + 0x100 * b[i + 1]) as u16
}

/// The 32-bit little-endian value at offset `i` of `b`.
pub open spec fn le32_at(b: Seq<u8>, i: int) -> u32
    recommends
        0 <= i,
        i + 4 <= b.len(),
{
    (b[i] + 0x100 * b[i + 1] + 0x10000 * b[i + 2] + 0x1000000 * b[i + 3]) as u32
}

/// The value of a 32-bit word reinterpreted as two's-complement signed.
pub open spec fn as_signed32(u: u32) -> int {
    if u >= 0x8000_0000 {
        u - 0x1_0000_0000
    } else {
        u as int
    }
}

/// What decoding a fetched buffer yields: the keyboard or mouse payload
/// fields verbatim, no event for a foreign tag, an error for a buffer
/// too short for what it claims to hold.
pub open spec fn spec_decode(b: Seq<u8>) -> Result<Option<EventData>, DecodeError> {
    if b.len() < HEADER_LEN {
        Err(DecodeError::Truncated)
    } else if le32_at(b, 0) == TAG_KEYBOARD {
        if b.len() < KEYBOARD_RECORD_LEN {
            Err(DecodeError::Truncated)
        } else {
            Ok(
                Some(
                    EventData::Keyboard(
                        KeyboardData {
                            make_code: le16_at(b, KEYBOARD_MAKE_CODE_AT as int),
                            flags: le16_at(b, KEYBOARD_FLAGS_AT as int),
                            vkey: le16_at(b, KEYBOARD_VKEY_AT as int),
                            message: le32_at(b, KEYBOARD_MESSAGE_AT as int),
                        },
                    ),
                ),
            )
        }
    } else if le32_at(b, 0) == TAG_MOUSE {
        if b.len() < MOUSE_RECORD_LEN {
            Err(DecodeError::Truncated)
        } else {
            Ok(
                Some(
                    EventData::Mouse(
                        MouseData {
                            last_x: as_signed32(le32_at(b, MOUSE_LAST_X_AT as int)) as i32,
                            last_y: as_signed32(le32_at(b, MOUSE_LAST_Y_AT as int)) as i32,
                            button_flags: le16_at(b, MOUSE_BUTTON_FLAGS_AT as int),
                        },
                    ),
                ),
            )
        }
    } else {
        Ok(None)
    }
}

/// The two-phase fetch protocol's acceptance rule: a record whose
/// second-phase byte count differs from the first-phase size query is
/// dropped without a decode attempt; otherwise the buffer is decoded.
pub open spec fn spec_decode_fetched(expected: u32, written: u32, b: Seq<u8>) -> Result<
    Option<EventData>,
    DecodeError,
> {
    if written != expected {
        Err(DecodeError::SizeMismatch)
    } else {
        spec_decode(b)
    }
}

/// Reads the 16-bit little-endian value at offset `i`.
fn read_u16(buf: &Vec<u8>, i: usize) -> (r: u16)
    requires
        i + 2 <= buf@.len(),
    ensures
        r == le16_at(buf@, i as int),
{
    let _n = buf.len();
    buf[i] as u16 + 0x100 * (buf[i + 1] as u16)
}

/// Reads the 32-bit little-endian value at offset `i`.
fn read_u32(buf: &Vec<u8>, i: usize) -> (r: u32)
    requires
        i + 4 <= buf@.len(),
    ensures
        r == le32_at(buf@, i as int),
{
    let _n = buf.len();
    buf[i] as u32 + 0x100 * (buf[i + 1] as u32) + 0x10000 * (buf[i + 2] as u32) + 0x1000000 * (buf[
        i + 3
    ] as u32)
}

/// Reads the 32-bit word at offset `i` as a two's-complement signed value.
fn read_i32(buf: &Vec<u8>, i: usize) -> (r: i32)
    requires
        i + 4 <= buf@.len(),
    ensures
        r as int == as_signed32(le32_at(buf@, i as int)),
{
    let u = read_u32(buf, i);
    let wide: i64 = u as i64;
    let signed: i64 = if wide >= 0x8000_0000 {
        wide - 0x1_0000_0000
    } else {
        wide
    };
    signed as i32
}

/// Decodes one fetched record buffer: reads the header tag, then the
/// payload fields of the tagged device, verbatim and untransformed.
pub fn decode_record(buf: &Vec<u8>) -> (r: Result<Option<EventData>, DecodeError>)
    ensures
        r == spec_decode(buf@),
{
    if buf.len() < HEADER_LEN {
        return Err(DecodeError::Truncated);
    }
    let tag = read_u32(buf, 0);
    if tag == TAG_KEYBOARD {
        if buf.len() < KEYBOARD_RECORD_LEN {
            Err(DecodeError::Truncated)
        } else {
            Ok(
                Some(
                    EventData::Keyboard(
                        KeyboardData {
                            make_code: read_u16(buf, KEYBOARD_MAKE_CODE_AT),
                            flags: read_u16(buf, KEYBOARD_FLAGS_AT),
                            vkey: read_u16(buf, KEYBOARD_VKEY_AT),
                            message: read_u32(buf, KEYBOARD_MESSAGE_AT),
                        },
                    ),
                ),
            )
        }
    } else if tag == TAG_MOUSE {
        if buf.len() < MOUSE_RECORD_LEN {
            Err(DecodeError::Truncated)
        } else {
            Ok(
                Some(
                    EventData::Mouse(
                        MouseData {
                            last_x: read_i32(buf, MOUSE_LAST_X_AT),
                            last_y: read_i32(buf, MOUSE_LAST_Y_AT),
                            button_flags: read_u16(buf, MOUSE_BUTTON_FLAGS_AT),
                        },
                    ),
                ),
            )
        }
    } else {
        Ok(None)
    }
}

/// Appends the two little-endian bytes of `x`.
fn push_u16_le(out: &mut Vec<u8>, x: u16)
    ensures
        final(out)@ == old(out)@ + seq![(x % 0x100) as u8, (x / 0x100) as u8],
{
    out.push((x % 0x100) as u8);
    out.push((x / 0x100) as u8);
    proof {
        assert(final(out)@ =~= old(out)@ + seq![(x % 0x100) as u8, (x / 0x100) as u8]);
    }
}

/// Appends the four little-endian bytes of `x`.
fn push_u32_le(out: &mut Vec<u8>, x: u32)
    ensures
        final(out)@ == old(out)@ + seq![
            (x % 0x100) as u8,
            ((x / 0x100) % 0x100) as u8,
            ((x / 0x10000) % 0x100) as u8,
            (x / 0x1000000) as u8,
        ],
{
    out.push((x % 0x100) as u8);
    out.push(((x / 0x100) % 0x100) as u8);
    out.push(((x / 0x10000) % 0x100) as u8);
    out.push((x / 0x1000000) as u8);
    proof {
        assert(final(out)@ =~= old(out)@ + seq![
            (x % 0x100) as u8,
            ((x / 0x100) % 0x100) as u8,
            ((x / 0x10000) % 0x100) as u8,
            (x / 0x1000000) as u8,
        ]);
    }
}

/// Appends the four little-endian bytes of the two's-complement image
/// of `x`.
fn push_i32_le(out: &mut Vec<u8>, x: i32)
    ensures
        final(out)@.len() == old(out)@.len() + 4,
        forall|j: int| 0 <= j < old(out)@.len() ==> final(out)@[j] == old(out)@[j],
        as_signed32(le32_at(final(out)@, old(out)@.len() as int)) == x as int,
{
    let image: u32 = if x >= 0 {
        x as u32
    } else {
        let wide: i64 = x as i64 + 0x1_0000_0000;
        wide as u32
    };
    proof {
        assert(as_signed32(image) == x as int);
    }
    push_u32_le(out, image);
    proof {
        assert(le32_at(final(out)@, old(out)@.len() as int) == image);
    }
}

/// Builds a keyboard record whose payload holds exactly the given
/// fields: decoding it gives the fields back verbatim.
pub fn encode_keyboard_record(k: &KeyboardData) -> (buf: Vec<u8>)
    ensures
        buf@.len() == KEYBOARD_RECORD_LEN,
        spec_decode(buf@) == Ok::<Option<EventData>, DecodeError>(Some(EventData::Keyboard(*k))),
{
    let mut buf: Vec<u8> = Vec::new();
    push_u32_le(&mut buf, TAG_KEYBOARD);
    push_u32_le(&mut buf, KEYBOARD_RECORD_LEN as u32);
    push_u32_le(&mut buf, 0);
    push_u32_le(&mut buf, 0);
    push_u32_le(&mut buf, 0);
    push_u32_le(&mut buf, 0);
    push_u16_le(&mut buf, k.make_code);
    push_u16_le(&mut buf, k.flags);
    push_u16_le(&mut buf, 0);
    push_u16_le(&mut buf, k.vkey);
    push_u32_le(&mut buf, k.message);
    push_u32_le(&mut buf, 0);
    proof {
        assert(le32_at(buf@, 0) == TAG_KEYBOARD);
        assert(le16_at(buf@, KEYBOARD_MAKE_CODE_AT as int) == k.make_code);
        assert(le16_at(buf@, KEYBOARD_FLAGS_AT as int) == k.flags);
        assert(le16_at(buf@, KEYBOARD_VKEY_AT as int) == k.vkey);
        assert(le32_at(buf@, KEYBOARD_MESSAGE_AT as int) == k.message);
    }
    buf
}

/// Builds a mouse record whose payload holds exactly the given fields.
/// The other half of the button union and the absolute button-state
/// word are set freely by the caller, and decoding still gives the
/// fields back verbatim: the button flags come from the transition
/// member alone.
pub fn encode_mouse_record(m: &MouseData, button_data: u16, raw_buttons: u32) -> (buf: Vec<u8>)
    ensures
        buf@.len() == MOUSE_RECORD_LEN,
        spec_decode(buf@) == Ok::<Option<EventData>, DecodeError>(Some(EventData::Mouse(*m))),
{
    let mut buf: Vec<u8> = Vec::new();
    push_u32_le(&mut buf, TAG_MOUSE);
    push_u32_le(&mut buf, MOUSE_RECORD_LEN as u32);
    push_u32_le(&mut buf, 0);
    push_u32_le(&mut buf, 0);
    push_u32_le(&mut buf, 0);
    push_u32_le(&mut buf, 0);
    push_u16_le(&mut buf, 0);
    push_u16_le(&mut buf, 0);
    push_u16_le(&mut buf, m.button_flags);
    push_u16_le(&mut buf, button_data);
    push_u32_le(&mut buf, raw_buttons);
    push_i32_le(&mut buf, m.last_x);
    push_i32_le(&mut buf, m.last_y);
    push_u32_le(&mut buf, 0);
    proof {
        assert(le32_at(buf@, 0) == TAG_MOUSE);
        assert(le16_at(buf@, MOUSE_BUTTON_FLAGS_AT as int) == m.button_flags);
        assert(as_signed32(le32_at(buf@, MOUSE_LAST_X_AT as int)) == m.last_x as int);
        assert(as_signed32(le32_at(buf@, MOUSE_LAST_Y_AT as int)) == m.last_y as int);
    }
    buf
}

/// A decoded keyboard event's fields are the record's bytes read in
/// place, verbatim: no transformation stands between record and event.
pub proof fn lemma_keyboard_fields_verbatim(b: Seq<u8>)
    requires
        b.len() >= KEYBOARD_RECORD_LEN,
        le32_at(b, 0) == TAG_KEYBOARD,
    ensures
        spec_decode(b) == Ok::<Option<EventData>, DecodeError>(
            Some(
                EventData::Keyboard(
                    KeyboardData {
                        make_code: le16_at(b, KEYBOARD_MAKE_CODE_AT as int),
                        flags: le16_at(b, KEYBOARD_FLAGS_AT as int),
                        vkey: le16_at(b, KEYBOARD_VKEY_AT as int),
                        message: le32_at(b, KEYBOARD_MESSAGE_AT as int),
                    },
                ),
            ),
        ),
{
}

/// A decoded mouse event's fields are the record's bytes read in place:
/// signed displacements, and the button flags from the 16-bit transition
/// member of the button union.
pub proof fn lemma_mouse_fields_verbatim(b: Seq<u8>)
    requires
        b.len() >= MOUSE_RECORD_LEN,
        le32_at(b, 0) == TAG_MOUSE,
    ensures
        spec_decode(b) == Ok::<Option<EventData>, DecodeError>(
            Some(
                EventData::Mouse(
                    MouseData {
                        last_x: as_signed32(le32_at(b, MOUSE_LAST_X_AT as int)) as i32,
                        last_y: as_signed32(le32_at(b, MOUSE_LAST_Y_AT as int)) as i32,
                        button_flags: le16_at(b, MOUSE_BUTTON_FLAGS_AT as int),
                    },
                ),
            ),
        ),
{
}

/// Two mouse records that agree on tag, displacements and the button
/// union's transition member decode alike, however much the rest of the
/// union and the absolute button-state word differ: the absolute-state
/// member is never read.
pub proof fn lemma_mouse_decode_ignores_absolute_state(b1: Seq<u8>, b2: Seq<u8>)
    requires
        b1.len() >= MOUSE_RECORD_LEN,
        b2.len() >= MOUSE_RECORD_LEN,
        le32_at(b1, 0) == TAG_MOUSE,
        le32_at(b2, 0) == TAG_MOUSE,
        le16_at(b1, MOUSE_BUTTON_FLAGS_AT as int) == le16_at(b2, MOUSE_BUTTON_FLAGS_AT as int),
        le32_at(b1, MOUSE_LAST_X_AT as int) == le32_at(b2, MOUSE_LAST_X_AT as int),
        le32_at(b1, MOUSE_LAST_Y_AT as int) == le32_at(b2, MOUSE_LAST_Y_AT as int),
    ensures
        spec_decode(b1) == spec_decode(b2),
{
}

/// Applies the two-phase acceptance rule, then decodes: the explicit
/// `size query -> buffer -> decode` pipeline for one record.
pub fn decode_fetched(expected: u32, written: u32, buf: &Vec<u8>) -> (r: Result<
    Option<EventData>,
    DecodeError,
>)
    ensures
        r == spec_decode_fetched(expected, written, buf@),
{
    if written != expected {
        Err(DecodeError::SizeMismatch)
    } else {
        decode_record(buf)
    }
}

} // verus!

use raw_input_capture::DecodeError;
use raw_input_capture::EventData;
use raw_input_capture::KeyboardData;
use raw_input_capture::MouseData;
use raw_input_capture::decode_fetched;
use raw_input_capture::decode_record;
use raw_input_capture::encode_keyboard_record;
use raw_input_capture::encode_mouse_record;
use raw_input_capture::handle_input_record;

fn keyboard(vkey: u16, message: u32, make_code: u16, flags: u16) -> KeyboardData {
    KeyboardData { make_code, flags, vkey, message }
}

fn mouse(last_x: i32, last_y: i32, button_flags: u16) -> MouseData {
    MouseData { last_x, last_y, button_flags }
}

#[test]
fn keyboard_fields_verbatim() {
    let k = keyboard(0x41, 0x0100, 0x1E, 0xC0DE);
    let buf = encode_keyboard_record(&k);
    assert_eq!(buf.len(), 40);
    assert_eq!(decode_record(&buf), Ok(Some(EventData::Keyboard(k))));
}

#[test]
fn keyboard_extreme_fields_verbatim() {
    let k = keyboard(0xFFFF, 0xFFFF_FFFF, 0x0000, 0xFFFF);
    let buf = encode_keyboard_record(&k);
    assert_eq!(decode_record(&buf), Ok(Some(EventData::Keyboard(k))));
}

#[test]
fn mouse_fields_verbatim() {
    let m = mouse(-5, 10, 0x0001);
    let buf = encode_mouse_record(&m, 0, 0);
    assert_eq!(buf.len(), 48);
    assert_eq!(decode_record(&buf), Ok(Some(EventData::Mouse(m))));
}

#[test]
fn mouse_deltas_are_signed() {
    let m = mouse(i32::MIN, i32::MAX, 0x0002);
    let buf = encode_mouse_record(&m, 0, 0);
    assert_eq!(decode_record(&buf), Ok(Some(EventData::Mouse(m))));
}

#[test]
fn mouse_flags_from_transition_member_only() {
    // The same transition member with two very different values in the
    // rest of the button union and in the absolute-state word: the
    // decoded flags must come from the transition member alone.
    let m = mouse(3, -4, 0x0001);
    let plain = encode_mouse_record(&m, 0x0000, 0x0000_0000);
    let noisy = encode_mouse_record(&m, 0xFFFF, 0xFFFF_FFFF);
    assert_eq!(decode_record(&plain), Ok(Some(EventData::Mouse(m))));
    assert_eq!(decode_record(&noisy), Ok(Some(EventData::Mouse(m))));
    assert_eq!(decode_record(&plain), decode_record(&noisy));
}

#[test]
fn size_mismatch_drops_record() {
    let k = keyboard(0x41, 0x0100, 0x1E, 0x0000);
    let buf = encode_keyboard_record(&k);
    assert_eq!(decode_fetched(40, 44, &buf), Err(DecodeError::SizeMismatch));
    assert_eq!(handle_input_record(40, 44, &buf, 0, 1), None);
    // The same buffer with matching counts decodes normally.
    assert_eq!(decode_fetched(40, 40, &buf), Ok(Some(EventData::Keyboard(k))));
}

#[test]
fn mismatch_leaves_later_records_untouched() {
    let first = encode_keyboard_record(&keyboard(0x41, 0x0100, 0x1E, 0x0000));
    let second = encode_keyboard_record(&keyboard(0x42, 0x0101, 0x30, 0x0001));
    let third = encode_mouse_record(&mouse(-5, 10, 0x0001), 0, 0);
    let freq: i64 = 1_000_000;
    let a = handle_input_record(40, 40, &first, 1_000_000, freq);
    let b = handle_input_record(40, 39, &second, 2_000_000, freq);
    let c = handle_input_record(48, 48, &third, 3_000_000, freq);
    assert_eq!(
        a.as_deref(),
        Some("Keyboard: VKey=0041, Message=0100, MakeCode=001e, Flags=0000, Timestamp=1.000000")
    );
    assert_eq!(b, None);
    assert_eq!(
        c.as_deref(),
        Some("Mouse: LastX=-5, LastY=10, ButtonFlags=0001, Timestamp=3.000000")
    );
}

#[test]
fn foreign_tag_yields_no_event_and_no_error() {
    let mut buf = encode_keyboard_record(&keyboard(0x41, 0x0100, 0x1E, 0x0000));
    // Overwrite the tag word with a device type that is neither the
    // keyboard tag nor the mouse tag.
    buf[0] = 2;
    assert_eq!(decode_record(&buf), Ok(None));
    assert_eq!(handle_input_record(40, 40, &buf, 0, 1), None);
}

#[test]
fn truncated_buffer_is_an_error() {
    // Too short for the header.
    let short: Vec<u8> = vec![1, 0, 0, 0, 40, 0, 0, 0];
    assert_eq!(decode_record(&short), Err(DecodeError::Truncated));
    // A full header with a keyboard tag, but not the keyboard payload.
    let mut headed = encode_keyboard_record(&keyboard(0x41, 0x0100, 0x1E, 0x0000));
    headed.truncate(30);
    assert_eq!(decode_record(&headed), Err(DecodeError::Truncated));
    // A mouse tag needs the longer mouse payload.
    let mut mouse_headed = encode_mouse_record(&mouse(0, 0, 0), 0, 0);
    mouse_headed.truncate(44);
    assert_eq!(decode_record(&mouse_headed), Err(DecodeError::Truncated));
}

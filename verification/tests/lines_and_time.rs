use raw_input_capture::DeviceRegistration;
use raw_input_capture::EventData;
use raw_input_capture::KeyboardData;
use raw_input_capture::MouseData;
use raw_input_capture::device_registrations;
use raw_input_capture::encode_keyboard_record;
use raw_input_capture::encode_mouse_record;
use raw_input_capture::format_event_line;
use raw_input_capture::handle_input_record;
use raw_input_capture::is_input_notification;
use raw_input_capture::timestamp_micros;
use raw_input_capture::FLAG_INPUT_SINK;
use raw_input_capture::FLAG_NO_LEGACY;
use raw_input_capture::USAGE_GENERIC_KEYBOARD;
use raw_input_capture::USAGE_GENERIC_MOUSE;
use raw_input_capture::USAGE_PAGE_GENERIC;
use raw_input_capture::WM_INPUT;

#[test]
fn keyboard_line_end_to_end() {
    let k = KeyboardData { make_code: 0x1E, flags: 0x0000, vkey: 0x41, message: 0x0100 };
    let buf = encode_keyboard_record(&k);
    // At one million ticks per second, 1234500 ticks are 1.234500 s.
    let line = handle_input_record(40, 40, &buf, 1_234_500, 1_000_000);
    assert_eq!(
        line.as_deref(),
        Some("Keyboard: VKey=0041, Message=0100, MakeCode=001e, Flags=0000, Timestamp=1.234500")
    );
}

#[test]
fn mouse_line_end_to_end() {
    let m = MouseData { last_x: -5, last_y: 10, button_flags: 0x0001 };
    let buf = encode_mouse_record(&m, 0, 0);
    let line = handle_input_record(48, 48, &buf, 100, 1_000_000);
    assert_eq!(
        line.as_deref(),
        Some("Mouse: LastX=-5, LastY=10, ButtonFlags=0001, Timestamp=0.000100")
    );
}

#[test]
fn zero_timestamp_line() {
    let k = KeyboardData { make_code: 0, flags: 0, vkey: 0, message: 0 };
    let line = format_event_line(&EventData::Keyboard(k), 0);
    assert_eq!(
        line,
        "Keyboard: VKey=0000, Message=0000, MakeCode=0000, Flags=0000, Timestamp=0.000000"
    );
}

#[test]
fn wide_hex_field_keeps_all_digits() {
    let k = KeyboardData { make_code: 0xABCD, flags: 0x000F, vkey: 0xFFFF, message: 0x12345 };
    let line = format_event_line(&EventData::Keyboard(k), 2_000_001);
    assert_eq!(
        line,
        "Keyboard: VKey=ffff, Message=12345, MakeCode=abcd, Flags=000f, Timestamp=2.000001"
    );
}

#[test]
fn extreme_mouse_deltas_line() {
    let m = MouseData { last_x: i32::MIN, last_y: i32::MAX, button_flags: 0xBEEF };
    let line = format_event_line(&EventData::Mouse(m), 59_999_999);
    assert_eq!(
        line,
        "Mouse: LastX=-2147483648, LastY=2147483647, ButtonFlags=beef, Timestamp=59.999999"
    );
}

#[test]
fn timestamp_division_is_exact_truncation() {
    // 3 ticks at 2 ticks per second: 1.5 s, exactly 1500000 us.
    assert_eq!(timestamp_micros(3, 2), 1_500_000);
    // 1 tick at 3 ticks per second truncates to whole microseconds.
    assert_eq!(timestamp_micros(1, 3), 333_333);
    assert_eq!(timestamp_micros(0, 10_000_000), 0);
}

#[test]
fn timestamps_non_decreasing_in_counter_order() {
    let freq: i64 = 10_000_000;
    let counters: [i64; 5] = [0, 1, 2, 999_999_937, i64::MAX];
    let mut previous: u128 = 0;
    for c in counters {
        let t = timestamp_micros(c, freq);
        assert!(t >= previous);
        previous = t;
    }
}

#[test]
fn registrations_cover_keyboard_and_mouse() {
    let regs = device_registrations();
    assert_eq!(regs.len(), 2);
    let expect_flags = FLAG_NO_LEGACY | FLAG_INPUT_SINK;
    let kb: &DeviceRegistration = &regs[0];
    assert_eq!(kb.usage_page, USAGE_PAGE_GENERIC);
    assert_eq!(kb.usage, USAGE_GENERIC_KEYBOARD);
    assert_eq!(kb.flags, expect_flags);
    let ms: &DeviceRegistration = &regs[1];
    assert_eq!(ms.usage_page, USAGE_PAGE_GENERIC);
    assert_eq!(ms.usage, USAGE_GENERIC_MOUSE);
    assert_eq!(ms.flags, expect_flags);
}

#[test]
fn only_input_notifications_are_decoded() {
    assert!(is_input_notification(WM_INPUT));
    assert!(!is_input_notification(0x0001));
    assert!(!is_input_notification(0));
}

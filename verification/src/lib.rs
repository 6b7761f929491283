//! Verified core of a raw-input capture tool: decoding variably-sized
//! keyboard and mouse input records, timestamping them from a monotonic
//! tick counter, and formatting one output line per event.
//!
//! The operating-system glue (window creation, device registration with
//! the host, the message loop) lives outside the library; the library
//! holds the data, the decisions and the computations, all verified.

pub mod callback;
pub mod decode;
pub mod event;
pub mod format;
pub mod registration;
pub mod timestamp;

pub use callback::decode_and_stamp;
pub use callback::handle_input_record;
pub use callback::lemma_stamped_events_monotonic;
pub use decode::HEADER_LEN;
pub use decode::KEYBOARD_FLAGS_AT;
pub use decode::KEYBOARD_MAKE_CODE_AT;
pub use decode::KEYBOARD_MESSAGE_AT;
pub use decode::KEYBOARD_RECORD_LEN;
pub use decode::KEYBOARD_VKEY_AT;
pub use decode::MOUSE_BUTTON_FLAGS_AT;
pub use decode::MOUSE_LAST_X_AT;
pub use decode::MOUSE_LAST_Y_AT;
pub use decode::MOUSE_RECORD_LEN;
pub use decode::TAG_KEYBOARD;
pub use decode::TAG_MOUSE;
pub use decode::decode_fetched;
pub use decode::decode_record;
pub use decode::encode_keyboard_record;
pub use decode::encode_mouse_record;
pub use decode::lemma_keyboard_fields_verbatim;
pub use decode::lemma_mouse_decode_ignores_absolute_state;
pub use decode::lemma_mouse_fields_verbatim;
pub use event::DecodeError;
pub use event::EventData;
pub use event::KeyboardData;
pub use event::MouseData;
pub use event::RawInputEvent;
pub use format::format_event_line;
pub use format::format_keyboard_line;
pub use format::format_mouse_line;
pub use registration::DeviceRegistration;
pub use registration::FLAG_INPUT_SINK;
pub use registration::FLAG_NO_LEGACY;
pub use registration::REGISTRATION_FLAGS;
pub use registration::USAGE_GENERIC_KEYBOARD;
pub use registration::USAGE_GENERIC_MOUSE;
pub use registration::USAGE_PAGE_GENERIC;
pub use registration::WM_INPUT;
pub use registration::device_registrations;
pub use registration::is_input_notification;
pub use timestamp::MICROS_PER_SECOND;
pub use timestamp::lemma_timestamp_monotonic;
pub use timestamp::lemma_timestamp_non_negative;
pub use timestamp::timestamp_micros;

//! Rendering one decoded event as its output line.
//!
//! Hexadecimal fields are zero-padded to four digits (wider values keep
//! all their digits), displacements are plain signed decimal, and the
//! timestamp is seconds with exactly six decimal places, all built and
//! proved character by character.

use vstd::prelude::*;
use vstd::string::StringExecFns;

use crate::event::EventData;
use crate::event::KeyboardData;
use crate::event::MouseData;
use crate::timestamp::MICROS_PER_SECOND;

verus! {

/// The character standing for one digit value, decimal or hexadecimal.
pub open spec fn digit_char(d: int) -> char {
    if d == 0 {
        '0'
    } else if d == 1 {
        '1'
    } else if d == 2 {
        '2'
    } else if d == 3 {
        '3'
    } else if d == 4 {
        '4'
    } else if d == 5 {
        '5'
    } else if d == 6 {
        '6'
    } else if d == 7 {
        '7'
    } else if d == 8 {
        '8'
    } else if d == 9 {
        '9'
    } else if d == 10 {
        'a'
    } else if d == 11 {
        'b'
    } else if d == 12 {
        'c'
    } else if d == 13 {
        'd'
    } else if d == 14 {
        'e'
    } else {
        'f'
    }
}

/// Decimal digits of `n`, most significant first, no leading zeros.
pub open spec fn dec_digits(n: nat) -> Seq<char>
    decreases n,
{
    if n < 10 {
        seq![digit_char(n as int)]
    } else {
        dec_digits(n / 10) + seq![digit_char((n % 10) as int)]
    }
}

/// Hexadecimal digits of `n`, most significant first, no leading zeros.
pub open spec fn hex_digits(n: nat) -> Seq<char>
    decreases n,
{
    if n < 16 {
        seq![digit_char(n as int)]
    } else {
        hex_digits(n / 16) + seq![digit_char((n % 16) as int)]
    }
}

/// The low `width` decimal digits of `n`, zero-padded on the left.
pub open spec fn dec_pad(n: nat, width: nat) -> Seq<char>
    decreases width,
{
    if width == 0 {
        Seq::empty()
    } else {
        dec_pad(n / 10, (width - 1) as nat) + seq![digit_char((n % 10) as int)]
    }
}

/// The low `width` hexadecimal digits of `n`, zero-padded on the left.
pub open spec fn hex_pad(n: nat, width: nat) -> Seq<char>
    decreases width,
{
    if width == 0 {
        Seq::empty()
    } else {
        hex_pad(n / 16, (width - 1) as nat) + seq![digit_char((n % 16) as int)]
    }
}

/// A hexadecimal field: zero-padded to four digits, and wider only where
/// the value itself needs more digits.
pub open spec fn spec_hex4(n: nat) -> Seq<char> {
    if n < 0x10000 {
        hex_pad(n, 4)
    } else {
        hex_digits(n)
    }
}

/// A signed decimal field: a minus sign before the magnitude's digits.
pub open spec fn spec_dec_signed(v: int) -> Seq<char> {
    if v < 0 {
        seq!['-'] + dec_digits((-v) as nat)
    } else {
        dec_digits(v as nat)
    }
}

/// A timestamp field: whole seconds, a point, then exactly six fractional
/// digits.
pub open spec fn spec_fixed6(micros: nat) -> Seq<char> {
    dec_digits(micros / (MICROS_PER_SECOND as nat)) + seq!['.'] + dec_pad(
        micros % (MICROS_PER_SECOND as nat),
        6,
    )
}

/// The output line of one keyboard event.
pub open spec fn spec_keyboard_line(k: KeyboardData, micros: nat) -> Seq<char> {
    "Keyboard: VKey="@ + spec_hex4(k.vkey as nat) + ", Message="@ + spec_hex4(k.message as nat)
        + ", MakeCode="@ + spec_hex4(k.make_code as nat) + ", Flags="@ + spec_hex4(k.flags as nat)
        + ", Timestamp="@ + spec_fixed6(micros)
}

/// The output line of one mouse event.
pub open spec fn spec_mouse_line(m: MouseData, micros: nat) -> Seq<char> {
    "Mouse: LastX="@ + spec_dec_signed(m.last_x as int) + ", LastY="@ + spec_dec_signed(
        m.last_y as int,
    ) + ", ButtonFlags="@ + spec_hex4(m.button_flags as nat) + ", Timestamp="@ + spec_fixed6(micros)
}

/// The output line of one event of either kind.
pub open spec fn spec_event_line(d: EventData, micros: nat) -> Seq<char> {
    match d {
        EventData::Keyboard(k) => spec_keyboard_line(k, micros),
        EventData::Mouse(m) => spec_mouse_line(m, micros),
    }
}

/// The one-character string of one digit value.
fn digit_str(d: u8) -> (s: &'static str)
    requires
        d < 16,
    ensures
        s@ == seq![digit_char(d as int)],
{
    match d {
        0 => {
            proof {
                reveal_strlit("0");
                assert("0"@ =~= seq![digit_char(d as int)]);
            }
            "0"
        },
        1 => {
            proof {
                reveal_strlit("1");
                assert("1"@ =~= seq![digit_char(d as int)]);
            }
            "1"
        },
        2 => {
            proof {
                reveal_strlit("2");
                assert("2"@ =~= seq![digit_char(d as int)]);
            }
            "2"
        },
        3 => {
            proof {
                reveal_strlit("3");
                assert("3"@ =~= seq![digit_char(d as int)]);
            }
            "3"
        },
        4 => {
            proof {
                reveal_strlit("4");
                assert("4"@ =~= seq![digit_char(d as int)]);
            }
            "4"
        },
        5 => {
            proof {
                reveal_strlit("5");
                assert("5"@ =~= seq![digit_char(d as int)]);
            }
            "5"
        },
        6 => {
            proof {
                reveal_strlit("6");
                assert("6"@ =~= seq![digit_char(d as int)]);
            }
            "6"
        },
        7 => {
            proof {
                reveal_strlit("7");
                assert("7"@ =~= seq![digit_char(d as int)]);
            }
            "7"
        },
        8 => {
            proof {
                reveal_strlit("8");
                assert("8"@ =~= seq![digit_char(d as int)]);
            }
            "8"
        },
        9 => {
            proof {
                reveal_strlit("9");
                assert("9"@ =~= seq![digit_char(d as int)]);
            }
            "9"
        },
        10 => {
            proof {
                reveal_strlit("a");
                assert("a"@ =~= seq![digit_char(d as int)]);
            }
            "a"
        },
        11 => {
            proof {
                reveal_strlit("b");
                assert("b"@ =~= seq![digit_char(d as int)]);
            }
            "b"
        },
        12 => {
            proof {
                reveal_strlit("c");
                assert("c"@ =~= seq![digit_char(d as int)]);
            }
            "c"
        },
        13 => {
            proof {
                reveal_strlit("d");
                assert("d"@ =~= seq![digit_char(d as int)]);
            }
            "d"
        },
        14 => {
            proof {
                reveal_strlit("e");
                assert("e"@ =~= seq![digit_char(d as int)]);
            }
            "e"
        },
        _ => {
            proof {
                reveal_strlit("f");
                assert("f"@ =~= seq![digit_char(d as int)]);
            }
            "f"
        },
    }
}

/// Appends the decimal digits of `n`, without padding.
fn push_dec_digits(out: &mut String, n: u128)
    ensures
        final(out)@ == old(out)@ + dec_digits(n as nat),
    decreases n,
{
    if n < 10 {
        out.append(digit_str(n as u8));
        proof {
            assert(final(out)@ =~= old(out)@ + dec_digits(n as nat));
        }
    } else {
        push_dec_digits(out, n / 10);
        out.append(digit_str((n % 10) as u8));
        proof {
            assert(final(out)@ =~= old(out)@ + dec_digits(n as nat));
        }
    }
}

/// Appends the low `width` decimal digits of `n`, zero-padded.
fn push_dec_pad(out: &mut String, n: u64, width: usize)
    ensures
        final(out)@ == old(out)@ + dec_pad(n as nat, width as nat),
    decreases width,
{
    if width == 0 {
        proof {
            assert(final(out)@ =~= old(out)@ + dec_pad(n as nat, width as nat));
        }
    } else {
        push_dec_pad(out, n / 10, width - 1);
        out.append(digit_str((n % 10) as u8));
        proof {
            assert(final(out)@ =~= old(out)@ + dec_pad(n as nat, width as nat));
        }
    }
}

/// Appends the hexadecimal digits of `n`, without padding.
fn push_hex_digits(out: &mut String, n: u64)
    ensures
        final(out)@ == old(out)@ + hex_digits(n as nat),
    decreases n,
{
    if n < 16 {
        out.append(digit_str(n as u8));
        proof {
            assert(final(out)@ =~= old(out)@ + hex_digits(n as nat));
        }
    } else {
        push_hex_digits(out, n / 16);
        out.append(digit_str((n % 16) as u8));
        proof {
            assert(final(out)@ =~= old(out)@ + hex_digits(n as nat));
        }
    }
}

/// Appends the low `width` hexadecimal digits of `n`, zero-padded.
fn push_hex_pad(out: &mut String, n: u64, width: usize)
    ensures
        final(out)@ == old(out)@ + hex_pad(n as nat, width as nat),
    decreases width,
{
    if width == 0 {
        proof {
            assert(final(out)@ =~= old(out)@ + hex_pad(n as nat, width as nat));
        }
    } else {
        push_hex_pad(out, n / 16, width - 1);
        out.append(digit_str((n % 16) as u8));
        proof {
            assert(final(out)@ =~= old(out)@ + hex_pad(n as nat, width as nat));
        }
    }
}

/// Appends a four-digit zero-padded hexadecimal field.
fn push_hex4(out: &mut String, n: u32)
    ensures
        final(out)@ == old(out)@ + spec_hex4(n as nat),
{
    if n < 0x10000 {
        push_hex_pad(out, n as u64, 4);
    } else {
        push_hex_digits(out, n as u64);
    }
}

/// Appends a signed decimal field.
fn push_dec_signed(out: &mut String, v: i32)
    ensures
        final(out)@ == old(out)@ + spec_dec_signed(v as int),
{
    if v < 0 {
        proof {
            reveal_strlit("-");
        }
        out.append("-");
        let wide: i64 = v as i64;
        let magnitude: i64 = -wide;
        push_dec_digits(out, magnitude as u128);
        proof {
            assert("-"@ =~= seq!['-']);
            assert(final(out)@ =~= old(out)@ + spec_dec_signed(v as int));
        }
    } else {
        push_dec_digits(out, v as u128);
    }
}

/// Appends a timestamp field: seconds with six fractional digits.
fn push_fixed6(out: &mut String, micros: u128)
    ensures
        final(out)@ == old(out)@ + spec_fixed6(micros as nat),
{
    let seconds = micros / (MICROS_PER_SECOND as u128);
    let frac = (micros % (MICROS_PER_SECOND as u128)) as u64;
    push_dec_digits(out, seconds);
    proof {
        reveal_strlit(".");
        assert("."@ =~= seq!['.']);
    }
    out.append(".");
    push_dec_pad(out, frac, 6);
    proof {
        assert(final(out)@ =~= old(out)@ + spec_fixed6(micros as nat));
    }
}

/// Renders the output line of one keyboard event.
pub fn format_keyboard_line(k: &KeyboardData, micros: u128) -> (line: String)
    ensures
        line@ == spec_keyboard_line(*k, micros as nat),
{
    let mut line = String::new();
    line.append("Keyboard: VKey=");
    push_hex4(&mut line, k.vkey as u32);
    line.append(", Message=");
    push_hex4(&mut line, k.message);
    line.append(", MakeCode=");
    push_hex4(&mut line, k.make_code as u32);
    line.append(", Flags=");
    push_hex4(&mut line, k.flags as u32);
    line.append(", Timestamp=");
    push_fixed6(&mut line, micros);
    proof {
        assert(line@ =~= spec_keyboard_line(*k, micros as nat));
    }
    line
}

/// Renders the output line of one mouse event.
pub fn format_mouse_line(m: &MouseData, micros: u128) -> (line: String)
    ensures
        line@ == spec_mouse_line(*m, micros as nat),
{
    let mut line = String::new();
    line.append("Mouse: LastX=");
    push_dec_signed(&mut line, m.last_x);
    line.append(", LastY=");
    push_dec_signed(&mut line, m.last_y);
    line.append(", ButtonFlags=");
    push_hex4(&mut line, m.button_flags as u32);
    line.append(", Timestamp=");
    push_fixed6(&mut line, micros);
    proof {
        assert(line@ =~= spec_mouse_line(*m, micros as nat));
    }
    line
}

/// Renders the output line of one event of either kind.
pub fn format_event_line(d: &EventData, micros: u128) -> (line: String)
    ensures
        line@ == spec_event_line(*d, micros as nat),
{
    match d {
        EventData::Keyboard(k) => format_keyboard_line(k, micros),
        EventData::Mouse(m) => format_mouse_line(m, micros),
    }
}

} // verus!

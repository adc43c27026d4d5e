//! What each key comes to on a terminal's input.

use vstd::prelude::*;

#[allow(unused_imports)]
use crate::input::{
    ascii, builds_kitty, char_of, control_of, event_bytes, key_bytes, kitty_bytes, plain_char, tilde, InputEvent,
};
#[allow(unused_imports)]
use crate::keys::{Key, Modifiers, TermMode};
#[allow(unused_imports)]
use crate::side::Platform;
#[allow(unused_imports)]
use crate::text::{decimal, digit_char};
#[allow(unused_imports)]
use vstd::utf8::encode_utf8;

verus! {

/// Shift, Alt or Ctrl is held.
pub open spec fn modified(mods: Modifiers) -> bool {
    mods.shift || mods.alt || mods.ctrl
}

/// The digit a sequence names the modifiers by: one for none of them, and one
/// more for Shift, two for Alt and four for Ctrl.
pub open spec fn modifier_digit(mods: Modifiers) -> u8 {
    match (mods.ctrl, mods.alt, mods.shift) {
        (false, false, false) => 0x31,
        (false, false, true) => 0x32,
        (false, true, false) => 0x33,
        (false, true, true) => 0x34,
        (true, false, false) => 0x35,
        (true, false, true) => 0x36,
        (true, true, false) => 0x37,
        (true, true, true) => 0x38,
    }
}

proof fn two_digits(n: nat)
    requires
        n < 100,
    ensures
        n < 10 ==> ascii(decimal(n)) == seq![(48 + n) as u8],
        n >= 10 ==> ascii(decimal(n)) == seq![(48 + n / 10) as u8, (48 + n % 10) as u8],
{
    reveal_with_fuel(decimal, 3);
    if n < 10 {
        assert(ascii(decimal(n)) =~= seq![(48 + n) as u8]);
    } else {
        assert(decimal(n / 10) =~= seq![digit_char(n / 10)]);
        assert(decimal(n) =~= seq![digit_char(n / 10), digit_char(n % 10)]);
        assert(ascii(decimal(n)) =~= seq![(48 + n / 10) as u8, (48 + n % 10) as u8]);
    }
}

/// The arrows end in A, B, C and D, Home in H and End in F, whatever is held
/// with them and whatever the application has asked for.
pub proof fn the_cursor_keys_end_in_their_letters(mods: Modifiers, mode: TermMode, platform: Platform)
    ensures
        ({
            let sent = |key: Key| key_bytes(key, mods, mode, platform);
            let led = |last: u8|
                if modified(mods) {
                    Some(seq![0x1bu8, 0x5b, 0x31, 0x3b, modifier_digit(mods), last])
                } else {
                    Some(seq![0x1bu8, 0x5b, last])
                };
            &&& sent(Key::ArrowUp) == led(0x41)
            &&& sent(Key::ArrowDown) == led(0x42)
            &&& sent(Key::ArrowRight) == led(0x43)
            &&& sent(Key::ArrowLeft) == led(0x44)
            &&& sent(Key::Home) == led(0x48)
            &&& sent(Key::End) == led(0x46)
        }),
{
}

/// F1 to F4 end in P, Q, R and S: after `ESC O` alone, and after the modifiers
/// in a sequence of the cursor keys' shape.
pub proof fn the_first_function_keys_end_in_their_letters(mods: Modifiers, mode: TermMode, platform: Platform)
    ensures
        ({
            let sent = |key: Key| key_bytes(key, mods, mode, platform);
            let led = |last: u8|
                if modified(mods) {
                    Some(seq![0x1bu8, 0x5b, 0x31, 0x3b, modifier_digit(mods), last])
                } else {
                    Some(seq![0x1bu8, 0x4f, last])
                };
            &&& sent(Key::F1) == led(0x50)
            &&& sent(Key::F2) == led(0x51)
            &&& sent(Key::F3) == led(0x52)
            &&& sent(Key::F4) == led(0x53)
        }),
{
}

/// The editing keys and the other function keys are named by their numbers,
/// then the modifiers where any is held, and end in a tilde.
pub proof fn the_numbered_keys_name_their_numbers(mods: Modifiers, mode: TermMode, platform: Platform)
    ensures
        ({
            let sent = |key: Key| key_bytes(key, mods, mode, platform);
            let digit = modifier_digit(mods);
            if modified(mods) {
                &&& sent(Key::Insert) == Some(seq![0x1bu8, 0x5b, 0x32, 0x3b, digit, 0x7e])
                &&& sent(Key::Delete) == Some(seq![0x1bu8, 0x5b, 0x33, 0x3b, digit, 0x7e])
                &&& sent(Key::PageUp) == Some(seq![0x1bu8, 0x5b, 0x35, 0x3b, digit, 0x7e])
                &&& sent(Key::PageDown) == Some(seq![0x1bu8, 0x5b, 0x36, 0x3b, digit, 0x7e])
                &&& sent(Key::F5) == Some(seq![0x1bu8, 0x5b, 0x31, 0x35, 0x3b, digit, 0x7e])
                &&& sent(Key::F6) == Some(seq![0x1bu8, 0x5b, 0x31, 0x37, 0x3b, digit, 0x7e])
                &&& sent(Key::F7) == Some(seq![0x1bu8, 0x5b, 0x31, 0x38, 0x3b, digit, 0x7e])
                &&& sent(Key::F8) == Some(seq![0x1bu8, 0x5b, 0x31, 0x39, 0x3b, digit, 0x7e])
                &&& sent(Key::F9) == Some(seq![0x1bu8, 0x5b, 0x32, 0x30, 0x3b, digit, 0x7e])
                &&& sent(Key::F10) == Some(seq![0x1bu8, 0x5b, 0x32, 0x31, 0x3b, digit, 0x7e])
                &&& sent(Key::F11) == Some(seq![0x1bu8, 0x5b, 0x32, 0x33, 0x3b, digit, 0x7e])
                &&& sent(Key::F12) == Some(seq![0x1bu8, 0x5b, 0x32, 0x34, 0x3b, digit, 0x7e])
            } else {
                &&& sent(Key::Insert) == Some(seq![0x1bu8, 0x5b, 0x32, 0x7e])
                &&& sent(Key::Delete) == Some(seq![0x1bu8, 0x5b, 0x33, 0x7e])
                &&& sent(Key::PageUp) == Some(seq![0x1bu8, 0x5b, 0x35, 0x7e])
                &&& sent(Key::PageDown) == Some(seq![0x1bu8, 0x5b, 0x36, 0x7e])
                &&& sent(Key::F5) == Some(seq![0x1bu8, 0x5b, 0x31, 0x35, 0x7e])
                &&& sent(Key::F6) == Some(seq![0x1bu8, 0x5b, 0x31, 0x37, 0x7e])
                &&& sent(Key::F7) == Some(seq![0x1bu8, 0x5b, 0x31, 0x38, 0x7e])
                &&& sent(Key::F8) == Some(seq![0x1bu8, 0x5b, 0x31, 0x39, 0x7e])
                &&& sent(Key::F9) == Some(seq![0x1bu8, 0x5b, 0x32, 0x30, 0x7e])
                &&& sent(Key::F10) == Some(seq![0x1bu8, 0x5b, 0x32, 0x31, 0x7e])
                &&& sent(Key::F11) == Some(seq![0x1bu8, 0x5b, 0x32, 0x33, 0x7e])
                &&& sent(Key::F12) == Some(seq![0x1bu8, 0x5b, 0x32, 0x34, 0x7e])
            }
        }),
{
    two_digits(2);
    two_digits(3);
    two_digits(5);
    two_digits(6);
    two_digits(15);
    two_digits(17);
    two_digits(18);
    two_digits(19);
    two_digits(20);
    two_digits(21);
    two_digits(23);
    two_digits(24);
    let digit = modifier_digit(mods);
    assert(tilde(2, mods) =~= if modified(mods) {
        seq![0x1bu8, 0x5b, 0x32, 0x3b, digit, 0x7e]
    } else {
        seq![0x1bu8, 0x5b, 0x32, 0x7e]
    });
    assert(tilde(3, mods) =~= if modified(mods) {
        seq![0x1bu8, 0x5b, 0x33, 0x3b, digit, 0x7e]
    } else {
        seq![0x1bu8, 0x5b, 0x33, 0x7e]
    });
    assert(tilde(5, mods) =~= if modified(mods) {
        seq![0x1bu8, 0x5b, 0x35, 0x3b, digit, 0x7e]
    } else {
        seq![0x1bu8, 0x5b, 0x35, 0x7e]
    });
    assert(tilde(6, mods) =~= if modified(mods) {
        seq![0x1bu8, 0x5b, 0x36, 0x3b, digit, 0x7e]
    } else {
        seq![0x1bu8, 0x5b, 0x36, 0x7e]
    });
    assert(tilde(15, mods) =~= if modified(mods) {
        seq![0x1bu8, 0x5b, 0x31, 0x35, 0x3b, digit, 0x7e]
    } else {
        seq![0x1bu8, 0x5b, 0x31, 0x35, 0x7e]
    });
    assert(tilde(17, mods) =~= if modified(mods) {
        seq![0x1bu8, 0x5b, 0x31, 0x37, 0x3b, digit, 0x7e]
    } else {
        seq![0x1bu8, 0x5b, 0x31, 0x37, 0x7e]
    });
    assert(tilde(18, mods) =~= if modified(mods) {
        seq![0x1bu8, 0x5b, 0x31, 0x38, 0x3b, digit, 0x7e]
    } else {
        seq![0x1bu8, 0x5b, 0x31, 0x38, 0x7e]
    });
    assert(tilde(19, mods) =~= if modified(mods) {
        seq![0x1bu8, 0x5b, 0x31, 0x39, 0x3b, digit, 0x7e]
    } else {
        seq![0x1bu8, 0x5b, 0x31, 0x39, 0x7e]
    });
    assert(tilde(20, mods) =~= if modified(mods) {
        seq![0x1bu8, 0x5b, 0x32, 0x30, 0x3b, digit, 0x7e]
    } else {
        seq![0x1bu8, 0x5b, 0x32, 0x30, 0x7e]
    });
    assert(tilde(21, mods) =~= if modified(mods) {
        seq![0x1bu8, 0x5b, 0x32, 0x31, 0x3b, digit, 0x7e]
    } else {
        seq![0x1bu8, 0x5b, 0x32, 0x31, 0x7e]
    });
    assert(tilde(23, mods) =~= if modified(mods) {
        seq![0x1bu8, 0x5b, 0x32, 0x33, 0x3b, digit, 0x7e]
    } else {
        seq![0x1bu8, 0x5b, 0x32, 0x33, 0x7e]
    });
    assert(tilde(24, mods) =~= if modified(mods) {
        seq![0x1bu8, 0x5b, 0x32, 0x34, 0x3b, digit, 0x7e]
    } else {
        seq![0x1bu8, 0x5b, 0x32, 0x34, 0x7e]
    });
}

/// Outside the kitty protocol Tab, Enter, Backspace and Escape are the bytes 9,
/// 13, 127 and 27, after an escape where Alt is held; Shift and Tab is the
/// back-tab sequence.
pub proof fn the_control_keys_are_their_bytes(mods: Modifiers, mode: TermMode, platform: Platform)
    requires
        !mode.disambiguate_esc_codes,
        !mode.report_all_keys_as_esc,
    ensures
        ({
            let sent = |key: Key| key_bytes(key, mods, mode, platform);
            let byte = |b: u8|
                if mods.alt {
                    Some(seq![0x1bu8, b])
                } else {
                    Some(seq![b])
                };
            &&& sent(Key::Enter) == byte(13)
            &&& sent(Key::Backspace) == byte(127)
            &&& sent(Key::Escape) == byte(27)
            &&& mods.shift ==> sent(Key::Tab) == Some(seq![0x1bu8, 0x5b, 0x5a])
            &&& !mods.shift ==> sent(Key::Tab) == byte(9)
        }),
{
}

/// A key that is sent for what it does, not for a character.
pub open spec fn is_named(key: Key) -> bool {
    plain_char(key) is None && key != Key::Other
}

/// The named key a sequence stands for: by its last byte, and by its number
/// where that is a tilde or a `u`.
spec fn key_sent_as(bytes: Seq<u8>) -> Option<Key> {
    let last = bytes.last();
    if bytes.len() <= 2 {
        if last == 9 {
            Some(Key::Tab)
        } else if last == 13 {
            Some(Key::Enter)
        } else if last == 127 {
            Some(Key::Backspace)
        } else {
            Some(Key::Escape)
        }
    } else if last == 0x75 {
        if bytes[2] == 0x39 {
            Some(Key::Tab)
        } else if bytes[2] == 0x32 {
            Some(Key::Escape)
        } else if bytes[3] == 0x33 {
            Some(Key::Enter)
        } else {
            Some(Key::Backspace)
        }
    } else if last == 0x7e {
        if bytes[3] == 0x7e || bytes[3] == 0x3b {
            if bytes[2] == 0x32 {
                Some(Key::Insert)
            } else if bytes[2] == 0x33 {
                Some(Key::Delete)
            } else if bytes[2] == 0x35 {
                Some(Key::PageUp)
            } else {
                Some(Key::PageDown)
            }
        } else if bytes[2] == 0x31 {
            if bytes[3] == 0x35 {
                Some(Key::F5)
            } else if bytes[3] == 0x37 {
                Some(Key::F6)
            } else if bytes[3] == 0x38 {
                Some(Key::F7)
            } else {
                Some(Key::F8)
            }
        } else if bytes[3] == 0x30 {
            Some(Key::F9)
        } else if bytes[3] == 0x31 {
            Some(Key::F10)
        } else if bytes[3] == 0x33 {
            Some(Key::F11)
        } else {
            Some(Key::F12)
        }
    } else {
        match last {
            0x41u8 => Some(Key::ArrowUp),
            0x42u8 => Some(Key::ArrowDown),
            0x43u8 => Some(Key::ArrowRight),
            0x44u8 => Some(Key::ArrowLeft),
            0x46u8 => Some(Key::End),
            0x48u8 => Some(Key::Home),
            0x50u8 => Some(Key::F1),
            0x51u8 => Some(Key::F2),
            0x52u8 => Some(Key::F3),
            0x53u8 => Some(Key::F4),
            0x5au8 => Some(Key::Tab),
            _ => None,
        }
    }
}

proof fn kitty_control_keys(mods: Modifiers)
    ensures
        kitty_bytes(Key::Tab, mods) matches Some(bytes) && bytes.last() == 117 && bytes.len() >= 4 && bytes[2] == 57 && (bytes[3] == 117 || bytes[3] == 59),
        kitty_bytes(Key::Enter, mods) matches Some(bytes) && bytes.last() == 117 && bytes.len() >= 5 && bytes[2] == 49 && bytes[3] == 51,
        kitty_bytes(Key::Escape, mods) matches Some(bytes) && bytes.last() == 117 && bytes.len() >= 5 && bytes[2] == 50 && bytes[3] == 55,
        kitty_bytes(Key::Backspace, mods) matches Some(bytes) && bytes.last() == 117 && bytes.len() >= 6 && bytes[2] == 49 && bytes[3] == 50,
{
    two_digits(9);
    two_digits(13);
    two_digits(27);
    two_digits(12);
    reveal_with_fuel(decimal, 4);
    assert(decimal(127) =~= decimal(12).push('7'));
    assert(ascii(decimal(127)) =~= ascii(decimal(12)).push(55));
}

proof fn a_named_key_is_told_by_its_bytes(key: Key, mods: Modifiers, mode: TermMode, platform: Platform)
    requires
        is_named(key),
    ensures
        key_bytes(key, mods, mode, platform) matches Some(bytes) && key_sent_as(bytes) == Some(key),
{
    let bytes = key_bytes(key, mods, mode, platform)->0;
    match key {
        Key::Tab | Key::Enter | Key::Escape | Key::Backspace => {
            kitty_control_keys(mods);
        },
        Key::ArrowUp | Key::ArrowDown | Key::ArrowRight | Key::ArrowLeft | Key::Home | Key::End => {
            the_cursor_keys_end_in_their_letters(mods, mode, platform);
        },
        Key::F1 | Key::F2 | Key::F3 | Key::F4 => {
            the_first_function_keys_end_in_their_letters(mods, mode, platform);
        },
        _ => {
            the_numbered_keys_name_their_numbers(mods, mode, platform);
            assert(bytes.last() == 0x7e);
        },
    }
}

/// No two named keys send the same bytes under the same modifiers in the same
/// mode, so an application can always tell them apart.
pub proof fn no_two_named_keys_send_the_same(first: Key, second: Key, mods: Modifiers, mode: TermMode, platform: Platform)
    requires
        is_named(first),
        is_named(second),
        first != second,
    ensures
        key_bytes(first, mods, mode, platform) is Some,
        key_bytes(second, mods, mode, platform) is Some,
        key_bytes(first, mods, mode, platform) != key_bytes(second, mods, mode, platform),
{
    a_named_key_is_told_by_its_bytes(first, mods, mode, platform);
    a_named_key_is_told_by_its_bytes(second, mods, mode, platform);
}

/// Which character a printable key types with nothing held.
pub proof fn a_printable_key_types_its_character()
    ensures
        plain_char(Key::A) == Some('a'),
        plain_char(Key::B) == Some('b'),
        plain_char(Key::C) == Some('c'),
        plain_char(Key::D) == Some('d'),
        plain_char(Key::E) == Some('e'),
        plain_char(Key::F) == Some('f'),
        plain_char(Key::G) == Some('g'),
        plain_char(Key::H) == Some('h'),
        plain_char(Key::I) == Some('i'),
        plain_char(Key::J) == Some('j'),
        plain_char(Key::K) == Some('k'),
        plain_char(Key::L) == Some('l'),
        plain_char(Key::M) == Some('m'),
        plain_char(Key::N) == Some('n'),
        plain_char(Key::O) == Some('o'),
        plain_char(Key::P) == Some('p'),
        plain_char(Key::Q) == Some('q'),
        plain_char(Key::R) == Some('r'),
        plain_char(Key::S) == Some('s'),
        plain_char(Key::T) == Some('t'),
        plain_char(Key::U) == Some('u'),
        plain_char(Key::V) == Some('v'),
        plain_char(Key::W) == Some('w'),
        plain_char(Key::X) == Some('x'),
        plain_char(Key::Y) == Some('y'),
        plain_char(Key::Z) == Some('z'),
        plain_char(Key::Num0) == Some('0'),
        plain_char(Key::Num1) == Some('1'),
        plain_char(Key::Num2) == Some('2'),
        plain_char(Key::Num3) == Some('3'),
        plain_char(Key::Num4) == Some('4'),
        plain_char(Key::Num5) == Some('5'),
        plain_char(Key::Num6) == Some('6'),
        plain_char(Key::Num7) == Some('7'),
        plain_char(Key::Num8) == Some('8'),
        plain_char(Key::Num9) == Some('9'),
        plain_char(Key::Space) == Some(' '),
        plain_char(Key::Minus) == Some('-'),
        plain_char(Key::Plus) == Some('+'),
        plain_char(Key::Equals) == Some('='),
        plain_char(Key::Slash) == Some('/'),
        plain_char(Key::Questionmark) == Some('?'),
        plain_char(Key::Backslash) == Some('\\'),
        plain_char(Key::Pipe) == Some('|'),
        plain_char(Key::OpenBracket) == Some('['),
        plain_char(Key::CloseBracket) == Some(']'),
        plain_char(Key::OpenCurlyBracket) == Some('{'),
        plain_char(Key::CloseCurlyBracket) == Some('}'),
        plain_char(Key::Semicolon) == Some(';'),
        plain_char(Key::Colon) == Some(':'),
        plain_char(Key::Comma) == Some(','),
        plain_char(Key::Period) == Some('.'),
        plain_char(Key::Backtick) == Some('`'),
        plain_char(Key::Quote) == Some('\''),
        plain_char(Key::Exclamationmark) == Some('!'),
        plain_char(Key::ArrowUp) is None,
        plain_char(Key::ArrowDown) is None,
        plain_char(Key::ArrowRight) is None,
        plain_char(Key::ArrowLeft) is None,
        plain_char(Key::Home) is None,
        plain_char(Key::End) is None,
        plain_char(Key::F1) is None,
        plain_char(Key::F2) is None,
        plain_char(Key::F3) is None,
        plain_char(Key::F4) is None,
        plain_char(Key::Insert) is None,
        plain_char(Key::Delete) is None,
        plain_char(Key::PageUp) is None,
        plain_char(Key::PageDown) is None,
        plain_char(Key::F5) is None,
        plain_char(Key::F6) is None,
        plain_char(Key::F7) is None,
        plain_char(Key::F8) is None,
        plain_char(Key::F9) is None,
        plain_char(Key::F10) is None,
        plain_char(Key::F11) is None,
        plain_char(Key::F12) is None,
        plain_char(Key::Tab) is None,
        plain_char(Key::Enter) is None,
        plain_char(Key::Backspace) is None,
        plain_char(Key::Escape) is None,
        plain_char(Key::Other) is None,
{
}

/// Ctrl and a letter is the letter's place in the alphabet, with Shift or
/// without, and so for the three brackets beside the letters.
pub proof fn ctrl_takes_a_letter_to_its_place(c: char)
    ensures
        'a' <= c <= 'z' ==> control_of(c) == Some((c as int - 'a' as int + 1) as u8),
        'A' <= c <= 'Z' ==> control_of(c) == Some((c as int - 'A' as int + 1) as u8),
        '[' <= c <= ']' ==> control_of(c) == Some((c as int % 32) as u8),
{
}

/// Ctrl with another character is a control byte for these seven only.
pub proof fn ctrl_knows_seven_more_characters(c: char)
    ensures
        control_of(' ') == Some(0x00u8),
        control_of('2') == Some(0x00u8),
        control_of('6') == Some(0x1eu8),
        control_of('-') == Some(0x1fu8),
        control_of('/') == Some(0x1fu8),
        control_of('?') == Some(0x7fu8),
        !('a' <= c <= 'z') && !('A' <= c <= ']') && c != ' ' && c != '2' && c != '6' && c != '-' && c != '/' && c
            != '?' ==> control_of(c) is None,
{
}

/// Outside the kitty protocol a printable key is sent by its press in two cases
/// only: with Ctrl, as its control byte; and with Alt on Windows, as its
/// character after an escape.
pub proof fn a_printable_press_is_sent_for_ctrl_or_alt(key: Key, mods: Modifiers, mode: TermMode, platform: Platform, c: char)
    requires
        char_of(key, mods.shift) == Some(c),
        !mode.disambiguate_esc_codes,
        !mode.report_all_keys_as_esc,
    ensures
        ({
            let sent = key_bytes(key, mods, mode, platform);
            &&& mods.ctrl && !mods.alt ==> sent == match control_of(c) {
                Some(b) => Some(seq![b]),
                None => None,
            }
            &&& mods.alt && !mods.ctrl && platform is Windows ==> sent == Some(seq![0x1bu8, c as u8])
            &&& mods.alt && !mods.ctrl && !(platform is Windows) ==> sent is None
            &&& mods.alt == mods.ctrl ==> sent is None
        }),
{
}

/// With nothing asked for, the kitty protocol is not spoken; where every key is
/// to come as an escape, it always is; and where only the ambiguous ones are,
/// it is for Escape, for a key with a modifier other than Shift alone, and for
/// Tab, Enter and Backspace with any.
pub proof fn when_the_kitty_protocol_is_spoken(key: Key, mods: Modifiers, mode: TermMode)
    ensures
        !mode.disambiguate_esc_codes && !mode.report_all_keys_as_esc ==> !builds_kitty(key, mods, mode),
        mode.report_all_keys_as_esc ==> builds_kitty(key, mods, mode),
        mode.disambiguate_esc_codes && !mode.report_all_keys_as_esc ==> (builds_kitty(key, mods, mode) <==> {
            ||| key == Key::Escape
            ||| mods.alt || mods.ctrl || mods.mac_cmd
            ||| mods.shift && (key == Key::Tab || key == Key::Enter || key == Key::Backspace)
        }),
{
}

/// In the kitty protocol a key is `ESC [`, its code, the modifiers after a
/// semicolon where any is held, and `u`. The code is that of the unshifted
/// character, and 9, 13, 27 and 127 for Tab, Enter, Escape and Backspace.
pub proof fn a_kitty_sequence_names_code_and_modifiers(
    key: Key,
    mods: Modifiers,
    mode: TermMode,
    platform: Platform,
    code: nat,
    held: nat,
)
    requires
        builds_kitty(key, mods, mode),
        key == Key::Tab ==> code == 9,
        key == Key::Enter ==> code == 13,
        key == Key::Escape ==> code == 27,
        key == Key::Backspace ==> code == 127,
        key == Key::Tab || key == Key::Enter || key == Key::Escape || key == Key::Backspace || (char_of(key, false)
            is Some && code == char_of(key, false)->0 as nat && !(mods.ctrl && mods.alt)),
        held == modifier_digit(mods) - 49 + if mods.mac_cmd {
            8int
        } else {
            0
        },
    ensures
        key_bytes(key, mods, mode, platform) == Some(
            if held == 0 {
                seq![0x1bu8, 0x5b] + ascii(decimal(code)) + seq![0x75u8]
            } else {
                seq![0x1bu8, 0x5b] + ascii(decimal(code)) + seq![0x3bu8] + ascii(decimal(held + 1)) + seq![0x75u8]
            },
        ),
{
}

/// Typed text goes to the terminal as its UTF-8 bytes, unless every key comes
/// as an escape; an empty text, a release, and an event of no key or text send
/// nothing.
pub proof fn what_an_event_sends(event: InputEvent, mode: TermMode, platform: Platform)
    ensures
        match event {
            InputEvent::Text(text) => {
                &&& text@.len() > 0 && !mode.report_all_keys_as_esc ==> event_bytes(event, mode, platform) == Some(
                    encode_utf8(text@),
                )
                &&& text@.len() == 0 ==> event_bytes(event, mode, platform) is None
            },
            InputEvent::Key { key, pressed: true, modifiers } => event_bytes(event, mode, platform) == key_bytes(
                key,
                modifiers,
                mode,
                platform,
            ),
            _ => event_bytes(event, mode, platform) is None,
        },
{
}

} // verus!

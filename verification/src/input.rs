//! The bytes a key press or typed text puts on a terminal.

use vstd::prelude::*;
use vstd::string::*;

use crate::keys::{Key, Modifiers, TermMode};
use crate::side::Platform;
use crate::text::{chars_of, decimal_text};
#[allow(unused_imports)]
use crate::text::{decimal, digit_char};
#[allow(unused_imports)]
use vstd::utf8::encode_utf8;

verus! {

/// What the window reports.
#[derive(Debug, PartialEq, Eq)]
pub enum InputEvent {
    /// Text the system has composed, Shift and dead keys accounted for.
    Text(String),
    Key { key: Key, pressed: bool, modifiers: Modifiers },
    /// A copy, which carries no modifiers, so the key event beside it is the
    /// one encoded.
    Copy,
    /// A cut, likewise.
    Cut,
    /// Anything else.  A paste is not input of this kind.
    Other,
}

/// The bytes of a text whose characters all fit one byte.
pub open spec fn ascii(s: Seq<char>) -> Seq<u8> {
    s.map_values(|c: char| c as u8)
}

/// The bytes of a text whose characters all fit one byte.
pub fn ascii_bytes(s: &str) -> (r: Vec<u8>)
    requires
        forall|i: int| 0 <= i < s@.len() ==> s@[i] < 128,
    ensures
        r@ == ascii(s@),
{
    let chars = chars_of(s);
    let mut r: Vec<u8> = Vec::new();
    let mut i: usize = 0;
    while i < chars.len()
        invariant
            i <= chars@.len(),
            chars@ == s@,
            forall|k: int| 0 <= k < s@.len() ==> s@[k] < 128,
            r@.len() == i,
            forall|k: int| 0 <= k < i ==> #[trigger] r@[k] == s@[k] as u8,
        decreases chars@.len() - i,
    {
        r.push(chars[i] as u8);
        i += 1;
    }
    assert(r@ =~= ascii(s@));
    r
}

/// xterm's modifier bits: Shift 1, Alt 2, Ctrl 4.
pub open spec fn xterm_mods(mods: Modifiers) -> int {
    (if mods.shift {
        1int
    } else {
        0
    }) + (if mods.alt {
        2int
    } else {
        0
    }) + (if mods.ctrl {
        4int
    } else {
        0
    })
}

/// Kitty's modifier bits: xterm's, and Super 8.
pub open spec fn kitty_mods_of(mods: Modifiers) -> int {
    xterm_mods(mods) + (if mods.mac_cmd {
        8int
    } else {
        0
    })
}

/// The modifier parameter of a sequence: one more than the bits, as a digit.
/// Nothing where none is held, so that the shorter sequence is sent.
pub open spec fn csi_digit(mods: Modifiers) -> Option<u8> {
    if xterm_mods(mods) == 0 {
        None
    } else {
        Some((49 + xterm_mods(mods)) as u8)
    }
}

fn csi_modifier(mods: Modifiers) -> (r: Option<u8>)
    ensures
        r == csi_digit(mods),
{
    let mut m: u8 = 0;
    if mods.shift {
        m = m + 1;
    }
    if mods.alt {
        m = m + 2;
    }
    if mods.ctrl {
        m = m + 4;
    }
    if m == 0 {
        None
    } else {
        Some(49 + m)
    }
}

fn kitty_mods(mods: Modifiers) -> (r: u8)
    ensures
        r == kitty_mods_of(mods),
{
    let mut m: u8 = 0;
    if mods.shift {
        m = m + 1;
    }
    if mods.alt {
        m = m + 2;
    }
    if mods.ctrl {
        m = m + 4;
    }
    if mods.mac_cmd {
        m = m + 8;
    }
    m
}

/// The character a printable key produces unshifted.
pub open spec fn plain_char(key: Key) -> Option<char> {
    match key {
        Key::A => Some('a'),
        Key::B => Some('b'),
        Key::C => Some('c'),
        Key::D => Some('d'),
        Key::E => Some('e'),
        Key::F => Some('f'),
        Key::G => Some('g'),
        Key::H => Some('h'),
        Key::I => Some('i'),
        Key::J => Some('j'),
        Key::K => Some('k'),
        Key::L => Some('l'),
        Key::M => Some('m'),
        Key::N => Some('n'),
        Key::O => Some('o'),
        Key::P => Some('p'),
        Key::Q => Some('q'),
        Key::R => Some('r'),
        Key::S => Some('s'),
        Key::T => Some('t'),
        Key::U => Some('u'),
        Key::V => Some('v'),
        Key::W => Some('w'),
        Key::X => Some('x'),
        Key::Y => Some('y'),
        Key::Z => Some('z'),
        Key::Num0 => Some('0'),
        Key::Num1 => Some('1'),
        Key::Num2 => Some('2'),
        Key::Num3 => Some('3'),
        Key::Num4 => Some('4'),
        Key::Num5 => Some('5'),
        Key::Num6 => Some('6'),
        Key::Num7 => Some('7'),
        Key::Num8 => Some('8'),
        Key::Num9 => Some('9'),
        Key::Space => Some(' '),
        Key::Minus => Some('-'),
        Key::Plus => Some('+'),
        Key::Equals => Some('='),
        Key::Slash => Some('/'),
        Key::Questionmark => Some('?'),
        Key::Backslash => Some('\\'),
        Key::Pipe => Some('|'),
        Key::OpenBracket => Some('['),
        Key::CloseBracket => Some(']'),
        Key::OpenCurlyBracket => Some('{'),
        Key::CloseCurlyBracket => Some('}'),
        Key::Semicolon => Some(';'),
        Key::Colon => Some(':'),
        Key::Comma => Some(','),
        Key::Period => Some('.'),
        Key::Backtick => Some('`'),
        Key::Quote => Some('\''),
        Key::Exclamationmark => Some('!'),
        _ => None,
    }
}

/// The printable key that produces the character without Shift.
spec fn key_of(c: char) -> Option<Key> {
    if c == 'a' {
        Some(Key::A)
    } else if c == 'b' {
        Some(Key::B)
    } else if c == 'c' {
        Some(Key::C)
    } else if c == 'd' {
        Some(Key::D)
    } else if c == 'e' {
        Some(Key::E)
    } else if c == 'f' {
        Some(Key::F)
    } else if c == 'g' {
        Some(Key::G)
    } else if c == 'h' {
        Some(Key::H)
    } else if c == 'i' {
        Some(Key::I)
    } else if c == 'j' {
        Some(Key::J)
    } else if c == 'k' {
        Some(Key::K)
    } else if c == 'l' {
        Some(Key::L)
    } else if c == 'm' {
        Some(Key::M)
    } else if c == 'n' {
        Some(Key::N)
    } else if c == 'o' {
        Some(Key::O)
    } else if c == 'p' {
        Some(Key::P)
    } else if c == 'q' {
        Some(Key::Q)
    } else if c == 'r' {
        Some(Key::R)
    } else if c == 's' {
        Some(Key::S)
    } else if c == 't' {
        Some(Key::T)
    } else if c == 'u' {
        Some(Key::U)
    } else if c == 'v' {
        Some(Key::V)
    } else if c == 'w' {
        Some(Key::W)
    } else if c == 'x' {
        Some(Key::X)
    } else if c == 'y' {
        Some(Key::Y)
    } else if c == 'z' {
        Some(Key::Z)
    } else if c == '0' {
        Some(Key::Num0)
    } else if c == '1' {
        Some(Key::Num1)
    } else if c == '2' {
        Some(Key::Num2)
    } else if c == '3' {
        Some(Key::Num3)
    } else if c == '4' {
        Some(Key::Num4)
    } else if c == '5' {
        Some(Key::Num5)
    } else if c == '6' {
        Some(Key::Num6)
    } else if c == '7' {
        Some(Key::Num7)
    } else if c == '8' {
        Some(Key::Num8)
    } else if c == '9' {
        Some(Key::Num9)
    } else if c == ' ' {
        Some(Key::Space)
    } else if c == '-' {
        Some(Key::Minus)
    } else if c == '+' {
        Some(Key::Plus)
    } else if c == '=' {
        Some(Key::Equals)
    } else if c == '/' {
        Some(Key::Slash)
    } else if c == '?' {
        Some(Key::Questionmark)
    } else if c == '\\' {
        Some(Key::Backslash)
    } else if c == '|' {
        Some(Key::Pipe)
    } else if c == '[' {
        Some(Key::OpenBracket)
    } else if c == ']' {
        Some(Key::CloseBracket)
    } else if c == '{' {
        Some(Key::OpenCurlyBracket)
    } else if c == '}' {
        Some(Key::CloseCurlyBracket)
    } else if c == ';' {
        Some(Key::Semicolon)
    } else if c == ':' {
        Some(Key::Colon)
    } else if c == ',' {
        Some(Key::Comma)
    } else if c == '.' {
        Some(Key::Period)
    } else if c == '`' {
        Some(Key::Backtick)
    } else if c == '\'' {
        Some(Key::Quote)
    } else if c == '!' {
        Some(Key::Exclamationmark)
    } else {
        None
    }
}

proof fn a_key_by_its_character(key: Key)
    ensures
        plain_char(key) matches Some(c) ==> key_of(c) == Some(key),
{
}

/// The character a printable key produces.  Letters follow Shift; shifted
/// punctuation is a key of its own.
pub open spec fn char_of(key: Key, shift: bool) -> Option<char> {
    match plain_char(key) {
        Some(c) => if shift && 'a' <= c <= 'z' {
            Some((c as u8 - 32) as char)
        } else {
            Some(c)
        },
        None => None,
    }
}

/// Shift upper-cases a letter and leaves every other character as it is.
pub open spec fn shifted(c: char) -> char {
    if 'a' <= c <= 'z' {
        (c as u8 - 32) as char
    } else {
        c
    }
}

/// Shift does nothing to a printable key but upper-case its letter, and no
/// key gives an upper-case letter without it.
pub proof fn shift_only_upper_cases(key: Key)
    ensures
        char_of(key, true) == (match char_of(key, false) {
            Some(c) => Some(shifted(c)),
            None => None,
        }),
        char_of(key, false) matches Some(c) ==> !('A' <= c <= 'Z'),
        char_of(key, true) matches Some(c) ==> !('a' <= c <= 'z'),
{
}

/// Two keys never share a character, with Shift held or without.
pub proof fn no_two_keys_share_a_character(first: Key, second: Key, shift: bool)
    requires
        char_of(first, shift) is Some,
        char_of(first, shift) == char_of(second, shift),
    ensures
        first == second,
{
    shift_only_upper_cases(first);
    shift_only_upper_cases(second);
    if shift && plain_char(first) != plain_char(second) {
        let a = plain_char(first)->0;
        let b = plain_char(second)->0;
        assert(shifted(a) == shifted(b));
        assert('a' <= a <= 'z' || 'a' <= b <= 'z');
    }
    a_key_by_its_character(first);
    a_key_by_its_character(second);
}

fn plain_key_char(key: Key) -> (r: Option<char>)
    ensures
        r == plain_char(key),
{
    match key {
        Key::A => Some('a'),
        Key::B => Some('b'),
        Key::C => Some('c'),
        Key::D => Some('d'),
        Key::E => Some('e'),
        Key::F => Some('f'),
        Key::G => Some('g'),
        Key::H => Some('h'),
        Key::I => Some('i'),
        Key::J => Some('j'),
        Key::K => Some('k'),
        Key::L => Some('l'),
        Key::M => Some('m'),
        Key::N => Some('n'),
        Key::O => Some('o'),
        Key::P => Some('p'),
        Key::Q => Some('q'),
        Key::R => Some('r'),
        Key::S => Some('s'),
        Key::T => Some('t'),
        Key::U => Some('u'),
        Key::V => Some('v'),
        Key::W => Some('w'),
        Key::X => Some('x'),
        Key::Y => Some('y'),
        Key::Z => Some('z'),
        Key::Num0 => Some('0'),
        Key::Num1 => Some('1'),
        Key::Num2 => Some('2'),
        Key::Num3 => Some('3'),
        Key::Num4 => Some('4'),
        Key::Num5 => Some('5'),
        Key::Num6 => Some('6'),
        Key::Num7 => Some('7'),
        Key::Num8 => Some('8'),
        Key::Num9 => Some('9'),
        Key::Space => Some(' '),
        Key::Minus => Some('-'),
        Key::Plus => Some('+'),
        Key::Equals => Some('='),
        Key::Slash => Some('/'),
        Key::Questionmark => Some('?'),
        Key::Backslash => Some('\\'),
        Key::Pipe => Some('|'),
        Key::OpenBracket => Some('['),
        Key::CloseBracket => Some(']'),
        Key::OpenCurlyBracket => Some('{'),
        Key::CloseCurlyBracket => Some('}'),
        Key::Semicolon => Some(';'),
        Key::Colon => Some(':'),
        Key::Comma => Some(','),
        Key::Period => Some('.'),
        Key::Backtick => Some('`'),
        Key::Quote => Some('\''),
        Key::Exclamationmark => Some('!'),
        _ => None,
    }
}

/// Character a printable key produces, as far as byte encoding is concerned.
pub fn key_char(key: Key, shift: bool) -> (r: Option<char>)
    ensures
        r == char_of(key, shift),
        r matches Some(c) ==> c < 128,
{
    match plain_key_char(key) {
        Some(c) => if shift && 'a' <= c && c <= 'z' {
            Some((c as u8 - 32) as char)
        } else {
            Some(c)
        },
        None => None,
    }
}

/// xterm's legacy Ctrl encoding of a character.
pub open spec fn control_of(c: char) -> Option<u8> {
    if c == ' ' || c == '2' {
        Some(0x00u8)
    } else if 'a' <= c <= 'z' {
        Some((c as u8 - 96) as u8)
    } else if 'A' <= c <= 'Z' {
        Some((c as u8 - 64) as u8)
    } else if c == '[' {
        Some(0x1bu8)
    } else if c == '\\' {
        Some(0x1cu8)
    } else if c == ']' {
        Some(0x1du8)
    } else if c == '6' {
        Some(0x1eu8)
    } else if c == '-' || c == '/' {
        Some(0x1fu8)
    } else if c == '?' {
        Some(0x7fu8)
    } else {
        None
    }
}

fn control_byte(key: Key, mods: Modifiers) -> (r: Option<u8>)
    ensures
        r == (match char_of(key, mods.shift) {
            Some(c) => control_of(c),
            None => None,
        }),
{
    match key_char(key, mods.shift) {
        None => None,
        Some(c) => if c == ' ' || c == '2' {
            Some(0x00)
        } else if 'a' <= c && c <= 'z' {
            Some(c as u8 - 96)
        } else if 'A' <= c && c <= 'Z' {
            Some(c as u8 - 64)
        } else if c == '[' {
            Some(0x1b)
        } else if c == '\\' {
            Some(0x1c)
        } else if c == ']' {
            Some(0x1d)
        } else if c == '6' {
            Some(0x1e)
        } else if c == '-' || c == '/' {
            Some(0x1f)
        } else if c == '?' {
            Some(0x7f)
        } else {
            None
        },
    }
}

/// Whether a key press is sent as the kitty protocol spells it.
pub open spec fn builds_kitty(key: Key, mods: Modifiers, mode: TermMode) -> bool {
    ||| mode.report_all_keys_as_esc
    ||| mode.disambiguate_esc_codes && (key == Key::Escape || (kitty_mods_of(mods) != 0 && (kitty_mods_of(mods) != 1
        || key == Key::Tab || key == Key::Enter || key == Key::Backspace)))
}

fn should_build_kitty(key: Key, mods: Modifiers, mode: TermMode) -> (r: bool)
    ensures
        r == builds_kitty(key, mods, mode),
{
    if mode.report_all_keys_as_esc {
        return true;
    }
    if !mode.disambiguate_esc_codes {
        return false;
    }
    let m = kitty_mods(mods);
    key == Key::Escape || (m != 0 && (m != 1 || key == Key::Tab || key == Key::Enter || key == Key::Backspace))
}

/// The number the kitty protocol has for a key.  Keys with a legacy sequence
/// of their own have none, and a printable key held with both Ctrl and Alt is
/// AltGr, whose composed character arrives as text.
pub open spec fn kitty_code(key: Key, mods: Modifiers) -> Option<nat> {
    match key {
        Key::Tab => Some(9nat),
        Key::Enter => Some(13nat),
        Key::Escape => Some(27nat),
        Key::Backspace => Some(127nat),
        _ => if mods.ctrl && mods.alt {
            None
        } else {
            match plain_char(key) {
                Some(c) => Some(c as nat),
                None => None,
            }
        },
    }
}

/// The kitty protocol's sequence for a key.
pub open spec fn kitty_bytes(key: Key, mods: Modifiers) -> Option<Seq<u8>> {
    match kitty_code(key, mods) {
        None => None,
        Some(code) => Some(
            if kitty_mods_of(mods) == 0 {
                seq![0x1bu8, 91u8] + ascii(decimal(code)) + seq![117u8]
            } else {
                seq![0x1bu8, 91u8] + ascii(decimal(code)) + seq![59u8] + ascii(
                    decimal((kitty_mods_of(mods) + 1) as nat),
                ) + seq![117u8]
            },
        ),
    }
}

/// A number's digits fit one byte each.
pub proof fn digits_are_ascii(n: nat)
    ensures
        forall|i: int| 0 <= i < decimal(n).len() ==> #[trigger] decimal(n)[i] < 128,
    decreases n,
{
    assert(n % 10 < 10 && digit_char(n % 10) < 128);
    if n >= 10 {
        digits_are_ascii(n / 10);
        let front = decimal(n / 10);
        assert forall|i: int| 0 <= i < decimal(n).len() implies #[trigger] decimal(n)[i] < 128 by {
            if i < front.len() {
                assert(decimal(n)[i] == front[i]);
            }
        }
    }
}

pub(crate) fn push_number(out: &mut Vec<u8>, n: u64)
    ensures
        final(out)@ == old(out)@ + ascii(decimal(n as nat)),
{
    proof {
        digits_are_ascii(n as nat);
    }
    let text = decimal_text(n);
    let mut digits = ascii_bytes(&text);
    out.append(&mut digits);
}

fn kitty_sequence(key: Key, mods: Modifiers) -> (r: Option<Vec<u8>>)
    ensures
        opt_bytes(r) == kitty_bytes(key, mods),
{
    let code: u64 = match key {
        Key::Tab => 9,
        Key::Enter => 13,
        Key::Escape => 27,
        Key::Backspace => 127,
        _ => {
            if mods.ctrl && mods.alt {
                return None;
            }
            // Kitty wants the unshifted key code, with Shift reported in the
            // modifier field.
            match key_char(key, false) {
                Some(c) => c as u64,
                None => {
                    return None;
                },
            }
        },
    };
    let m = kitty_mods(mods);
    let mut out: Vec<u8> = vec![0x1b, 91];
    push_number(&mut out, code);
    if m != 0 {
        out.push(59);
        push_number(&mut out, m as u64 + 1);
    }
    out.push(117);
    assert(opt_bytes(Some(out))->0 =~= kitty_bytes(key, mods)->0);
    Some(out)
}

/// The bytes of a sequence that may not be there.
pub open spec fn opt_bytes(r: Option<Vec<u8>>) -> Option<Seq<u8>> {
    match r {
        Some(bytes) => Some(bytes@),
        None => None,
    }
}

/// `ESC [ <final>`, with the modifier where one is held.
pub open spec fn csi(last: u8, mods: Modifiers) -> Seq<u8> {
    match csi_digit(mods) {
        Some(m) => seq![0x1bu8, 91u8, 49u8, 59u8, m, last],
        None => seq![0x1bu8, 91u8, last],
    }
}

/// `ESC O <final>`, or as `csi` where a modifier is held.
pub open spec fn ss3(last: u8, mods: Modifiers) -> Seq<u8> {
    match csi_digit(mods) {
        Some(m) => seq![0x1bu8, 91u8, 49u8, 59u8, m, last],
        None => seq![0x1bu8, 79u8, last],
    }
}

/// `ESC [ <n> ~`, with the modifier where one is held.
pub open spec fn tilde(number: nat, mods: Modifiers) -> Seq<u8> {
    match csi_digit(mods) {
        Some(m) => seq![0x1bu8, 91u8] + ascii(decimal(number)) + seq![59u8, m, 126u8],
        None => seq![0x1bu8, 91u8] + ascii(decimal(number)) + seq![126u8],
    }
}

/// A key's own byte, behind an escape where Alt is held.
pub open spec fn meta(byte: u8, mods: Modifiers) -> Seq<u8> {
    if mods.alt {
        seq![0x1bu8, byte]
    } else {
        seq![byte]
    }
}

/// The bytes of a key that never produces composed text.
pub open spec fn named_bytes(key: Key, mods: Modifiers) -> Option<Seq<u8>> {
    match key {
        Key::ArrowUp => Some(csi(65, mods)),
        Key::ArrowDown => Some(csi(66, mods)),
        Key::ArrowRight => Some(csi(67, mods)),
        Key::ArrowLeft => Some(csi(68, mods)),
        Key::Home => Some(csi(72, mods)),
        Key::End => Some(csi(70, mods)),
        Key::Insert => Some(tilde(2, mods)),
        Key::Delete => Some(tilde(3, mods)),
        Key::PageUp => Some(tilde(5, mods)),
        Key::PageDown => Some(tilde(6, mods)),
        Key::F1 => Some(ss3(80, mods)),
        Key::F2 => Some(ss3(81, mods)),
        Key::F3 => Some(ss3(82, mods)),
        Key::F4 => Some(ss3(83, mods)),
        Key::F5 => Some(tilde(15, mods)),
        Key::F6 => Some(tilde(17, mods)),
        Key::F7 => Some(tilde(18, mods)),
        Key::F8 => Some(tilde(19, mods)),
        Key::F9 => Some(tilde(20, mods)),
        Key::F10 => Some(tilde(21, mods)),
        Key::F11 => Some(tilde(23, mods)),
        Key::F12 => Some(tilde(24, mods)),
        Key::Tab => if mods.shift {
            Some(seq![0x1bu8, 91u8, 90u8])
        } else {
            Some(meta(9, mods))
        },
        Key::Enter => Some(meta(13, mods)),
        Key::Backspace => Some(meta(127, mods)),
        Key::Escape => Some(meta(27, mods)),
        _ => None,
    }
}

fn csi_bytes(last: u8, mods: Modifiers) -> (r: Vec<u8>)
    ensures
        r@ == csi(last, mods),
{
    let r = match csi_modifier(mods) {
        Some(m) => vec![0x1b, 91, 49, 59, m, last],
        None => vec![0x1b, 91, last],
    };
    assert(r@ =~= csi(last, mods));
    r
}

fn ss3_bytes(last: u8, mods: Modifiers) -> (r: Vec<u8>)
    ensures
        r@ == ss3(last, mods),
{
    let r = match csi_modifier(mods) {
        Some(m) => vec![0x1b, 91, 49, 59, m, last],
        None => vec![0x1b, 79, last],
    };
    assert(r@ =~= ss3(last, mods));
    r
}

fn tilde_bytes(number: u64, mods: Modifiers) -> (r: Vec<u8>)
    ensures
        r@ == tilde(number as nat, mods),
{
    let mut out: Vec<u8> = vec![0x1b, 91];
    push_number(&mut out, number);
    if let Some(m) = csi_modifier(mods) {
        out.push(59);
        out.push(m);
    }
    out.push(126);
    assert(out@ =~= tilde(number as nat, mods));
    out
}

fn meta_bytes(byte: u8, mods: Modifiers) -> (r: Vec<u8>)
    ensures
        r@ == meta(byte, mods),
{
    let r = if mods.alt {
        vec![0x1b, byte]
    } else {
        vec![byte]
    };
    assert(r@ =~= meta(byte, mods));
    r
}

/// Encoding for keys that never produce composed text.  Because no text
/// follows these, every modifier combination is safe to encode here, Ctrl+Alt
/// among them.
fn named_key_bytes(key: Key, mods: Modifiers) -> (r: Option<Vec<u8>>)
    ensures
        opt_bytes(r) == named_bytes(key, mods),
{
    let bytes = match key {
        Key::ArrowUp => csi_bytes(65, mods),
        Key::ArrowDown => csi_bytes(66, mods),
        Key::ArrowRight => csi_bytes(67, mods),
        Key::ArrowLeft => csi_bytes(68, mods),
        Key::Home => csi_bytes(72, mods),
        Key::End => csi_bytes(70, mods),
        Key::Insert => tilde_bytes(2, mods),
        Key::Delete => tilde_bytes(3, mods),
        Key::PageUp => tilde_bytes(5, mods),
        Key::PageDown => tilde_bytes(6, mods),
        Key::F1 => ss3_bytes(80, mods),
        Key::F2 => ss3_bytes(81, mods),
        Key::F3 => ss3_bytes(82, mods),
        Key::F4 => ss3_bytes(83, mods),
        Key::F5 => tilde_bytes(15, mods),
        Key::F6 => tilde_bytes(17, mods),
        Key::F7 => tilde_bytes(18, mods),
        Key::F8 => tilde_bytes(19, mods),
        Key::F9 => tilde_bytes(20, mods),
        Key::F10 => tilde_bytes(21, mods),
        Key::F11 => tilde_bytes(23, mods),
        Key::F12 => tilde_bytes(24, mods),
        Key::Tab => if mods.shift {
            vec![0x1b, 91, 90]
        } else {
            meta_bytes(9, mods)
        },
        Key::Enter => meta_bytes(13, mods),
        Key::Backspace => meta_bytes(127, mods),
        Key::Escape => meta_bytes(27, mods),
        _ => {
            return None;
        },
    };
    assert(named_bytes(key, mods) is Some);
    assert(bytes@ =~= named_bytes(key, mods)->0);
    Some(bytes)
}

/// The bytes of a printable key as a terminal without the kitty protocol gets
/// them.  Ctrl and Alt together are AltGr, and plain Alt is meta only on
/// Windows: elsewhere the composed character arrives as text.
pub open spec fn printable_bytes(key: Key, mods: Modifiers, platform: Platform) -> Option<Seq<u8>> {
    if mods.ctrl && mods.alt {
        None
    } else if mods.ctrl {
        match char_of(key, mods.shift) {
            Some(c) => match control_of(c) {
                Some(b) => Some(seq![b]),
                None => None,
            },
            None => None,
        }
    } else if mods.alt && platform is Windows {
        match char_of(key, mods.shift) {
            Some(c) => Some(seq![0x1bu8, c as u8]),
            None => None,
        }
    } else {
        None
    }
}

/// The bytes a key press puts on a terminal.
pub open spec fn key_bytes(key: Key, mods: Modifiers, mode: TermMode, platform: Platform) -> Option<Seq<u8>> {
    if builds_kitty(key, mods, mode) && kitty_bytes(key, mods) is Some {
        kitty_bytes(key, mods)
    } else if named_bytes(key, mods) is Some {
        named_bytes(key, mods)
    } else {
        printable_bytes(key, mods, platform)
    }
}

/// The bytes a key press puts on a terminal.
pub fn key_to_bytes(key: Key, mods: Modifiers, mode: TermMode, platform: Platform) -> (r: Option<Vec<u8>>)
    ensures
        opt_bytes(r) == key_bytes(key, mods, mode, platform),
{
    if should_build_kitty(key, mods, mode) {
        if let Some(bytes) = kitty_sequence(key, mods) {
            return Some(bytes);
        }
    }
    if let Some(bytes) = named_key_bytes(key, mods) {
        return Some(bytes);
    }
    if mods.ctrl && mods.alt {
        return None;
    }
    if mods.ctrl {
        return match control_byte(key, mods) {
            Some(b) => {
                let out: Vec<u8> = vec![b];
                assert(out@ =~= seq![b]);
                Some(out)
            },
            None => None,
        };
    }
    if mods.alt && platform == Platform::Windows {
        return match key_char(key, mods.shift) {
            Some(c) => {
                let out: Vec<u8> = vec![0x1b, c as u8];
                assert(out@ =~= seq![0x1bu8, c as u8]);
                Some(out)
            },
            None => None,
        };
    }
    None
}

/// The bytes an event puts on a terminal.  Text is dropped where every key
/// comes as an escape sequence: the key event has already encoded the press.
pub open spec fn event_bytes(event: InputEvent, mode: TermMode, platform: Platform) -> Option<Seq<u8>> {
    match event {
        InputEvent::Text(text) => if text@.len() == 0 || mode.report_all_keys_as_esc {
            None
        } else {
            Some(encode_utf8(text@))
        },
        InputEvent::Key { key, pressed, modifiers } => if pressed {
            key_bytes(key, modifiers, mode, platform)
        } else {
            None
        },
        InputEvent::Copy | InputEvent::Cut | InputEvent::Other => None,
    }
}

/// The bytes an event puts on a terminal.
pub fn event_to_bytes(event: &InputEvent, mode: TermMode, platform: Platform) -> (r: Option<Vec<u8>>)
    ensures
        opt_bytes(r) == event_bytes(*event, mode, platform),
{
    match event {
        InputEvent::Text(text) => {
            let empty = chars_of(text).len() == 0;
            if empty || mode.report_all_keys_as_esc {
                None
            } else {
                Some(text.as_str().as_bytes_vec())
            }
        },
        InputEvent::Key { key, pressed, modifiers } => if *pressed {
            key_to_bytes(*key, *modifiers, mode, platform)
        } else {
            None
        },
        InputEvent::Copy | InputEvent::Cut | InputEvent::Other => None,
    }
}

/// A press is never sent twice: a printable key is silent wherever its
/// composed character arrives as text instead.
pub proof fn a_composed_press_is_sent_once(key: Key, mods: Modifiers, mode: TermMode, platform: Platform)
    requires
        plain_char(key) is Some,
        mods.ctrl && mods.alt,
    ensures
        key_bytes(key, mods, mode, platform) is None,
{
}

/// Where every key comes as an escape sequence, no typed text is passed on.
pub proof fn escape_reports_mute_text(text: String, mode: TermMode, platform: Platform)
    requires
        mode.report_all_keys_as_esc,
    ensures
        event_bytes(InputEvent::Text(text), mode, platform) is None,
{
}

/// Without the kitty protocol, a press of a plain printable key puts nothing
/// on the terminal: its text does.
pub proof fn a_plain_printable_is_left_to_its_text(key: Key, mods: Modifiers, mode: TermMode, platform: Platform)
    requires
        plain_char(key) is Some,
        !mods.ctrl,
        !mods.alt,
        !mods.mac_cmd,
        !mode.report_all_keys_as_esc,
    ensures
        key_bytes(key, mods, mode, platform) is None,
{
}

} // verus!

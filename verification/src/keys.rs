//! Keys, the modifiers held with them, and what a terminal application has
//! asked to be told.

use vstd::prelude::*;

verus! {

/// A key by what it does.  Shifted punctuation is a key of its own.
#[derive(Debug, Clone, Copy, PartialEq, Eq, Structural)]
pub enum Key {
    ArrowDown,
    ArrowLeft,
    ArrowRight,
    ArrowUp,
    Escape,
    Tab,
    Backspace,
    Enter,
    Space,
    Insert,
    Delete,
    Home,
    End,
    PageUp,
    PageDown,
    Colon,
    Comma,
    Backslash,
    Slash,
    Pipe,
    Questionmark,
    Exclamationmark,
    OpenBracket,
    CloseBracket,
    OpenCurlyBracket,
    CloseCurlyBracket,
    Backtick,
    Minus,
    Period,
    Plus,
    Equals,
    Semicolon,
    Quote,
    Num0,
    Num1,
    Num2,
    Num3,
    Num4,
    Num5,
    Num6,
    Num7,
    Num8,
    Num9,
    A,
    B,
    C,
    D,
    E,
    F,
    G,
    H,
    I,
    J,
    K,
    L,
    M,
    N,
    O,
    P,
    Q,
    R,
    S,
    T,
    U,
    V,
    W,
    X,
    Y,
    Z,
    F1,
    F2,
    F3,
    F4,
    F5,
    F6,
    F7,
    F8,
    F9,
    F10,
    F11,
    F12,
    /// Any other key.
    Other,
}

/// The modifiers held with a key.
#[derive(Debug, Clone, Copy, PartialEq, Eq, Structural)]
pub struct Modifiers {
    pub alt: bool,
    pub ctrl: bool,
    pub shift: bool,
    pub mac_cmd: bool,
}

impl Modifiers {
    /// No modifier held.
    pub fn none() -> (r: Self)
        ensures
            r == (Modifiers { alt: false, ctrl: false, shift: false, mac_cmd: false }),
    {
        Modifiers { alt: false, ctrl: false, shift: false, mac_cmd: false }
    }
}

/// What the application in a terminal has asked for, as far as input is
/// encoded by it.
#[derive(Debug, Clone, Copy, PartialEq, Eq, Structural)]
pub struct TermMode {
    /// Keys whose plain bytes are ambiguous come as escape sequences.
    pub disambiguate_esc_codes: bool,
    /// Every key comes as an escape sequence.
    pub report_all_keys_as_esc: bool,
    /// Mouse reports name their numbers in decimal.
    pub sgr_mouse: bool,
    /// Mouse reports may spend two bytes on a coordinate.
    pub utf8_mouse: bool,
    /// A paste comes between markers.
    pub bracketed_paste: bool,
}

impl TermMode {
    /// A terminal of which nothing has been asked.
    pub fn none() -> (r: Self)
        ensures
            r == (TermMode {
                disambiguate_esc_codes: false,
                report_all_keys_as_esc: false,
                sgr_mouse: false,
                utf8_mouse: false,
                bracketed_paste: false,
            }),
    {
        TermMode {
            disambiguate_esc_codes: false,
            report_all_keys_as_esc: false,
            sgr_mouse: false,
            utf8_mouse: false,
            bracketed_paste: false,
        }
    }
}

} // verus!

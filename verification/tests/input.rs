use alacritree::input::{event_to_bytes, key_char, InputEvent};
use alacritree::keys::{Key, Modifiers, TermMode};
use alacritree::side::Platform;

const NONE: Modifiers = Modifiers { alt: false, ctrl: false, shift: false, mac_cmd: false };
const CTRL: Modifiers = Modifiers { alt: false, ctrl: true, shift: false, mac_cmd: false };
const SHIFT: Modifiers = Modifiers { alt: false, ctrl: false, shift: true, mac_cmd: false };
const ALT: Modifiers = Modifiers { alt: true, ctrl: false, shift: false, mac_cmd: false };

const DISAMBIGUATE: TermMode = TermMode {
    disambiguate_esc_codes: true,
    report_all_keys_as_esc: false,
    sgr_mouse: false,
    utf8_mouse: false,
    bracketed_paste: false,
};
const REPORT_ALL: TermMode = TermMode {
    disambiguate_esc_codes: false,
    report_all_keys_as_esc: true,
    sgr_mouse: false,
    utf8_mouse: false,
    bracketed_paste: false,
};

fn ctrl_shift() -> Modifiers {
    Modifiers { ctrl: true, shift: true, ..NONE }
}

fn encode(key: Key, mods: Modifiers, mode: TermMode) -> Option<Vec<u8>> {
    alacritree::input::key_to_bytes(key, mods, mode, Platform::Unix)
}

/// A key in a terminal that was asked for nothing.
fn key_to_bytes(key: Key, mods: Modifiers) -> Option<Vec<u8>> {
    encode(key, mods, TermMode::none())
}

fn on_windows(key: Key, mods: Modifiers) -> Option<Vec<u8>> {
    alacritree::input::key_to_bytes(key, mods, TermMode::none(), Platform::Windows)
}

#[test]
fn kitty_disambiguate_encodes_modified_enter() {
    assert_eq!(
        encode(Key::Enter, SHIFT, DISAMBIGUATE),
        Some(b"\x1b[13;2u".to_vec())
    );
    assert_eq!(
        encode(Key::Enter, ALT, DISAMBIGUATE),
        Some(b"\x1b[13;3u".to_vec())
    );
    assert_eq!(
        encode(Key::Enter, CTRL, DISAMBIGUATE),
        Some(b"\x1b[13;5u".to_vec())
    );
}

#[test]
fn kitty_disambiguate_encodes_shifted_tab_and_backspace() {
    assert_eq!(
        encode(Key::Tab, SHIFT, DISAMBIGUATE),
        Some(b"\x1b[9;2u".to_vec())
    );
    assert_eq!(
        encode(Key::Backspace, SHIFT, DISAMBIGUATE),
        Some(b"\x1b[127;2u".to_vec())
    );
}

#[test]
fn kitty_disambiguate_keeps_plain_keys_legacy() {
    assert_eq!(encode(Key::Enter, NONE, DISAMBIGUATE), Some(b"\r".to_vec()));
    assert_eq!(encode(Key::Tab, NONE, DISAMBIGUATE), Some(b"\t".to_vec()));
    assert_eq!(
        encode(Key::Backspace, NONE, DISAMBIGUATE),
        Some(b"\x7f".to_vec())
    );
}

#[test]
fn kitty_disambiguate_always_escapes_escape() {
    assert_eq!(
        encode(Key::Escape, NONE, DISAMBIGUATE),
        Some(b"\x1b[27u".to_vec())
    );
}

#[test]
fn kitty_disambiguate_encodes_ctrl_printables_unshifted() {
    assert_eq!(
        encode(Key::A, CTRL, DISAMBIGUATE),
        Some(b"\x1b[97;5u".to_vec())
    );
    assert_eq!(
        encode(Key::Space, CTRL, DISAMBIGUATE),
        Some(b"\x1b[32;5u".to_vec())
    );
    // Shift is reported in the modifier field, not in the key code.
    assert_eq!(
        encode(Key::C, ctrl_shift(), DISAMBIGUATE),
        Some(b"\x1b[99;6u".to_vec())
    );
}

#[test]
fn kitty_disambiguate_leaves_shift_only_printables_to_text() {
    assert_eq!(encode(Key::A, SHIFT, DISAMBIGUATE), None);
}

#[test]
fn kitty_disambiguate_keeps_legacy_csi_for_modified_arrows() {
    assert_eq!(
        encode(Key::ArrowUp, CTRL, DISAMBIGUATE),
        Some(b"\x1b[1;5A".to_vec())
    );
}

#[test]
fn kitty_disambiguate_altgr_printables_stay_silent() {
    let ctrl_alt = Modifiers { ctrl: true, alt: true, ..NONE };
    assert_eq!(encode(Key::Q, ctrl_alt, DISAMBIGUATE), None);
}

#[test]
fn kitty_report_all_encodes_plain_keys_and_mutes_text() {
    assert_eq!(
        encode(Key::Enter, NONE, REPORT_ALL),
        Some(b"\x1b[13u".to_vec())
    );
    assert_eq!(encode(Key::A, NONE, REPORT_ALL), Some(b"\x1b[97u".to_vec()));
    assert_eq!(event_to_bytes(&InputEvent::Text("a".to_string()), REPORT_ALL, Platform::Unix), None);
}

#[test]
fn ctrl_slash_sends_unit_separator() {
    assert_eq!(key_to_bytes(Key::Slash, CTRL), Some(vec![0x1f]));
}

#[test]
fn ctrl_letters_send_c0_bytes() {
    assert_eq!(key_to_bytes(Key::A, CTRL), Some(vec![0x01]));
    assert_eq!(key_to_bytes(Key::C, CTRL), Some(vec![0x03]));
    assert_eq!(key_to_bytes(Key::Z, CTRL), Some(vec![0x1a]));
    // Shift+Ctrl+letter sends the same byte as Ctrl+letter.
    assert_eq!(key_to_bytes(Key::C, ctrl_shift()), Some(vec![0x03]));
}

#[test]
fn ctrl_punctuation_matches_xterm() {
    assert_eq!(key_to_bytes(Key::Space, CTRL), Some(vec![0x00]));
    assert_eq!(key_to_bytes(Key::Num2, CTRL), Some(vec![0x00]));
    assert_eq!(key_to_bytes(Key::OpenBracket, CTRL), Some(vec![0x1b]));
    assert_eq!(key_to_bytes(Key::Backslash, CTRL), Some(vec![0x1c]));
    assert_eq!(key_to_bytes(Key::CloseBracket, CTRL), Some(vec![0x1d]));
    assert_eq!(key_to_bytes(Key::Num6, CTRL), Some(vec![0x1e]));
    assert_eq!(key_to_bytes(Key::Minus, CTRL), Some(vec![0x1f]));
    assert_eq!(key_to_bytes(Key::Questionmark, CTRL), Some(vec![0x7f]));
}

#[test]
fn ctrl_unmapped_key_sends_nothing() {
    assert_eq!(key_to_bytes(Key::Quote, CTRL), None);
}

#[test]
fn plain_named_keys_unchanged() {
    assert_eq!(key_to_bytes(Key::ArrowUp, NONE), Some(b"\x1b[A".to_vec()));
    assert_eq!(key_to_bytes(Key::Enter, NONE), Some(b"\r".to_vec()));
    assert_eq!(key_to_bytes(Key::Tab, NONE), Some(b"\t".to_vec()));
    assert_eq!(key_to_bytes(Key::Backspace, NONE), Some(b"\x7f".to_vec()));
    assert_eq!(key_to_bytes(Key::F1, NONE), Some(b"\x1bOP".to_vec()));
    assert_eq!(key_to_bytes(Key::F5, NONE), Some(b"\x1b[15~".to_vec()));
}

#[test]
fn text_event_passes_through() {
    let ev = InputEvent::Text("é".to_string());
    assert_eq!(event_to_bytes(&ev, TermMode::none(), Platform::Unix), Some("é".as_bytes().to_vec()));
}

#[test]
fn modified_arrows_and_nav_keys_use_csi_modifiers() {
    assert_eq!(key_to_bytes(Key::ArrowRight, CTRL), Some(b"\x1b[1;5C".to_vec()));
    assert_eq!(key_to_bytes(Key::ArrowLeft, ALT), Some(b"\x1b[1;3D".to_vec()));
    assert_eq!(key_to_bytes(Key::ArrowUp, SHIFT), Some(b"\x1b[1;2A".to_vec()));
    assert_eq!(
        key_to_bytes(Key::Home, Modifiers { ctrl: true, shift: true, ..NONE }),
        Some(b"\x1b[1;6H".to_vec())
    );
    assert_eq!(key_to_bytes(Key::Delete, SHIFT), Some(b"\x1b[3;2~".to_vec()));
    assert_eq!(key_to_bytes(Key::PageUp, CTRL), Some(b"\x1b[5;5~".to_vec()));
}

#[test]
fn modified_function_keys() {
    // Modified F1-F4 switch from SS3 to CSI form.
    assert_eq!(key_to_bytes(Key::F1, SHIFT), Some(b"\x1b[1;2P".to_vec()));
    assert_eq!(key_to_bytes(Key::F5, CTRL), Some(b"\x1b[15;5~".to_vec()));
}

#[test]
fn shift_tab_sends_backtab() {
    assert_eq!(key_to_bytes(Key::Tab, SHIFT), Some(b"\x1b[Z".to_vec()));
}

#[test]
fn alt_on_simple_named_keys_prefixes_esc() {
    assert_eq!(key_to_bytes(Key::Enter, ALT), Some(b"\x1b\r".to_vec()));
    assert_eq!(key_to_bytes(Key::Backspace, ALT), Some(b"\x1b\x7f".to_vec()));
}

#[test]
fn ctrl_alt_on_named_keys_is_encoded_not_suppressed() {
    // AltGr suppression applies to printables only; arrows never compose
    // text, so Ctrl+Alt encodes as modifier 7.
    let ctrl_alt = Modifiers { ctrl: true, alt: true, ..NONE };
    assert_eq!(key_to_bytes(Key::ArrowRight, ctrl_alt), Some(b"\x1b[1;7C".to_vec()));
}

#[test]
fn alt_printables_send_esc_prefixed_char() {
    assert_eq!(on_windows(Key::B, ALT), Some(b"\x1bb".to_vec()));
    assert_eq!(
        on_windows(Key::B, Modifiers { alt: true, shift: true, ..NONE }),
        Some(b"\x1bB".to_vec())
    );
    assert_eq!(on_windows(Key::Period, ALT), Some(b"\x1b.".to_vec()));
    assert_eq!(on_windows(Key::Num1, ALT), Some(b"\x1b1".to_vec()));
}

/// Off Windows the composed character arrives via `Event::Text`, so the
/// key event itself must stay silent .
#[test]
fn alt_printables_stay_silent_where_text_composes() {
    assert_eq!(key_to_bytes(Key::B, ALT), None);
    assert_eq!(key_to_bytes(Key::Period, ALT), None);
}

#[test]
fn ctrl_alt_printables_stay_silent_for_altgr() {
    // winit reports AltGr as Ctrl+Alt; the composed character arrives via
    // Event::Text, so emitting bytes here would double the input.
    let ctrl_alt = Modifiers { ctrl: true, alt: true, ..NONE };
    assert_eq!(key_to_bytes(Key::Q, ctrl_alt), None);
    assert_eq!(key_to_bytes(Key::Num2, ctrl_alt), None);
    assert_eq!(key_to_bytes(Key::OpenBracket, ctrl_alt), None);
}

/// egui's clipboard commands ignore Shift, so Ctrl+Shift+C raises the same
/// synthetic `Copy` as Ctrl+C.  Encoding it would send the interrupt on the
/// copy shortcut; the Key event emitted alongside it carries the modifiers
/// and is what the binding table and the encoder act on.
#[test]
fn synthetic_clipboard_events_send_nothing() {
    assert_eq!(event_to_bytes(&InputEvent::Copy, TermMode::none(), Platform::Unix), None);
    assert_eq!(event_to_bytes(&InputEvent::Cut, TermMode::none(), Platform::Unix), None);
}

#[test]
fn an_event_of_another_kind_sends_nothing() {
    assert_eq!(event_to_bytes(&InputEvent::Other, TermMode::none(), Platform::Unix), None);
}

/// The interrupt still has to reach the PTY off the Key event.
#[test]
fn ctrl_c_still_sends_sigint() {
    let ctrl = Modifiers { ctrl: true, ..NONE };
    let event = InputEvent::Key { key: Key::C, pressed: true, modifiers: ctrl };
    assert_eq!(event_to_bytes(&event, TermMode::none(), Platform::Unix), Some(vec![0x03]));
}

#[test]
fn an_empty_text_sends_nothing() {
    let text = InputEvent::Text(String::new());
    assert_eq!(event_to_bytes(&text, TermMode::none(), Platform::Unix), None);
}

#[test]
fn a_release_sends_nothing() {
    let release = InputEvent::Key { key: Key::A, pressed: false, modifiers: CTRL };
    assert_eq!(event_to_bytes(&release, TermMode::none(), Platform::Unix), None);
}

#[test]
fn an_unknown_key_sends_nothing() {
    assert_eq!(key_to_bytes(Key::Other, NONE), None);
    assert_eq!(key_to_bytes(Key::A, NONE), None);
}

/// A composed press is sent once: by its text or by its key, never by both.
#[test]
fn alt_on_a_letter_is_sent_by_one_event() {
    assert_eq!(on_windows(Key::B, ALT), Some(b"\x1bb".to_vec()));
    assert_eq!(key_to_bytes(Key::B, ALT), None);
}

/// Shift upper-cases a letter and leaves a digit as it is, and no two keys
/// send the same character.
#[test]
fn shift_only_upper_cases_a_letter() {
    assert_eq!((key_char(Key::A, false), key_char(Key::A, true)), (Some('a'), Some('A')));
    assert_eq!((key_char(Key::Num1, false), key_char(Key::Num1, true)), (Some('1'), Some('1')));
    assert_eq!(key_char(Key::Questionmark, true), Some('?'));
    assert_eq!(key_char(Key::Escape, false), None);
    let shift = Modifiers { shift: true, ..ALT };
    assert_eq!(key_to_bytes(Key::A, ALT), Some(b"\x1ba".to_vec()));
    assert_eq!(key_to_bytes(Key::A, shift), Some(b"\x1bA".to_vec()));
    assert_eq!(key_to_bytes(Key::Num1, ALT), Some(b"\x1b1".to_vec()));
    assert_eq!(key_to_bytes(Key::Num1, shift), Some(b"\x1b1".to_vec()));
    assert_eq!(key_to_bytes(Key::Exclamationmark, shift), Some(b"\x1b!".to_vec()));
}

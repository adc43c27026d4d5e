use alacritree::paste::{on_terminal_input_start, paste_bytes, write_selection, Target};

#[test]
fn a_bracketed_paste_wraps_the_text_and_strips_the_end_marker_bytes() {
    let bytes = paste_bytes("a\x1bb\x03c", true, true);
    assert_eq!(bytes, b"\x1b[200~abc\x1b[201~".to_vec());
}

/// An application that never enabled bracketed paste sees typing, and `\r`
/// is Enter — so every newline here submits a line.
#[test]
fn a_paste_into_an_app_without_bracketed_paste_turns_newlines_into_enter() {
    assert_eq!(paste_bytes("a\r\nb\nc", true, false), b"a\rb\rc".to_vec());
}

/// `bracketed = false` is for writes that must reach the PTY verbatim.
#[test]
fn an_unbracketed_write_is_passed_through_untouched() {
    assert_eq!(paste_bytes("a\nb\x1b", false, true), "a\nb\x1b".as_bytes().to_vec());
}

#[test]
fn a_pasted_end_marker_cannot_end_the_paste() {
    let bytes = paste_bytes("a\x1b[201~b", true, true);
    assert_eq!(bytes, b"\x1b[200~a[201~b\x1b[201~".to_vec());
}

#[test]
fn text_beyond_ascii_is_pasted_whole() {
    assert_eq!(paste_bytes("é", true, true), "\x1b[200~é\x1b[201~".as_bytes().to_vec());
    assert_eq!(paste_bytes("", true, true), b"\x1b[200~\x1b[201~".to_vec());
}

#[test]
fn a_clipboard_copy_stays_out_of_the_primary() {
    let both = vec![Target::Clipboard, Target::Primary];
    assert_eq!(write_selection(Some("x"), Target::Primary, true), both);
    assert_eq!(write_selection(Some("x"), Target::Primary, false), vec![Target::Primary]);
    assert_eq!(write_selection(Some("x"), Target::Clipboard, true), vec![Target::Clipboard]);
    assert!(write_selection(Some(""), Target::Primary, true).is_empty());
    assert!(write_selection(None, Target::Clipboard, true).is_empty());
}

#[test]
fn input_brings_the_view_back() {
    assert!(on_terminal_input_start(3));
    assert!(!on_terminal_input_start(0));
}

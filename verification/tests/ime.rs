use alacritree::ime::{char_cells, place, preedit_layout, Ime, ImeEvent};


#[test]
fn preedit_tracks_composition() {
    let mut ime = Ime::new();
    assert_eq!(ime.process(ImeEvent::Enabled), None);
    assert_eq!(ime.process(ImeEvent::Preedit("あ".into())), None);
    assert_eq!(ime.preedit(), Some("あ"));
    assert_eq!(ime.process(ImeEvent::Preedit("あい".into())), None);
    assert_eq!(ime.preedit(), Some("あい"));
}

#[test]
fn empty_preedit_clears() {
    let mut ime = Ime::new();
    ime.process(ImeEvent::Preedit("あ".into()));
    ime.process(ImeEvent::Preedit(String::new()));
    assert_eq!(ime.preedit(), None);
}

#[test]
fn commit_returns_text_and_clears_preedit() {
    let mut ime = Ime::new();
    ime.process(ImeEvent::Preedit("あ".into()));
    assert_eq!(ime.process(ImeEvent::Commit("愛".into())), Some("愛".into()));
    assert_eq!(ime.preedit(), None);
}

#[test]
fn bare_newline_and_empty_commits_are_dropped() {
    let mut ime = Ime::new();
    assert_eq!(ime.process(ImeEvent::Commit("\n".into())), None);
    assert_eq!(ime.process(ImeEvent::Commit("\r".into())), None);
    assert_eq!(ime.process(ImeEvent::Commit(String::new())), None);
}

#[test]
fn enabled_and_disabled_clear_preedit() {
    let mut ime = Ime::new();
    ime.process(ImeEvent::Preedit("あ".into()));
    ime.process(ImeEvent::Disabled);
    assert_eq!(ime.preedit(), None);
    ime.process(ImeEvent::Preedit("い".into()));
    ime.process(ImeEvent::Enabled);
    assert_eq!(ime.preedit(), None);
}

#[test]
fn retarget_clears_only_on_session_change() {
    let mut ime = Ime::new();
    ime.retarget(1);
    ime.process(ImeEvent::Preedit("あ".into()));
    ime.retarget(1);
    assert_eq!(ime.preedit(), Some("あ"));
    ime.retarget(2);
    assert_eq!(ime.preedit(), None);
}

#[test]
fn layout_ascii_at_cursor() {
    let l = preedit_layout("abc", 5, 80);
    assert_eq!((l.start_col, l.visible.as_str(), l.width), (5, "abc", 3));
}

#[test]
fn layout_wide_chars_take_two_cells() {
    let l = preedit_layout("あい", 5, 80);
    assert_eq!((l.start_col, l.visible.as_str(), l.width), (5, "あい", 4));
}

#[test]
fn layout_right_aligns_at_grid_edge() {
    // Cursor at col 78 of 80: a 4-cell preedit must end at the last
    // column, so it starts at 76.
    let l = preedit_layout("あい", 78, 80);
    assert_eq!((l.start_col, l.width), (76, 4));
}

#[test]
fn layout_truncates_from_the_left_keeping_the_end() {
    // 6 cells of text in a 4-column grid: the first wide char drops.
    let l = preedit_layout("あいう", 0, 4);
    assert_eq!((l.start_col, l.visible.as_str(), l.width), (0, "いう", 4));
}

#[test]
fn layout_empty_and_degenerate_grid() {
    let l = preedit_layout("", 3, 80);
    assert_eq!((l.start_col, l.visible.as_str(), l.width), (3, "", 0));
    let l = preedit_layout("あ", 0, 0);
    assert_eq!((l.visible.as_str(), l.width), ("", 0));
}

#[test]
fn a_character_takes_at_least_one_cell() {
    assert_eq!(char_cells('a'), 1);
    assert_eq!(char_cells('あ'), 2);
    assert_eq!(char_cells('\u{0301}'), 1);
    assert_eq!(char_cells('\u{7}'), 1);
}

#[test]
fn no_more_is_cut_than_must_be() {
    let placed = place(&vec![2, 1, 2, 1], 0, 4);
    assert_eq!((placed.hidden, placed.start_col, placed.width), (1, 0, 4));
    let placed = place(&vec![2, 2], 3, 3);
    assert_eq!((placed.hidden, placed.start_col, placed.width), (1, 1, 2));
}

#[test]
fn losing_focus_drops_the_composition() {
    let mut ime = Ime::new();
    ime.process(ImeEvent::Preedit("あ".into()));
    ime.clear();
    assert_eq!(ime.preedit(), None);
}

/// A cursor near the end of what can be counted is no reason to refuse a
/// composition.
#[test]
fn a_cursor_past_the_grid_ends_the_composition_at_the_edge() {
    let layout = preedit_layout("ab", usize::MAX, 10);
    assert_eq!((layout.start_col, layout.visible.as_str(), layout.width), (8, "ab", 2));
    let layout = preedit_layout("ab", usize::MAX - 1, usize::MAX);
    assert_eq!(layout.start_col, usize::MAX - 2);
    assert_eq!(place(&vec![1, 1], 3, usize::MAX).start_col, 3);
}

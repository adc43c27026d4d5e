use alacritree::keys::Key;
use alacritree::panel_filter::{Mode, Outcome, PanelFilter, SearchScope};

fn panel() -> PanelFilter {
    PanelFilter::new(vec!['s', 'a'])
}



#[test]
fn slash_enters_search_mode_and_is_consumed() {
    let mut f = panel();
    assert_eq!(f.on_text("/"), Some(Outcome::Consumed));
    assert_eq!(f.mode(), Mode::Search);
}

#[test]
fn typing_in_search_builds_the_query_and_reports_filter_change() {
    let mut f = panel();
    f.on_text("/");
    assert_eq!(f.on_text("f"), Some(Outcome::FilterChanged));
    assert_eq!(f.on_text("oo"), Some(Outcome::FilterChanged));
    assert_eq!(f.query(), "foo");
}

#[test]
fn backspace_pops_the_query_in_search() {
    let mut f = panel();
    f.on_text("/");
    f.on_text("foo");
    assert_eq!(f.on_key(Key::Backspace), Some(Outcome::FilterChanged));
    assert_eq!(f.query(), "fo");
    assert_eq!(f.mode(), Mode::Search);
}

#[test]
fn enter_and_escape_in_search_fall_through_unconsumed() {
    // Both are rebindable search actions dispatched via the binding table,
    // so the filter must not consume them or mutate its own state.
    let mut f = panel();
    f.on_text("/");
    f.on_text("foo");
    assert_eq!(f.on_key(Key::Enter), None);
    assert_eq!(f.on_key(Key::Escape), None);
    assert_eq!(f.mode(), Mode::Search);
    assert_eq!(f.query(), "foo");
}

#[test]
fn exit_search_clears_query_and_returns_to_browsing_keeping_toggles() {
    let mut f = panel();
    f.toggle('s');
    f.on_text("/");
    f.on_text("foo");
    assert!(f.is_toggled('s'));

    f.exit_search();
    assert_eq!(f.mode(), Mode::Browsing);
    assert_eq!(f.query(), "");
    assert!(f.is_toggled('s'), "exit_search must leave toggle filters intact");
}

#[test]
fn arrows_in_search_move_the_cursor() {
    let mut f = panel();
    f.on_text("/");
    assert_eq!(f.on_key(Key::ArrowUp), Some(Outcome::MoveCursor(-1)));
    assert_eq!(f.on_key(Key::ArrowDown), Some(Outcome::MoveCursor(1)));
}

#[test]
fn toggle_flips_an_allowed_identity_and_ignores_an_unknown_one() {
    let mut f = panel();
    f.toggle('s');
    assert!(f.is_toggled('s'));
    assert_eq!(f.active_toggles(), vec!['s']);

    f.toggle('s');
    assert!(!f.is_toggled('s'));

    f.toggle('z');
    assert!(!f.is_toggled('z'), "a char outside allowed_toggles is not a filter");
    assert_eq!(f.toggle_bits(), 0);
}

#[test]
fn clear_toggles_empties_the_set_and_leaves_the_query() {
    let mut f = panel();
    f.toggle('s');
    f.toggle('a');
    f.on_text("/");
    f.on_text("foo");

    f.clear_toggles();
    assert_eq!(f.toggle_bits(), 0);
    assert_eq!(f.query(), "foo", "the query is a separate dimension");
}

/// Browsing recognizes only `/`; every other char falls through so the
/// binding table can act on the paired key event.
#[test]
fn browsing_text_other_than_slash_is_not_consumed() {
    let mut f = panel();
    assert_eq!(f.on_text("s"), None);
    assert_eq!(f.on_text("x"), None);
    assert_eq!(f.on_text("/"), Some(Outcome::Consumed));
    assert_eq!(f.on_text("s"), Some(Outcome::FilterChanged), "in search it is query input");
    assert_eq!(f.query(), "s");
}

#[test]
fn esc_in_browsing_clears_toggles_before_leaving_the_panel() {
    let mut f = panel();
    f.toggle('s');
    assert!(f.is_toggled('s'));

    assert_eq!(f.on_key(Key::Escape), Some(Outcome::FilterChanged));
    assert!(!f.is_toggled('s'));

    assert_eq!(f.on_key(Key::Escape), Some(Outcome::LeavePanel));
}

#[test]
fn unknown_keys_and_text_are_not_consumed_in_browsing() {
    let mut f = panel();
    assert_eq!(f.on_text("x"), None);
    assert_eq!(f.on_key(Key::ArrowDown), None);
    assert_eq!(f.on_key(Key::Enter), None);
}

#[test]
fn toggle_bits_report_the_set_without_allocating() {
    let mut f = panel();
    assert_eq!(f.toggle_bits(), 0);

    f.toggle('s');
    assert_eq!(f.toggle_bits(), 0b01, "'s' is index 0");

    f.toggle('a');
    assert_eq!(f.toggle_bits(), 0b11);

    f.toggle('s');
    assert_eq!(f.toggle_bits(), 0b10, "'a' alone is index 1");
}

#[test]
fn is_filtering_tracks_query_and_toggles() {
    let mut f = panel();
    assert!(!f.is_filtering());

    f.toggle('s');
    assert!(f.is_filtering());
    f.toggle('s');
    assert!(!f.is_filtering());

    f.on_text("/");
    f.on_text("x");
    assert!(f.is_filtering());
}

#[test]
fn fuzzy_match_is_subsequence_and_smart_case() {
    let mut f = panel();
    assert!(f.matches("anything"));

    f.on_text("/");
    f.on_text("fdps");
    assert!(f.matches("fix/diff-pane-scroll"));

    let mut f = panel();
    f.on_text("/");
    f.on_text("readme");
    assert!(f.matches("README.md"));

    let mut f = panel();
    f.on_text("/");
    f.on_text("Read");
    assert!(!f.matches("readme"));
}

#[test]
fn toggles_apply_only_stands_down_for_a_live_query_under_all() {
    let mut f = panel();

    assert!(f.toggles_apply(SearchScope::Filtered));
    assert!(f.toggles_apply(SearchScope::All), "an empty query narrows nothing");

    f.on_text("/");
    f.on_text("foo");
    assert!(f.toggles_apply(SearchScope::Filtered));
    assert!(!f.toggles_apply(SearchScope::All));
}

#[test]
fn a_toggle_flipped_twice_is_as_it_was() {
    let mut f = panel();
    f.toggle('a');
    let before = f.toggle_bits();
    f.toggle('s');
    f.toggle('s');
    assert_eq!(f.toggle_bits(), before);
    assert_eq!(f.active_toggles(), vec!['a']);
}

#[test]
fn a_row_shows_when_it_matched_or_nothing_was_asked() {
    let mut f = panel();
    assert!(f.shows(false));
    f.on_text("/");
    f.on_text("x");
    assert!(!f.shows(false));
    assert!(f.shows(true));
}

#[test]
fn a_query_that_is_no_subsequence_does_not_match() {
    let mut f = panel();
    f.on_text("/");
    f.on_text("zzz");
    assert!(!f.matches("fix/diff-pane-scroll"));
}

/// A word as long as the matcher's score can count is still matched.
#[test]
fn the_longest_word_is_matched() {
    let word = "a".repeat(2520);
    let mut filter = panel();
    filter.on_text("/");
    filter.on_text(&word);
    assert!(filter.matches(&word));
    assert!(filter.matches(&format!("{word} b")));
    assert!(!filter.matches(&word[1..]));
}

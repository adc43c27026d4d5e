//! What the mouse, a paste, a composition and a panel's keys come to.

use vstd::prelude::*;

#[allow(unused_imports)]
use crate::ime::{applied, cells, commits, display_width, hidden, start_at, text_cells, total, ImeEvent};
#[allow(unused_imports)]
use crate::input::ascii;
#[allow(unused_imports)]
use crate::keys::{Key, Modifiers, TermMode};
#[allow(unused_imports)]
use crate::modal_gate::{frame, ModalGate, ModalKind};
#[allow(unused_imports)]
use crate::mouse::{coordinate, held, report_of, Point};
#[allow(unused_imports)]
use crate::panel_filter::{bits, on_in_order, FilterState, Mode, Outcome, SearchScope};
#[allow(unused_imports)]
use crate::paste::{disarmed, entered, pasted, selection_targets, Target};
#[allow(unused_imports)]
use crate::text::decimal;
#[allow(unused_imports)]
use vstd::arithmetic::power2::pow2;

verus! {

/// The modifiers of a mouse report add four for Shift, eight for Alt and
/// sixteen for Ctrl to the button.
pub proof fn mouse_modifiers_add_to_the_button(mods: Modifiers)
    ensures
        held(mods) == match (mods.ctrl, mods.alt, mods.shift) {
            (false, false, false) => 0int,
            (false, false, true) => 4,
            (false, true, false) => 8,
            (false, true, true) => 12,
            (true, false, false) => 16,
            (true, false, true) => 20,
            (true, true, false) => 24,
            (true, true, true) => 28,
        },
{
}

/// A decimal report is `ESC [ <`, the button with its modifiers, the column and
/// the line counted from one, and `M` for a press or `m` for a release.
pub proof fn a_decimal_report_names_its_cell(mode: TermMode, point: Point, button: int, pressed: bool, mods: Modifiers)
    requires
        mode.sgr_mouse,
        point.line >= 0,
        button >= 0,
    ensures
        report_of(mode, point, button, pressed, mods) == Some(
            seq![0x1bu8, 0x5b, 0x3c] + ascii(decimal((button + held(mods)) as nat)) + seq![0x3bu8] + ascii(
                decimal((point.column as int + 1) as nat),
            ) + seq![0x3bu8] + ascii(decimal((point.line as int + 1) as nat)) + seq![
                if pressed {
                    0x4du8
                } else {
                    0x6du8
                },
            ],
        ),
{
}

/// A report in bytes is `ESC [ M`, then button, column and line, each moved up
/// past the control characters; a release names the button three.
pub proof fn a_report_in_bytes_names_its_cell(mode: TermMode, point: Point, button: int, pressed: bool, mods: Modifiers)
    requires
        !mode.sgr_mouse,
        !mode.utf8_mouse,
        0 <= point.line < 223,
        point.column < 223,
        0 <= button,
        button + held(mods) <= 223,
    ensures
        report_of(mode, point, button, pressed, mods) == Some(
            seq![
                0x1bu8,
                0x5b,
                0x4d,
                (32 + held(mods) + if pressed {
                    button
                } else {
                    3
                }) as u8,
                (point.column as int + 33) as u8,
                (point.line as int + 33) as u8,
            ],
        ),
{
    assert(report_of(mode, point, button, pressed, mods)->0 =~= seq![
        0x1bu8,
        0x5b,
        0x4d,
        (32 + held(mods) + if pressed {
            button
        } else {
            3
        }) as u8,
        (point.column as int + 33) as u8,
        (point.line as int + 33) as u8,
    ]);
}

/// A cell above the screen is not reported, nor one past what the report can
/// name: 223 lines and columns in single bytes, 2015 where two may be spent.
pub proof fn a_cell_out_of_reach_is_not_reported(mode: TermMode, point: Point, button: int, pressed: bool, mods: Modifiers)
    ensures
        point.line < 0 ==> report_of(mode, point, button, pressed, mods) is None,
        !mode.sgr_mouse && !mode.utf8_mouse && (point.line >= 223 || point.column >= 223) ==> report_of(
            mode,
            point,
            button,
            pressed,
            mods,
        ) is None,
        !mode.sgr_mouse && mode.utf8_mouse && (point.line >= 2015 || point.column >= 2015) ==> report_of(
            mode,
            point,
            button,
            pressed,
            mods,
        ) is None,
        !mode.sgr_mouse && mode.utf8_mouse && 0 <= point.line < 2015 && point.column < 2015 ==> report_of(
            mode,
            point,
            button,
            pressed,
            mods,
        ) is Some,
{
}

/// A coordinate past the ninety-fifth is spent two bytes on where that is
/// allowed, which are the UTF-8 of the number moved up.
pub proof fn a_far_coordinate_is_its_utf8(at: int, mode: TermMode)
    requires
        mode.utf8_mouse,
        0 <= at < 2015,
    ensures
        at < 95 ==> coordinate(at, mode) == seq![(at + 33) as u8],
        at >= 95 ==> {
            let bytes = coordinate(at, mode);
            &&& bytes.len() == 2
            &&& 0xc0 <= bytes[0] < 0xe0 && 0x80 <= bytes[1] < 0xc0
            &&& (bytes[0] as int - 0xc0) * 64 + (bytes[1] as int - 0x80) == at + 33
        },
{
}

/// What an application that asked for markers is pasted stands between them,
/// with the escapes and interrupts taken out and nothing else.
pub proof fn a_bracketed_paste_stands_between_its_markers(text: Seq<char>)
    ensures
        pasted(text, true, true) == seq!['\x1b', '[', '2', '0', '0', '~'] + text.filter(
            |c: char| !(c == '\x1b' || c == '\x03'),
        ) + seq!['\x1b', '[', '2', '0', '1', '~'],
{
    reveal_strlit("\x1b[200~");
    reveal_strlit("\x1b[201~");
    assert("\x1b[200~"@ =~= seq!['\x1b', '[', '2', '0', '0', '~']);
    assert("\x1b[201~"@ =~= seq!['\x1b', '[', '2', '0', '1', '~']);
    the_same_is_taken_out(text);
}

proof fn the_same_is_taken_out(text: Seq<char>)
    ensures
        disarmed(text) == text.filter(|c: char| !(c == '\x1b' || c == '\x03')),
    decreases text.len(),
{
    reveal(Seq::filter);
    if text.len() > 0 {
        the_same_is_taken_out(text.drop_last());
    }
}

/// Any other paste that is bracketed is typed: each line end, however it is
/// written, is a carriage return, and everything else as it is.
pub proof fn a_typed_paste_ends_its_lines_with_returns(first: char, rest: Seq<char>)
    ensures
        pasted(rest, true, false) == entered(rest),
        entered(Seq::empty()) == Seq::<char>::empty(),
        entered(seq!['\r', '\n'] + rest) == seq!['\r'] + entered(rest),
        entered(seq!['\n'] + rest) == seq!['\r'] + entered(rest),
        first != '\n' && !(first == '\r' && rest.len() > 0 && rest[0] == '\n') ==> entered(seq![first] + rest)
            == seq![first] + entered(rest),
{
    assert((seq!['\r', '\n'] + rest).skip(2) =~= rest);
    assert((seq!['\n'] + rest).skip(1) =~= rest);
    assert((seq![first] + rest).skip(1) =~= rest);
}

/// A paste that is not bracketed is passed on as it is.
pub proof fn a_raw_paste_is_passed_on(text: Seq<char>, active: bool)
    ensures
        pasted(text, false, active) == text,
{
}

/// A selection is copied where it was asked for, and to the clipboard first
/// where the primary is saved there too; nothing is copied of an empty one.
pub proof fn where_a_selection_is_copied(text: Seq<char>, save: bool)
    ensures
        text.len() > 0 ==> selection_targets(Some(text), Target::Clipboard, save) == seq![Target::Clipboard],
        text.len() > 0 ==> selection_targets(Some(text), Target::Primary, false) == seq![Target::Primary],
        text.len() > 0 ==> selection_targets(Some(text), Target::Primary, true) == seq![
            Target::Clipboard,
            Target::Primary,
        ],
        text.len() == 0 ==> selection_targets(Some(text), Target::Primary, save).len() == 0,
        selection_targets(None, Target::Primary, save).len() == 0,
{
}

/// A composition is committed where it holds more than a line end.
pub proof fn what_a_composition_commits(text: Seq<char>)
    ensures
        commits(text) <==> text.len() > 0 && text != seq!['\n'] && text != seq!['\r'],
{
    reveal_strlit("\n");
    reveal_strlit("\r");
    assert("\n"@ =~= seq!['\n']);
    assert("\r"@ =~= seq!['\r']);
}

/// A character takes its width in cells, and one cell where that is none or
/// not known; a text takes what its characters take.
pub proof fn what_a_text_takes(text: Seq<char>, i: int)
    requires
        0 <= i < text.len(),
    ensures
        text_cells(text).len() == text.len(),
        text_cells(text)[i] >= 1,
        display_width(text[i]) matches Some(w) ==> w >= 1 ==> text_cells(text)[i] == w,
        display_width(text[i]) is None || display_width(text[i]) == Some(0usize) ==> text_cells(text)[i] == 1,
{
}

/// The cells of a row of widths add up.
pub proof fn widths_add_up(first: usize, rest: Seq<usize>)
    ensures
        total(Seq::empty()) == 0,
        total(seq![first] + rest) == first as nat + total(rest),
{
    assert((seq![first] + rest).skip(1) =~= rest);
}

/// What is shown of a composition fits in the columns.
pub proof fn what_is_shown_fits(widths: Seq<usize>, cols: nat)
    ensures
        hidden(widths, cols) <= widths.len(),
        total(widths.skip(hidden(widths, cols) as int)) <= cols,
        total(widths) <= cols ==> hidden(widths, cols) == 0,
    decreases widths.len(),
{
    if widths.len() == 0 {
        assert(widths.skip(0) =~= widths);
    } else if total(widths) <= cols {
        assert(widths.skip(0) =~= widths);
    } else {
        let rest = widths.skip(1);
        what_is_shown_fits(rest, cols);
        assert(rest.skip(hidden(rest, cols) as int) =~= widths.skip(hidden(widths, cols) as int));
    }
}

/// A composition starts at the cursor, or as far left of it as it needs to end
/// in the last column.
pub proof fn where_a_composition_starts(cursor_col: int, width: int, cols: int)
    ensures
        start_at(cursor_col, width, cols) <= cursor_col,
        start_at(cursor_col, width, cols) + width <= cols,
        cursor_col + width <= cols ==> start_at(cursor_col, width, cols) == cursor_col,
        cursor_col + width > cols ==> start_at(cursor_col, width, cols) + width == cols,
{
}

/// A frame remembers the modal it painted for the next one, and no other.
pub proof fn a_frame_remembers_its_modal(gate: ModalGate, painted: ModalKind)
    ensures
        frame(gate, Some(painted)).painted == Some(painted),
        frame(gate, Some(painted)).current is None,
        gate.current is None ==> frame(gate, None).painted is None,
{
}

/// A toggle's key switches it and no other, if the panel has it.
pub proof fn a_key_switches_its_toggle(state: FilterState, key: char, other: char)
    ensures
        state.allowed.contains(key) ==> (state.flipped(key).toggles.contains(key) <==> !state.toggles.contains(key)),
        other != key ==> (state.flipped(key).toggles.contains(other) <==> state.toggles.contains(other)),
        !state.allowed.contains(key) ==> state.flipped(key) == state,
        state.flipped(key).query == state.query,
        state.flipped(key).mode == state.mode,
{
}

/// A filter narrows where a query is typed or a toggle is on.
pub proof fn when_a_filter_narrows(state: FilterState, key: char)
    ensures
        state.query.len() > 0 ==> state.narrows(),
        state.toggles.contains(key) ==> state.narrows(),
        state.query.len() == 0 && state.toggles == Set::<char>::empty() ==> !state.narrows(),
{
}

/// In a search, Backspace takes the last character, the arrows move the cursor
/// a row up or down, and every other key falls through.
pub proof fn what_a_key_does_in_a_search(state: FilterState, key: Key)
    requires
        state.mode is Search,
    ensures
        key == Key::Backspace && state.query.len() > 0 ==> state.keyed(key).0.query == state.query.subrange(
            0,
            state.query.len() - 1,
        ),
        key == Key::Backspace && state.query.len() == 0 ==> state.keyed(key).0 == state,
        key == Key::Backspace ==> state.keyed(key).1 == Some(Outcome::FilterChanged),
        key == Key::ArrowUp ==> state.keyed(key) == (state, Some(Outcome::MoveCursor(-1i32))),
        key == Key::ArrowDown ==> state.keyed(key) == (state, Some(Outcome::MoveCursor(1i32))),
        key != Key::Backspace && key != Key::ArrowUp && key != Key::ArrowDown ==> state.keyed(key) == (
            state,
            None::<Outcome>,
        ),
        state.keyed(key).0.toggles == state.toggles,
        state.keyed(key).0.mode == state.mode,
{
    if state.query.len() > 0 {
        assert(state.query.drop_last() =~= state.query.subrange(0, state.query.len() - 1));
    }
}

/// While browsing, Escape clears the toggles, and leaves the panel where none
/// is on; no other key does anything.
pub proof fn what_a_key_does_while_browsing(state: FilterState, key: Key)
    requires
        state.mode is Browsing,
    ensures
        key == Key::Escape && state.toggles != Set::<char>::empty() ==> state.keyed(key).1 == Some(
            Outcome::FilterChanged,
        ) && state.keyed(key).0.toggles == Set::<char>::empty(),
        key == Key::Escape && state.toggles == Set::<char>::empty() ==> state.keyed(key) == (
            state,
            Some(Outcome::LeavePanel),
        ),
        key != Key::Escape ==> state.keyed(key) == (state, None::<Outcome>),
        state.keyed(key).0.query == state.query,
{
}

/// A slash starts a search; in one, text is added to the end of the query.
pub proof fn what_typing_does(state: FilterState, text: Seq<char>)
    ensures
        state.mode is Browsing && text == seq!['/'] ==> state.typed(text).0 == (FilterState {
            mode: Mode::Search,
            ..state
        }) && state.typed(text).1 == Some(Outcome::Consumed),
        state.mode is Browsing && text != seq!['/'] ==> state.typed(text) == (state, None::<Outcome>),
        state.mode is Search ==> state.typed(text).0 == (FilterState { query: state.query + text, ..state })
            && state.typed(text).1 == Some(Outcome::FilterChanged),
{
    reveal_strlit("/");
    assert("/"@ =~= seq!['/']);
}

/// Leaving a search drops the query and keeps the rest.
pub proof fn leaving_a_search_drops_the_query(state: FilterState)
    ensures
        state.left_search().mode is Browsing,
        state.left_search().query.len() == 0,
        state.left_search().toggles == state.toggles,
        state.left_search().allowed == state.allowed,
{
}

/// The toggles that are on are shown in the panel's order, each one that is on
/// and no other.
pub proof fn the_toggles_are_shown_in_order(allowed: Seq<char>, toggles: Set<char>, last: char)
    ensures
        on_in_order(Seq::empty(), toggles) == Seq::<char>::empty(),
        toggles.contains(last) ==> on_in_order(allowed.push(last), toggles) == on_in_order(allowed, toggles).push(last),
        !toggles.contains(last) ==> on_in_order(allowed.push(last), toggles) == on_in_order(allowed, toggles),
{
    reveal(Seq::filter);
    assert(allowed.push(last).drop_last() =~= allowed);
}

/// Each toggle is a bit of its own: the one at a place counts two to that power
/// where it is on.
pub proof fn each_toggle_is_a_bit(allowed: Seq<char>, toggles: Set<char>, last: char)
    ensures
        bits(Seq::empty(), toggles) == 0,
        toggles.contains(last) ==> bits(allowed.push(last), toggles) == bits(allowed, toggles) + pow2(allowed.len()),
        !toggles.contains(last) ==> bits(allowed.push(last), toggles) == bits(allowed, toggles),
{
    assert(allowed.push(last).drop_last() =~= allowed);
}

/// The buttons of a mouse report: three from zero, the wheel's four from
/// sixty-four, and a motion thirty-two more than its button, which is three for
/// none.
pub proof fn the_buttons_of_a_report()
    ensures
        crate::mouse::BUTTON_LEFT == 0,
        crate::mouse::BUTTON_MIDDLE == 1,
        crate::mouse::BUTTON_RIGHT == 2,
        crate::mouse::MOTION_OFFSET == 32,
        crate::mouse::MOTION_NONE == crate::mouse::MOTION_OFFSET + 3,
        crate::mouse::WHEEL_UP == 64,
        crate::mouse::WHEEL_DOWN == 65,
        crate::mouse::WHEEL_LEFT == 66,
        crate::mouse::WHEEL_RIGHT == 67,
{
}

/// The toggles count under the narrow scope always, and under the wide one only
/// while nothing is searched for.
pub proof fn when_the_toggles_count(state: FilterState)
    ensures
        state.applies(SearchScope::Filtered),
        state.applies(SearchScope::All) <==> state.query.len() == 0,
{
}

/// Every row is shown while nothing is searched for, and those that match
/// otherwise.
pub proof fn which_rows_are_shown(state: FilterState, matched: bool)
    ensures
        state.query.len() == 0 ==> state.lets_through(matched),
        state.query.len() > 0 ==> (state.lets_through(matched) <==> matched),
{
}

/// What is composed is shown until it is committed, and then sent and shown no
/// more; an empty text, and switching the input method, end it unsent.
pub proof fn what_a_composition_does(text: String)
    ensures
        text@.len() > 0 ==> applied(ImeEvent::Preedit(text)) == (Some(text), None::<String>),
        text@.len() == 0 ==> applied(ImeEvent::Preedit(text)) == (None::<String>, None::<String>),
        commits(text@) ==> applied(ImeEvent::Commit(text)) == (None::<String>, Some(text)),
        !commits(text@) ==> applied(ImeEvent::Commit(text)) == (None::<String>, None::<String>),
        applied(ImeEvent::Enabled) == (None::<String>, None::<String>),
        applied(ImeEvent::Disabled) == (None::<String>, None::<String>),
{
}

/// A composition belongs to one session: turning to another drops it, and
/// turning to the same one again changes nothing.
pub proof fn a_composition_stays_with_its_session(ime: crate::ime::Ime, session: crate::herdr::view::SessionId)
    ensures
        ime.retargeted(session).owner == Some(session),
        ime.owner == Some(session) ==> ime.retargeted(session).preedit == ime.preedit,
        ime.owner != Some(session) ==> ime.retargeted(session).preedit is None,
        ime.retargeted(session).retargeted(session) == ime.retargeted(session),
{
}

} // verus!

//! Composition of text by an input method: what is being composed, for which
//! session, and where it sits on the grid.  The caret is always at the end of
//! the composition.

use vstd::prelude::*;

use crate::herdr::view::SessionId;
use crate::text::{chars_of, from_range, same};
#[allow(unused_imports)]
use crate::text::opt_text;

verus! {

/// The display width of a character in columns, as `unicode-width` has it, and
/// `None` of a control character.
pub uninterp spec fn display_width(c: char) -> Option<usize>;

/// `unicode_width::UnicodeWidthChar::width`: what comes back depends on the
/// character alone.  Printable ASCII is one column wide, an ASCII control
/// character has no width, and no character is wider than three columns.
#[verifier::external_body]
fn width_of(c: char) -> (r: Option<usize>)
    ensures
        r == display_width(c),
        ' ' <= c <= '~' ==> r == Some(1usize),
        c < ' ' ==> r is None,
        r matches Some(w) ==> w <= 3,
{
    unicode_width::UnicodeWidthChar::width(c)
}

/// What an input method reports.
#[derive(Debug, PartialEq, Eq)]
pub enum ImeEvent {
    Enabled,
    Disabled,
    /// The composition so far.
    Preedit(String),
    /// The composition is done, as this text.
    Commit(String),
}

/// The state of a composition.
#[derive(Debug, PartialEq, Eq)]
pub struct Ime {
    /// In-progress composition; while there is one, keys do not reach the
    /// terminal.
    pub preedit: Option<String>,
    /// Session the composition targets.  Composition belongs to the window's
    /// focused terminal, so a session switch orphans it.
    pub owner: Option<SessionId>,
}

/// Whether a commit is text for the terminal.  Confirming a composition can
/// emit a bare line end on some platforms, which must not double Enter.
pub open spec fn commits(text: Seq<char>) -> bool {
    text.len() > 0 && text != "\n"@ && text != "\r"@
}

/// What is composed after an event, and what it sends to the terminal.
pub open spec fn applied(event: ImeEvent) -> (Option<String>, Option<String>) {
    match event {
        ImeEvent::Enabled => (None, None),
        ImeEvent::Disabled => (None, None),
        ImeEvent::Preedit(text) => (
            if text@.len() == 0 {
                None
            } else {
                Some(text)
            },
            None,
        ),
        ImeEvent::Commit(text) => (
            None,
            if commits(text@) {
                Some(text)
            } else {
                None
            },
        ),
    }
}

impl Ime {
    /// Turned to a session: what was composed for another is dropped.
    pub open spec fn retargeted(self, session: SessionId) -> Self {
        if self.owner == Some(session) {
            self
        } else {
            Ime { preedit: None, owner: Some(session) }
        }
    }

    /// No composition, and no session to compose for.
    pub fn new() -> (r: Self)
        ensures
            r.preedit is None,
            r.owner is None,
    {
        Ime { preedit: None, owner: None }
    }

    /// The composition so far.
    pub fn preedit(&self) -> (r: Option<&str>)
        ensures
            (match r {
                Some(s) => Some(s@),
                None => None,
            }) == opt_text(self.preedit),
    {
        match &self.preedit {
            Some(s) => Some(s.as_str()),
            None => None,
        }
    }

    /// Drop any active composition.
    pub fn clear(&mut self)
        ensures
            *final(self) == (Ime { preedit: None, ..*old(self) }),
    {
        self.preedit = None;
    }

    /// Point the composition at the currently shown session, dropping it if
    /// the session changed mid-composition.
    pub fn retarget(&mut self, session: SessionId)
        ensures
            *final(self) == old(self).retargeted(session),
            old(self).owner == Some(session) ==> *final(self) == *old(self),
            old(self).owner != Some(session) ==> *final(self) == (Ime { preedit: None, owner: Some(session) }),
    {
        if self.owner != Some(session) {
            self.preedit = None;
            self.owner = Some(session);
        }
    }

    /// Apply an event; what comes back is text for the terminal.
    pub fn process(&mut self, event: ImeEvent) -> (r: Option<String>)
        ensures
            (final(self).preedit, r) == applied(event),
            final(self).owner == old(self).owner,
            match event {
                ImeEvent::Enabled => final(self).preedit is None && r is None,
                ImeEvent::Disabled => final(self).preedit is None && r is None,
                ImeEvent::Preedit(text) => r is None && final(self).preedit == (if text@.len() == 0 {
                    None
                } else {
                    Some(text)
                }),
                ImeEvent::Commit(text) => final(self).preedit is None && r == (if commits(text@) {
                    Some(text)
                } else {
                    None
                }),
            },
    {
        proof {
            reveal_strlit("");
        }
        match event {
            ImeEvent::Enabled => {
                self.preedit = None;
                None
            },
            ImeEvent::Disabled => {
                self.preedit = None;
                None
            },
            ImeEvent::Preedit(text) => {
                let empty = same(&text, "");
                proof {
                    if text@.len() == 0 {
                        assert(text@ =~= ""@);
                    }
                }
                self.preedit = if empty {
                    None
                } else {
                    Some(text)
                };
                None
            },
            ImeEvent::Commit(text) => {
                self.preedit = None;
                proof {
                    if text@.len() == 0 {
                        assert(text@ =~= ""@);
                    }
                }
                if same(&text, "") || same(&text, "\n") || same(&text, "\r") {
                    None
                } else {
                    Some(text)
                }
            },
        }
    }
}

/// The cells a character takes: at least one, so that a malformed composition
/// still advances and stays visible.
pub open spec fn cells(width: Option<usize>) -> usize {
    match width {
        Some(w) => if w < 1 {
            1
        } else {
            w
        },
        None => 1,
    }
}

/// Terminal cell width of one character.
pub fn char_cells(c: char) -> (r: usize)
    ensures
        r == cells(display_width(c)),
        1 <= r <= 3,
{
    match width_of(c) {
        Some(w) => if w < 1 {
            1
        } else {
            w
        },
        None => 1,
    }
}

/// The cells of the characters of a text.
pub open spec fn text_cells(text: Seq<char>) -> Seq<usize> {
    text.map_values(|c: char| cells(display_width(c)))
}

/// The cells of a list together.
pub open spec fn total(widths: Seq<usize>) -> nat
    decreases widths.len(),
{
    if widths.len() == 0 {
        0
    } else {
        widths[0] as nat + total(widths.skip(1))
    }
}

/// How many characters from the left do not fit: the fewest that leave a rest
/// no wider than the grid.
pub open spec fn hidden(widths: Seq<usize>, cols: nat) -> nat
    decreases widths.len(),
{
    if widths.len() == 0 || total(widths) <= cols {
        0
    } else {
        1 + hidden(widths.skip(1), cols)
    }
}

/// Where a composition sits: the characters dropped from its left, the column
/// it starts at, and its width.
#[derive(Debug, Clone, Copy, PartialEq, Eq, Structural)]
pub struct Placement {
    pub hidden: usize,
    pub start_col: usize,
    pub width: usize,
}

/// The column a piece of that width starts at: at the cursor, or further left
/// where it would run over the edge.
pub open spec fn start_at(cursor_col: int, width: int, cols: int) -> int {
    if cursor_col <= cols - width {
        cursor_col
    } else {
        cols - width
    }
}

/// Place characters of those widths on a grid.  The end of the composition,
/// where the caret is, stays visible: it is right-aligned against the edge
/// when the cursor is too far right, and cut from the left by whole characters
/// when wider than the grid.
pub fn place(widths: &Vec<usize>, cursor_col: usize, cols: usize) -> (r: Placement)
    requires
        forall|i: int| 0 <= i < widths@.len() ==> widths@[i] <= 3,
    ensures
        r.hidden == hidden(widths@, cols as nat),
        r.hidden <= widths@.len(),
        r.width == total(widths@.skip(r.hidden as int)),
        r.width <= cols,
        r.start_col == start_at(cursor_col as int, r.width as int, cols as int),
{
    let ghost all = widths@;
    let mut width: u128 = 0;
    let mut i: usize = widths.len();
    proof {
        assert(all.skip(all.len() as int) =~= Seq::<usize>::empty());
    }
    while i > 0
        invariant
            i <= all.len(),
            all == widths@,
            all.len() <= usize::MAX,
            width == total(all.skip(i as int)),
            width <= 3 * (all.len() - i),
            forall|k: int| 0 <= k < all.len() ==> all[k] <= 3,
        decreases i,
    {
        i -= 1;
        assert(all.skip(i as int).skip(1) =~= all.skip(i + 1));
        assert(all.skip(i as int)[0] == all[i as int]);
        width = width + widths[i] as u128;
    }
    assert(all.skip(0) =~= all);
    let mut first: usize = 0;
    while width > cols as u128 && first < widths.len()
        invariant
            first <= all.len(),
            all == widths@,
            width == total(all.skip(first as int)),
            hidden(all, cols as nat) == first + hidden(all.skip(first as int), cols as nat),
        decreases all.len() - first,
    {
        let ghost rest = all.skip(first as int);
        assert(rest[0] == all[first as int]);
        assert(rest.skip(1) =~= all.skip(first + 1));
        width = width - widths[first] as u128;
        first += 1;
    }
    let width: usize = width as usize;
    let last: usize = cols - width;
    let start_col: usize = if cursor_col <= last {
        cursor_col
    } else {
        last
    };
    Placement { hidden: first, start_col, width }
}

/// A composition on the grid.
#[derive(Debug, PartialEq, Eq)]
pub struct PreeditLayout {
    pub start_col: usize,
    pub visible: String,
    pub width: usize,
}

/// Where the composition sits on the grid.
pub fn preedit_layout(text: &str, cursor_col: usize, cols: usize) -> (r: PreeditLayout)
    ensures
        ({
            let widths = text_cells(text@);
            let gone = hidden(widths, cols as nat);
            &&& gone <= text@.len()
            &&& r.visible@ == text@.skip(gone as int)
            &&& r.width == total(widths.skip(gone as int))
            &&& r.width <= cols
            &&& r.start_col == start_at(cursor_col as int, r.width as int, cols as int)
        }),
{
    let chars = chars_of(text);
    let mut widths: Vec<usize> = Vec::new();
    let mut i: usize = 0;
    while i < chars.len()
        invariant
            i <= chars@.len(),
            chars@ == text@,
            widths@.len() == i,
            forall|k: int|
                0 <= k < i ==> #[trigger] widths@[k] == cells(display_width(text@[k])) && widths@[k] <= 3,
        decreases chars@.len() - i,
    {
        widths.push(char_cells(chars[i]));
        i += 1;
    }
    assert(widths@ =~= text_cells(text@));
    let placed = place(&widths, cursor_col, cols);
    let visible = from_range(&chars, placed.hidden, chars.len());
    assert(text@.subrange(placed.hidden as int, text@.len() as int) =~= text@.skip(placed.hidden as int));
    PreeditLayout { start_col: placed.start_col, visible, width: placed.width }
}

/// The composition ends on the grid, at the cursor's place or the edge: none
/// of it is drawn past the last column.
pub proof fn a_composition_ends_on_the_grid(cursor_col: int, width: int, cols: int)
    requires
        0 <= cursor_col,
        0 <= width <= cols,
    ensures
        start_at(cursor_col, width, cols) + width <= cols,
        cursor_col + width <= cols ==> start_at(cursor_col, width, cols) == cursor_col,
        cursor_col + width >= cols ==> start_at(cursor_col, width, cols) + width == cols,
{
}

/// No more is cut than must be: with one character fewer cut, the rest would
/// be wider than the grid.
pub proof fn no_more_is_cut_than_must_be(widths: Seq<usize>, cols: nat)
    ensures
        hidden(widths, cols) <= widths.len(),
        total(widths.skip(hidden(widths, cols) as int)) <= cols,
        hidden(widths, cols) > 0 ==> total(widths.skip(hidden(widths, cols) - 1)) > cols,
    decreases widths.len(),
{
    assert(widths.skip(0) =~= widths);
    if widths.len() > 0 && total(widths) > cols {
        let rest = widths.skip(1);
        no_more_is_cut_than_must_be(rest, cols);
        let h = hidden(rest, cols);
        assert(rest.skip(h as int) =~= widths.skip(h as int + 1));
        if h > 0 {
            assert(rest.skip(h - 1) =~= widths.skip(h as int));
        }
    }
}

} // verus!

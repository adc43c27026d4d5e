//! What a paste puts on a terminal, and what a copy takes from it.

use vstd::prelude::*;
use vstd::string::*;

use crate::text::{chars_of, concat3, from_chars};
#[allow(unused_imports)]
use crate::text::opt_slice;
#[allow(unused_imports)]
use vstd::utf8::encode_utf8;

verus! {

/// What comes before a bracketed paste.
pub const PASTE_START: &'static str = "\x1b[200~";

/// What comes after a bracketed paste.
pub const PASTE_END: &'static str = "\x1b[201~";

/// The characters that could forge the end of a bracketed paste.
pub open spec fn forges(c: char) -> bool {
    c == '\x1b' || c == '\x03'
}

/// A text without the characters that could forge the end of its paste.
pub open spec fn disarmed(text: Seq<char>) -> Seq<char> {
    text.filter(|c: char| !forges(c))
}

/// A text with every line end as Enter sends it: a return and a newline become
/// one return, and so does a newline alone.
pub open spec fn entered(text: Seq<char>) -> Seq<char>
    decreases text.len(),
{
    if text.len() == 0 {
        Seq::empty()
    } else if text[0] == '\r' && text.len() > 1 && text[1] == '\n' {
        seq!['\r'] + entered(text.skip(2))
    } else if text[0] == '\n' {
        seq!['\r'] + entered(text.skip(1))
    } else {
        seq![text[0]] + entered(text.skip(1))
    }
}

/// The text a paste puts on a terminal.
pub open spec fn pasted(text: Seq<char>, bracketed: bool, bracketed_active: bool) -> Seq<char> {
    if bracketed && bracketed_active {
        PASTE_START@ + disarmed(text) + PASTE_END@
    } else if bracketed {
        entered(text)
    } else {
        text
    }
}

fn without_forgeries(text: &str) -> (r: String)
    ensures
        r@ == disarmed(text@),
{
    let chars = chars_of(text);
    let ghost all = chars@;
    let ghost keep = |c: char| !forges(c);
    let mut out: Vec<char> = Vec::new();
    let mut i: usize = 0;
    proof {
        reveal(Seq::filter);
        assert(all.take(0) =~= Seq::<char>::empty());
    }
    while i < chars.len()
        invariant
            i <= chars@.len(),
            all == chars@,
            keep == (|c: char| !forges(c)),
            out@ == all.take(i as int).filter(keep),
        decreases chars@.len() - i,
    {
        proof {
            reveal(Seq::filter);
            assert(all.take(i + 1).drop_last() =~= all.take(i as int));
            assert(all.take(i + 1).last() == all[i as int]);
        }
        let c = chars[i];
        if c != '\x1b' && c != '\x03' {
            out.push(c);
        }
        i += 1;
    }
    assert(all.take(all.len() as int) =~= all);
    from_chars(out.as_slice())
}

fn with_returns(text: &str) -> (r: String)
    ensures
        r@ == entered(text@),
{
    let chars = chars_of(text);
    let ghost all = chars@;
    let mut out: Vec<char> = Vec::new();
    let mut i: usize = 0;
    proof {
        assert(all.skip(0) =~= all);
        assert(Seq::<char>::empty() + entered(all) =~= entered(all));
    }
    while i < chars.len()
        invariant
            i <= chars@.len(),
            all == chars@,
            out@ + entered(all.skip(i as int)) == entered(all),
        decreases chars@.len() - i,
    {
        let ghost rest = all.skip(i as int);
        let ghost before = out@;
        let c = chars[i];
        assert(rest[0] == c);
        if c == '\r' && i + 1 < chars.len() && chars[i + 1] == '\n' {
            assert(rest[1] == '\n');
            assert(rest.skip(2) =~= all.skip(i + 2));
            out.push('\r');
            assert(out@ + entered(all.skip(i + 2)) =~= before + (seq!['\r'] + entered(all.skip(i + 2))));
            i += 2;
        } else {
            assert(rest.len() > 1 ==> rest[1] == all[i + 1]);
            assert(rest.skip(1) =~= all.skip(i + 1));
            if c == '\n' {
                out.push('\r');
                assert(out@ + entered(all.skip(i + 1)) =~= before + (seq!['\r'] + entered(all.skip(i + 1))));
            } else {
                out.push(c);
                assert(out@ + entered(all.skip(i + 1)) =~= before + (seq![c] + entered(all.skip(i + 1))));
            }
            i += 1;
        }
    }
    assert(all.skip(all.len() as int) =~= Seq::<char>::empty());
    assert(out@ =~= entered(all));
    from_chars(out.as_slice())
}

/// The bytes a paste puts on the terminal.
///
/// ESC and ETX are stripped inside a bracketed paste so the text cannot forge
/// the end marker.  Without bracketed paste the receiving application cannot
/// tell a paste from typing, so a newline has to become `\r` — which is also
/// what Enter sends, meaning any newline reaching here submits a line.
/// `bracketed` is false for writes that must reach the terminal verbatim.
pub fn paste_bytes(text: &str, bracketed: bool, bracketed_active: bool) -> (r: Vec<u8>)
    ensures
        r@ == encode_utf8(pasted(text@, bracketed, bracketed_active)),
{
    if bracketed && bracketed_active {
        concat3(PASTE_START, without_forgeries(text).as_str(), PASTE_END).as_str().as_bytes_vec()
    } else if bracketed {
        with_returns(text).as_str().as_bytes_vec()
    } else {
        text.as_bytes_vec()
    }
}

/// Where a selection is copied to.
#[derive(Debug, Clone, Copy, PartialEq, Eq, Structural)]
pub enum Target {
    Clipboard,
    /// The selection that a middle click pastes.
    Primary,
}

/// The clipboards a selection is written to, in order: none for an empty one,
/// and for one copied to the primary selection the clipboard too where that is
/// wanted.
pub open spec fn selection_targets(selection: Option<Seq<char>>, target: Target, save_to_clipboard: bool) -> Seq<Target> {
    match selection {
        Some(text) => if text.len() == 0 {
            Seq::empty()
        } else if target == Target::Primary && save_to_clipboard {
            seq![Target::Clipboard, Target::Primary]
        } else {
            seq![target]
        },
        None => Seq::empty(),
    }
}

/// The clipboards a selection is written to, in order.
pub fn write_selection(selection: Option<&str>, target: Target, save_to_clipboard: bool) -> (r: Vec<Target>)
    ensures
        r@ == selection_targets(opt_slice(selection), target, save_to_clipboard),
{
    let mut targets: Vec<Target> = Vec::new();
    let text = match selection {
        Some(text) => text,
        None => return targets,
    };
    if text.unicode_len() == 0 {
        return targets;
    }
    if target == Target::Primary && save_to_clipboard {
        targets.push(Target::Clipboard);
    }
    targets.push(target);
    targets
}

/// The mirror runs one way: what is copied to the clipboard never reaches the
/// primary selection.
pub proof fn a_clipboard_copy_stays_out_of_the_primary(selection: Option<Seq<char>>, save_to_clipboard: bool)
    ensures
        !selection_targets(selection, Target::Clipboard, save_to_clipboard).contains(Target::Primary),
{
}

/// Whether input that reaches the terminal scrolls the view back to the active
/// line, so the user sees what they just typed.  `display_offset` is how many
/// lines the view is scrolled up by.
pub fn on_terminal_input_start(display_offset: usize) -> (scrolls: bool)
    ensures
        scrolls == (display_offset != 0),
{
    display_offset != 0
}

/// A bracketed paste ends where its end marker stands and nowhere before:
/// nothing in between can begin one.
pub proof fn a_bracketed_paste_cannot_end_early(text: Seq<char>)
    ensures
        forall|i: int| 0 <= i < disarmed(text).len() ==> !forges(#[trigger] disarmed(text)[i]),
{
    broadcast use vstd::seq_lib::group_filter_ensures;

    assert forall|i: int| 0 <= i < disarmed(text).len() implies !forges(#[trigger] disarmed(text)[i]) by {
        assert(disarmed(text).contains(disarmed(text)[i]));
    }
}

/// An unbracketed paste carries no newline, only what Enter sends.
pub proof fn an_unbracketed_paste_has_no_newline(text: Seq<char>)
    ensures
        forall|i: int| 0 <= i < entered(text).len() ==> #[trigger] entered(text)[i] != '\n',
    decreases text.len(),
{
    if text.len() > 0 {
        let rest = if text[0] == '\r' && text.len() > 1 && text[1] == '\n' {
            text.skip(2)
        } else {
            text.skip(1)
        };
        an_unbracketed_paste_has_no_newline(rest);
        assert forall|i: int| 0 <= i < entered(text).len() implies #[trigger] entered(text)[i] != '\n' by {
            if i > 0 {
                assert(entered(text)[i] == entered(rest)[i - 1]);
            }
        }
    }
}

} // verus!

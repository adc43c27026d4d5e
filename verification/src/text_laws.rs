//! What the small operations on text keep and what they undo.

use vstd::prelude::*;

#[allow(unused_imports)]
use crate::json::{lookup, member, Tree};
#[allow(unused_imports)]
use crate::text::{
    decimal, either, is_ascii, is_blank, joined, lower_ascii, lowered, occurs, opt_slice, opt_text, split_on,
    split_where, stands_at, texts, trim_left, trim_right, trimmed, white_space,
};

verus! {

/// The number that a row of digits writes, the last one counting ones.
pub open spec fn written(digits: Seq<char>) -> int
    decreases digits.len(),
{
    if digits.len() == 0 {
        0
    } else {
        written(digits.drop_last()) * 10 + (digits.last() as int - '0' as int)
    }
}

/// The digits of a number write that number, are digits all, and begin with a
/// zero for zero alone.
pub proof fn the_digits_of_a_number_write_it(n: nat)
    ensures
        written(decimal(n)) == n,
        decimal(n).len() > 0,
        forall|i: int| 0 <= i < decimal(n).len() ==> '0' <= #[trigger] decimal(n)[i] <= '9',
        decimal(n)[0] == '0' <==> n == 0,
    decreases n,
{
    if n < 10 {
        assert(decimal(n).drop_last() =~= Seq::empty());
        assert(written(decimal(n).drop_last()) == 0);
    } else {
        the_digits_of_a_number_write_it(n / 10);
        assert(decimal(n).drop_last() =~= decimal(n / 10));
        assert(decimal(n)[0] == decimal(n / 10)[0]);
    }
}

/// No two numbers are written alike.
pub proof fn no_two_numbers_are_written_alike(a: nat, b: nat)
    requires
        decimal(a) == decimal(b),
    ensures
        a == b,
{
    the_digits_of_a_number_write_it(a);
    the_digits_of_a_number_write_it(b);
}

proof fn what_trimming_takes_on_the_left(s: Seq<char>) -> (at: int)
    ensures
        0 <= at <= s.len(),
        trim_left(s) == s.subrange(at, s.len() as int),
        is_blank(s.subrange(0, at)),
        at < s.len() ==> !white_space(s[at]),
    decreases s.len(),
{
    if s.len() > 0 && white_space(s[0]) {
        let rest = s.drop_first();
        let at = what_trimming_takes_on_the_left(rest);
        assert(rest.subrange(at, rest.len() as int) =~= s.subrange(at + 1, s.len() as int));
        assert forall|i: int| 0 <= i < at + 1 implies white_space(#[trigger] s.subrange(0, at + 1)[i]) by {
            if i > 0 {
                assert(s[i] == rest.subrange(0, at)[i - 1]);
            }
        }
        at + 1
    } else {
        assert(s.subrange(0, s.len() as int) =~= s);
        0
    }
}

proof fn what_trimming_takes_on_the_right(s: Seq<char>) -> (end: int)
    ensures
        0 <= end <= s.len(),
        trim_right(s) == s.subrange(0, end),
        is_blank(s.subrange(end, s.len() as int)),
        end > 0 ==> !white_space(s[end - 1]),
    decreases s.len(),
{
    if s.len() > 0 && white_space(s.last()) {
        let front = s.drop_last();
        let end = what_trimming_takes_on_the_right(front);
        assert(front.subrange(0, end) =~= s.subrange(0, end));
        assert forall|i: int| 0 <= i < s.len() - end implies white_space(
            #[trigger] s.subrange(end, s.len() as int)[i],
        ) by {
            if i < front.len() - end {
                assert(s[end + i] == front.subrange(end, front.len() as int)[i]);
            }
        }
        end
    } else {
        assert(s.subrange(0, s.len() as int) =~= s);
        s.len() as int
    }
}

/// Trimming takes the white space off both ends and nothing else: what is left
/// is one stretch of the text that neither begins nor ends with white space,
/// and what it took is blank.
pub proof fn trimming_takes_white_space_off_both_ends(s: Seq<char>)
    ensures
        exists|from: int, to: int|
            #![trigger s.subrange(from, to)]
            0 <= from <= to <= s.len() && trimmed(s) == s.subrange(from, to) && is_blank(s.subrange(0, from))
                && is_blank(s.subrange(to, s.len() as int)),
        trimmed(s).len() > 0 ==> !white_space(trimmed(s)[0]) && !white_space(trimmed(s).last()),
{
    let from = what_trimming_takes_on_the_left(s);
    let rest = trim_left(s);
    let end = what_trimming_takes_on_the_right(rest);
    let to = from + end;
    assert(rest.subrange(0, end) =~= s.subrange(from, to));
    assert(rest.subrange(end, rest.len() as int) =~= s.subrange(to, s.len() as int));
    if end > 0 {
        assert(trimmed(s)[0] == s[from]);
        assert(trimmed(s).last() == rest[end - 1]);
    }
    assert(0 <= from <= to <= s.len() && trimmed(s) == s.subrange(from, to) && is_blank(s.subrange(0, from))
        && is_blank(s.subrange(to, s.len() as int)));
}

/// White space in ASCII is the space and the five controls from tab to
/// carriage return.
pub proof fn ascii_white_space(c: char)
    requires
        (c as u32) < 128,
    ensures
        white_space(c) <==> c == ' ' || ('\t' <= c <= '\r'),
{
}

proof fn split_gives_a_piece(s: Seq<char>, is_sep: spec_fn(char) -> bool)
    ensures
        split_where(s, is_sep).len() > 0,
    decreases s.len(),
{
    if s.len() > 0 {
        split_gives_a_piece(s.drop_last(), is_sep);
    }
}

proof fn a_longer_last_piece(parts: Seq<Seq<char>>, sep: Seq<char>, c: char)
    requires
        parts.len() > 0,
    ensures
        joined(parts.drop_last().push(parts.last().push(c)), sep) == joined(parts, sep).push(c),
{
    let longer = parts.drop_last().push(parts.last().push(c));
    if parts.len() > 1 {
        assert(longer.drop_last() =~= parts.drop_last());
        assert(joined(longer, sep) =~= joined(parts, sep).push(c));
    }
}

/// Splitting at a character and joining by it gives the text back, and no piece
/// holds the character.
pub proof fn what_is_split_joins_back(s: Seq<char>, sep: char)
    ensures
        joined(split_on(s, sep), seq![sep]) == s,
        forall|i: int| 0 <= i < split_on(s, sep).len() ==> !(#[trigger] split_on(s, sep)[i]).contains(sep),
    decreases s.len(),
{
    let is_sep = either(sep, sep);
    split_gives_a_piece(s, is_sep);
    if s.len() > 0 {
        let front = s.drop_last();
        let parts = split_on(front, sep);
        split_gives_a_piece(front, is_sep);
        what_is_split_joins_back(front, sep);
        assert(is_sep(s.last()) <==> s.last() == sep);
        if s.last() == sep {
            let all = parts.push(Seq::empty());
            assert(all.drop_last() =~= parts);
            assert(joined(all, seq![sep]) =~= s);
            assert forall|i: int| 0 <= i < all.len() implies !(#[trigger] all[i]).contains(sep) by {
                if i < parts.len() {
                    assert(all[i] == parts[i]);
                }
            }
        } else {
            a_longer_last_piece(parts, seq![sep], s.last());
            assert(front.push(s.last()) =~= s);
            let all = split_on(s, sep);
            assert(all =~= parts.drop_last().push(parts.last().push(s.last())));
            assert forall|i: int| 0 <= i < all.len() implies !(#[trigger] all[i]).contains(sep) by {
                if i < parts.len() - 1 {
                    assert(all[i] == parts[i]);
                } else {
                    let piece = all[i];
                    let was = parts[parts.len() - 1];
                    assert(piece == was.push(s.last()));
                    if piece.contains(sep) {
                        let k = choose|k: int| 0 <= k < piece.len() && piece[k] == sep;
                        assert(k < was.len());
                        assert(was[k] == sep);
                        assert(was.contains(sep));
                    }
                }
            }
        }
    }
}

/// Lowering moves the 26 upper-case letters to the lower-case ones and leaves
/// every other character, so it changes no length and does nothing twice.
pub proof fn lowering_moves_the_letters_alone(s: Seq<char>)
    requires
        is_ascii(s),
    ensures
        lowered(s).len() == s.len(),
        forall|i: int|
            0 <= i < s.len() ==> {
                let c = s[i];
                let l = #[trigger] lowered(s)[i];
                &&& 'A' <= c <= 'Z' ==> l as int == c as int - 'A' as int + 'a' as int
                &&& !('A' <= c <= 'Z') ==> l == c
            },
        lowered(lowered(s)) == lowered(s),
{
    let l = lowered(s);
    assert forall|i: int| 0 <= i < s.len() implies ({
        let c = s[i];
        let l = #[trigger] lowered(s)[i];
        &&& 'A' <= c <= 'Z' ==> l as int == c as int - 'A' as int + 'a' as int
        &&& !('A' <= c <= 'Z') ==> l == c
    }) by {
        assert(lowered(s)[i] == lower_ascii(s[i]));
    }
    assert(is_ascii(l)) by {
        assert forall|i: int| 0 <= i < l.len() implies (#[trigger] l[i] as u32) < 128 by {
            assert((s[i] as u32) < 128);
            assert(l[i] == lower_ascii(s[i]));
        }
    }
    assert(lowered(l) =~= l) by {
        assert forall|i: int| 0 <= i < l.len() implies lower_ascii(#[trigger] l[i]) == l[i] by {
            assert(l[i] == lower_ascii(s[i]));
        }
    }
}

/// A part occurs in a text exactly where the text is something, the part, and
/// something.
pub proof fn a_part_stands_between(part: Seq<char>, before: Seq<char>, after: Seq<char>)
    ensures
        occurs(part, before + part + after),
{
    let s = before + part + after;
    let at = before.len() as int;
    assert(s.subrange(at, at + part.len()) =~= part);
    assert(stands_at(part, s, at));
}

/// And nowhere else.
pub proof fn what_occurs_stands_between(part: Seq<char>, s: Seq<char>)
    requires
        occurs(part, s),
    ensures
        exists|before: Seq<char>, after: Seq<char>| s == #[trigger] (before + part + after),
{
    let at = choose|at: int| #[trigger] stands_at(part, s, at);
    let before = s.subrange(0, at);
    let after = s.subrange(at + part.len(), s.len() as int);
    assert(s =~= before + part + after);
}

/// An optional text is seen as the text, and none as none.
pub proof fn an_optional_text_is_seen_as_it_is(s: Option<String>, t: Option<&str>)
    ensures
        s is Some <==> opt_text(s) is Some,
        s is Some ==> opt_text(s) == Some(s->0@),
        t is Some <==> opt_slice(t) is Some,
        t is Some ==> opt_slice(t) == Some(t->0@),
{
}

/// A list of texts is seen text by text.
pub proof fn a_list_of_texts_is_seen_as_it_is(s: Seq<String>, i: int)
    requires
        0 <= i < s.len(),
    ensures
        texts(s).len() == s.len(),
        texts(s)[i] == s[i]@,
{
}

/// A name finds the first member of that name, whatever follows.
pub proof fn a_name_finds_its_first_member(members: Seq<(Seq<char>, Tree)>, name: Seq<char>, at: int)
    requires
        0 <= at < members.len(),
        members[at].0 == name,
        forall|i: int| 0 <= i < at ==> (#[trigger] members[i]).0 != name,
    ensures
        lookup(members, name) == Some(members[at].1),
        member(Tree::Object(members), name) == Some(members[at].1),
    decreases members.len(),
{
    if at > 0 {
        assert(members[0].0 != name);
        let rest = members.drop_first();
        assert forall|i: int| 0 <= i < at - 1 implies (#[trigger] rest[i]).0 != name by {
            assert(rest[i] == members[i + 1]);
        }
        a_name_finds_its_first_member(rest, name, at - 1);
    }
}

/// A name that no member has finds nothing, and in what is no object nothing is
/// found under any name.
pub proof fn a_name_no_member_has_finds_nothing(tree: Tree, name: Seq<char>)
    requires
        tree matches Tree::Object(members) ==> forall|i: int|
            0 <= i < members.len() ==> (#[trigger] members[i]).0 != name,
    ensures
        member(tree, name) is None,
{
    if let Tree::Object(members) = tree {
        nothing_is_found(members, name);
    }
}

proof fn nothing_is_found(members: Seq<(Seq<char>, Tree)>, name: Seq<char>)
    requires
        forall|i: int| 0 <= i < members.len() ==> (#[trigger] members[i]).0 != name,
    ensures
        lookup(members, name) is None,
    decreases members.len(),
{
    if members.len() > 0 {
        assert(members[0].0 != name);
        let rest = members.drop_first();
        assert forall|i: int| 0 <= i < rest.len() implies (#[trigger] rest[i]).0 != name by {
            assert(rest[i] == members[i + 1]);
        }
        nothing_is_found(rest, name);
    }
}

} // verus!

//! Text as a sequence of characters: the few operations on `str` and `String`
//! that the rest of the library is stated over.

use vstd::prelude::*;

verus! {

/// `<str as PartialEq>::eq`: two string slices are equal when they hold the
/// same characters.
pub assume_specification[ <str as PartialEq>::eq ](a: &str, b: &str) -> (r: bool)
    ensures
        r == (a@ == b@),
;

/// `String::push`: the character goes to the end of the string.
pub assume_specification[ String::push ](s: &mut String, c: char)
    ensures
        final(s)@ == old(s)@.push(c),
;

/// `String::pop`: the last character leaves the string and is returned, and
/// an empty string stays as it is.
pub assume_specification[ String::pop ](s: &mut String) -> (r: Option<char>)
    ensures
        old(s)@.len() == 0 ==> r is None && final(s)@ == old(s)@,
        old(s)@.len() > 0 ==> r == Some(old(s)@.last()) && final(s)@ == old(s)@.drop_last(),
;

/// Whether a character has the Unicode `White_Space` property.
pub open spec fn white_space(c: char) -> bool {
    let n = c as u32;
    ||| 0x9 <= n <= 0xd
    ||| n == 0x20
    ||| n == 0x85
    ||| n == 0xa0
    ||| n == 0x1680
    ||| 0x2000 <= n <= 0x200a
    ||| 0x2028 <= n <= 0x2029
    ||| n == 0x202f
    ||| n == 0x205f
    ||| n == 0x3000
}

/// `char::is_whitespace`: whether the character has the `White_Space` property,
/// which the Unicode Character Database gives to these code points alone.
pub assume_specification[ char::is_whitespace ](c: char) -> (r: bool)
    ensures
        r == white_space(c),
;

/// Whether a text is of ASCII characters alone.
pub open spec fn is_ascii(s: Seq<char>) -> bool {
    forall|i: int| 0 <= i < s.len() ==> (#[trigger] s[i] as u32) < 128
}

/// The ASCII lower-case of a character.
pub open spec fn lower_ascii(c: char) -> char {
    if 'A' <= c <= 'Z' {
        ((c as u32) + 32) as char
    } else {
        c
    }
}

/// A text with the ASCII lower-case of each of its characters.
pub open spec fn ascii_lowered(s: Seq<char>) -> Seq<char> {
    s.map_values(|c: char| lower_ascii(c))
}

/// The lower-case spelling of a text that is not of ASCII characters alone, as
/// `str::to_lowercase` gives it.
pub uninterp spec fn lower_case(s: Seq<char>) -> Seq<char>;

/// The lower-case spelling of a text.
pub open spec fn lowered(s: Seq<char>) -> Seq<char> {
    if is_ascii(s) {
        ascii_lowered(s)
    } else {
        lower_case(s)
    }
}

/// `str::to_lowercase`: in an ASCII text each letter is lowered by itself, and
/// in any other the result depends on the characters alone.
pub assume_specification[ str::to_lowercase ](s: &str) -> (r: String)
    ensures
        is_ascii(s@) ==> r@ == ascii_lowered(s@),
        !is_ascii(s@) ==> r@ == lower_case(s@),
;

/// The text some bytes hold, with a replacement character for each part that
/// is no UTF-8, as `String::from_utf8_lossy` gives it.
pub uninterp spec fn lossy_text(bytes: Seq<u8>) -> Seq<char>;

/// `String::from_utf8_lossy`: the result depends on the bytes alone.
#[verifier::external_body]
pub(crate) fn from_utf8_lossy(bytes: &Vec<u8>) -> (r: String)
    ensures
        r@ == lossy_text(bytes@),
{
    String::from_utf8_lossy(bytes).into_owned()
}

/// The characters of each string of a sequence.
pub open spec fn texts(s: Seq<String>) -> Seq<Seq<char>> {
    s.map_values(|t: String| t@)
}

/// The characters of each slice of a sequence.
pub open spec fn slices(s: Seq<&str>) -> Seq<Seq<char>> {
    s.map_values(|t: &str| t@)
}

/// The characters of an optional string.
pub open spec fn opt_text(s: Option<String>) -> Option<Seq<char>> {
    match s {
        Some(t) => Some(t@),
        None => None,
    }
}

/// The characters of an optional slice.
pub open spec fn opt_slice(s: Option<&str>) -> Option<Seq<char>> {
    match s {
        Some(t) => Some(t@),
        None => None,
    }
}

/// Every character of the text is white space: a blank text says nothing.
pub open spec fn is_blank(s: Seq<char>) -> bool {
    forall|i: int| 0 <= i < s.len() ==> white_space(#[trigger] s[i])
}

/// The text from `from` on, without the white space it starts with.
pub open spec fn trim_left(s: Seq<char>) -> Seq<char>
    decreases s.len(),
{
    if s.len() > 0 && white_space(s[0]) {
        trim_left(s.drop_first())
    } else {
        s
    }
}

/// The text without the white space it ends with.
pub open spec fn trim_right(s: Seq<char>) -> Seq<char>
    decreases s.len(),
{
    if s.len() > 0 && white_space(s.last()) {
        trim_right(s.drop_last())
    } else {
        s
    }
}

/// The text without the white space around it.
pub open spec fn trimmed(s: Seq<char>) -> Seq<char> {
    trim_right(trim_left(s))
}

/// The pieces of `parts` one after another, `sep` between each two.
pub open spec fn joined(parts: Seq<Seq<char>>, sep: Seq<char>) -> Seq<char>
    decreases parts.len(),
{
    if parts.len() == 0 {
        Seq::empty()
    } else if parts.len() == 1 {
        parts[0]
    } else {
        joined(parts.drop_last(), sep) + sep + parts.last()
    }
}

/// The pieces of a text between the separators that `is_sep` picks out.
pub open spec fn split_where(s: Seq<char>, is_sep: spec_fn(char) -> bool) -> Seq<Seq<char>>
    decreases s.len(),
{
    if s.len() == 0 {
        seq![Seq::<char>::empty()]
    } else {
        let front = split_where(s.drop_last(), is_sep);
        if is_sep(s.last()) {
            front.push(Seq::empty())
        } else {
            front.drop_last().push(front.last().push(s.last()))
        }
    }
}

/// One of two characters.
pub open spec fn either(a: char, b: char) -> spec_fn(char) -> bool {
    |c: char| c == a || c == b
}

/// The pieces of a text between the occurrences of one character.
pub open spec fn split_on(s: Seq<char>, sep: char) -> Seq<Seq<char>> {
    split_where(s, either(sep, sep))
}

/// A text has at least one piece.
pub proof fn split_is_not_empty(s: Seq<char>, is_sep: spec_fn(char) -> bool)
    ensures
        split_where(s, is_sep).len() > 0,
{
    reveal_with_fuel(split_where, 2);
}

/// The decimal digits of `n`, most significant first.
pub open spec fn decimal(n: nat) -> Seq<char>
    decreases n,
{
    if n < 10 {
        seq![digit_char(n)]
    } else {
        decimal(n / 10).push(digit_char(n % 10))
    }
}

/// The character of one decimal digit.
pub open spec fn digit_char(d: nat) -> char {
    (48 + d) as char
}

/// The characters of a string slice, one by one.
pub fn chars_of(s: &str) -> (r: Vec<char>)
    ensures
        r@ == s@,
{
    let mut r: Vec<char> = Vec::new();
    for c in it: s.chars()
        invariant
            it.seq() == s@,
            r@ == s@.take(it.index() as int),
    {
        r.push(c);
    }
    assert(s@.take(s@.len() as int) == s@);
    r
}

/// A string of the given characters.
pub fn from_chars(cs: &[char]) -> (r: String)
    ensures
        r@ == cs@,
{
    let mut r = String::new();
    let mut i: usize = 0;
    while i < cs.len()
        invariant
            i <= cs@.len(),
            r@ == cs@.take(i as int),
        decreases cs@.len() - i,
    {
        r.push(cs[i]);
        i += 1;
        assert(cs@.take(i as int) == cs@.take(i - 1).push(cs@[i - 1]));
    }
    assert(cs@.take(cs@.len() as int) == cs@);
    r
}

/// A string of the given characters from `from` up to `to`.
pub fn from_range(cs: &Vec<char>, from: usize, to: usize) -> (r: String)
    requires
        from <= to <= cs@.len(),
    ensures
        r@ == cs@.subrange(from as int, to as int),
{
    let mut r = String::new();
    let mut i: usize = from;
    while i < to
        invariant
            from <= i <= to <= cs@.len(),
            r@ == cs@.subrange(from as int, i as int),
        decreases to - i,
    {
        r.push(cs[i]);
        i += 1;
        assert(cs@.subrange(from as int, i as int) == cs@.subrange(from as int, i - 1).push(cs@[i - 1]));
    }
    r
}

/// One text after another.
pub fn concat2(a: &str, b: &str) -> (r: String)
    ensures
        r@ == a@ + b@,
{
    let mut r = a.to_owned();
    r.append(b);
    r
}

/// Three texts one after another.
pub fn concat3(a: &str, b: &str, c: &str) -> (r: String)
    ensures
        r@ == a@ + b@ + c@,
{
    let mut r = a.to_owned();
    r.append(b);
    r.append(c);
    r
}

/// Whether two texts hold the same characters.
pub fn same(a: &str, b: &str) -> (r: bool)
    ensures
        r == (a@ == b@),
{
    *a == *b
}

/// Whether two optional strings hold the same text or are both absent.
pub fn same_opt(a: &Option<String>, b: &Option<String>) -> (r: bool)
    ensures
        r == (opt_text(*a) == opt_text(*b)),
{
    match (a, b) {
        (Some(x), Some(y)) => same(x, y),
        (None, None) => true,
        _ => false,
    }
}

/// Whether the text holds nothing but white space.
pub fn blank(s: &str) -> (r: bool)
    ensures
        r == is_blank(s@),
{
    let cs = chars_of(s);
    let mut i: usize = 0;
    while i < cs.len()
        invariant
            cs@ == s@,
            i <= cs@.len(),
            forall|k: int| 0 <= k < i ==> white_space(#[trigger] s@[k]),
        decreases cs@.len() - i,
    {
        if !cs[i].is_whitespace() {
            return false;
        }
        i += 1;
    }
    true
}

/// The text without the white space around it.
pub fn trim(s: &str) -> (r: String)
    ensures
        r@ == trimmed(s@),
{
    let cs = chars_of(s);
    let mut from: usize = 0;
    proof {
        assert(s@.skip(0) == s@);
    }
    while from < cs.len() && cs[from].is_whitespace()
        invariant
            cs@ == s@,
            from <= cs@.len(),
            trim_left(s@) == trim_left(s@.skip(from as int)),
        decreases cs@.len() - from,
    {
        assert(s@.skip(from as int).drop_first() == s@.skip(from + 1));
        from += 1;
    }
    let ghost left = trim_left(s@);
    assert(left == s@.skip(from as int));
    let mut to: usize = cs.len();
    proof {
        assert(s@.subrange(from as int, to as int) == left);
    }
    while to > from && cs[to - 1].is_whitespace()
        invariant
            cs@ == s@,
            from <= to <= cs@.len(),
            trim_right(left) == trim_right(s@.subrange(from as int, to as int)),
        decreases to,
    {
        assert(s@.subrange(from as int, to as int).drop_last() == s@.subrange(from as int, to - 1));
        to -= 1;
    }
    from_range(&cs, from, to)
}

/// The text without the white space it ends with.
pub fn owned_trim_end(s: &str) -> (r: String)
    ensures
        r@ == trim_right(s@),
{
    let cs = chars_of(s);
    let mut to: usize = cs.len();
    proof {
        assert(s@.take(to as int) == s@);
    }
    while to > 0 && cs[to - 1].is_whitespace()
        invariant
            cs@ == s@,
            to <= cs@.len(),
            trim_right(s@) == trim_right(s@.take(to as int)),
        decreases to,
    {
        assert(s@.take(to as int).drop_last() == s@.take(to - 1));
        to -= 1;
    }
    from_range(&cs, 0, to)
}

/// A trimmed text is empty exactly when the text was blank.
pub proof fn trimmed_is_empty_when_blank(s: Seq<char>)
    ensures
        trimmed(s).len() == 0 <==> is_blank(s),
{
    trim_left_empty(s);
    let l = trim_left(s);
    trim_right_empty(l);
    if l.len() == 0 {
    } else {
        trim_left_first(s);
        assert(!is_blank(l));
    }
}

proof fn trim_left_first(s: Seq<char>)
    ensures
        trim_left(s).len() > 0 ==> !white_space(trim_left(s)[0]),
    decreases s.len(),
{
    if s.len() > 0 && white_space(s[0]) {
        trim_left_first(s.drop_first());
    }
}

proof fn trim_left_empty(s: Seq<char>)
    ensures
        trim_left(s).len() == 0 <==> is_blank(s),
    decreases s.len(),
{
    if s.len() > 0 && white_space(s[0]) {
        let t = s.drop_first();
        trim_left_empty(t);
        if is_blank(t) {
            assert forall|i: int| 0 <= i < s.len() implies white_space(#[trigger] s[i]) by {
                if i > 0 {
                    assert(t[i - 1] == s[i]);
                }
            }
        }
        if is_blank(s) {
            assert forall|i: int| 0 <= i < t.len() implies white_space(#[trigger] t[i]) by {
                assert(t[i] == s[i + 1]);
            }
        }
    }
}

proof fn trim_right_empty(s: Seq<char>)
    ensures
        trim_right(s).len() == 0 <==> is_blank(s),
    decreases s.len(),
{
    if s.len() > 0 && white_space(s.last()) {
        let t = s.drop_last();
        trim_right_empty(t);
        if is_blank(t) {
            assert forall|i: int| 0 <= i < s.len() implies white_space(#[trigger] s[i]) by {
                if i < t.len() {
                    assert(t[i] == s[i]);
                }
            }
        }
        if is_blank(s) {
            assert forall|i: int| 0 <= i < t.len() implies white_space(#[trigger] t[i]) by {
                assert(t[i] == s[i]);
            }
        }
    }
}

/// Whether `s` begins with `prefix`.
pub fn has_prefix(s: &Vec<char>, prefix: &str) -> (r: bool)
    ensures
        r == prefix@.is_prefix_of(s@),
{
    let p = chars_of(prefix);
    if p.len() > s.len() {
        return false;
    }
    let mut i: usize = 0;
    while i < p.len()
        invariant
            p@ == prefix@,
            i <= p@.len() <= s@.len(),
            forall|k: int| 0 <= k < i ==> p@[k] == s@[k],
        decreases p@.len() - i,
    {
        if p[i] != s[i] {
            assert(prefix@ != s@.subrange(0, prefix@.len() as int)) by {
                assert(s@.subrange(0, prefix@.len() as int)[i as int] == s@[i as int]);
            }
            return false;
        }
        i += 1;
    }
    assert(prefix@ == s@.subrange(0, prefix@.len() as int));
    true
}

/// Whether `s` ends with `suffix`.
pub fn has_suffix(s: &Vec<char>, suffix: &str) -> (r: bool)
    ensures
        r == suffix@.is_suffix_of(s@),
{
    let p = chars_of(suffix);
    if p.len() > s.len() {
        return false;
    }
    let len: usize = s.len();
    let from: usize = len - p.len();
    let ghost tail = s@.subrange(from as int, s@.len() as int);
    let mut i: usize = 0;
    while i < p.len()
        invariant
            p@ == suffix@,
            i <= p@.len() <= s@.len(),
            len == s@.len(),
            from == len - p@.len(),
            tail == s@.subrange(from as int, s@.len() as int),
            forall|k: int| 0 <= k < i ==> p@[k] == tail[k],
        decreases p@.len() - i,
    {
        assert(tail[i as int] == s@[from + i]);
        if p[i] != s[from + i] {
            return false;
        }
        i += 1;
    }
    assert(suffix@ =~= tail);
    true
}

/// What follows `prefix` in `s`, when `s` begins with it.
pub fn after_prefix(s: &str, prefix: &str) -> (r: Option<String>)
    ensures
        r is Some <==> prefix@.is_prefix_of(s@),
        r is Some ==> s@ == prefix@ + r->0@,
{
    let cs = chars_of(s);
    if !has_prefix(&cs, prefix) {
        return None;
    }
    let n = chars_of(prefix).len();
    let rest = from_range(&cs, n, cs.len());
    assert(s@ == prefix@ + rest@);
    Some(rest)
}

/// The pieces one after another with `sep` between each two.
pub fn join(parts: &Vec<String>, sep: &str) -> (r: String)
    ensures
        r@ == joined(texts(parts@), sep@),
{
    let mut r = String::new();
    let mut i: usize = 0;
    while i < parts.len()
        invariant
            i <= parts@.len(),
            r@ == joined(texts(parts@.take(i as int)), sep@),
        decreases parts@.len() - i,
    {
        let ghost before = texts(parts@.take(i as int));
        let ghost after = texts(parts@.take(i + 1));
        assert(after.drop_last() == before);
        assert(after.last() == parts@[i as int]@);
        if i > 0 {
            r.append(sep);
        } else {
            assert(after == seq![parts@[0]@]);
            assert(Seq::<char>::empty() + parts@[0]@ == parts@[0]@);
        }
        r.append(parts[i].as_str());
        i += 1;
    }
    assert(parts@.take(parts@.len() as int) == parts@);
    r
}

/// Whether `part` stands somewhere in `s`.
pub open spec fn occurs(part: Seq<char>, s: Seq<char>) -> bool {
    exists|at: int| #[trigger] stands_at(part, s, at)
}

/// Whether `part` stands in `s` from `at` on.
pub open spec fn stands_at(part: Seq<char>, s: Seq<char>, at: int) -> bool {
    0 <= at <= s.len() - part.len() && s.subrange(at, at + part.len()) == part
}

fn stands(cs: &Vec<char>, p: &Vec<char>, at: usize) -> (r: bool)
    requires
        p@.len() <= cs@.len(),
        at <= cs@.len() - p@.len(),
    ensures
        r == stands_at(p@, cs@, at as int),
{
    let n: usize = cs.len();
    let mut i: usize = 0;
    while i < p.len()
        invariant
            n == cs@.len(),
            p@.len() <= cs@.len(),
            at <= cs@.len() - p@.len(),
            i <= p@.len(),
            forall|k: int| 0 <= k < i ==> cs@[at + k] == p@[k],
        decreases p@.len() - i,
    {
        if cs[at + i] != p[i] {
            assert(cs@.subrange(at as int, at + p@.len())[i as int] == cs@[at + i]);
            return false;
        }
        i += 1;
    }
    assert(cs@.subrange(at as int, at + p@.len()) == p@);
    true
}

/// Whether `part` stands somewhere in the text.
pub fn contains(s: &str, part: &str) -> (r: bool)
    ensures
        r == occurs(part@, s@),
{
    let cs = chars_of(s);
    let p = chars_of(part);
    if p.len() > cs.len() {
        return false;
    }
    let last: usize = cs.len() - p.len();
    let mut at: usize = 0;
    while at < last
        invariant
            cs@ == s@,
            p@ == part@,
            p@.len() <= cs@.len(),
            last == cs@.len() - p@.len(),
            at <= last,
            forall|k: int| 0 <= k < at ==> !stands_at(part@, s@, k),
        decreases last - at,
    {
        if stands(&cs, &p, at) {
            return true;
        }
        at += 1;
    }
    if stands(&cs, &p, last) {
        return true;
    }
    proof {
        if occurs(part@, s@) {
            let at = choose|at: int| #[trigger] stands_at(part@, s@, at);
            assert(!stands_at(part@, s@, at));
        }
    }
    false
}

/// Whether one text comes before another, character by character.
pub open spec fn comes_before(a: Seq<char>, b: Seq<char>) -> bool
    decreases a.len(),
{
    if b.len() == 0 {
        false
    } else if a.len() == 0 {
        true
    } else if a[0] == b[0] {
        comes_before(a.drop_first(), b.drop_first())
    } else {
        a[0] < b[0]
    }
}

/// Every two texts are equal or one comes before the other, never both ways.
pub proof fn texts_are_ordered(a: Seq<char>, b: Seq<char>)
    ensures
        a == b || comes_before(a, b) || comes_before(b, a),
        !(comes_before(a, b) && comes_before(b, a)),
        a == b ==> !comes_before(a, b),
    decreases a.len(),
{
    if a.len() > 0 && b.len() > 0 && a[0] == b[0] {
        texts_are_ordered(a.drop_first(), b.drop_first());
        if a.drop_first() == b.drop_first() {
            assert(a == b) by {
                assert(a == seq![a[0]] + a.drop_first());
                assert(b == seq![b[0]] + b.drop_first());
            }
        }
        if a == b {
            assert(a.drop_first() == b.drop_first());
        }
    } else if a.len() == 0 && b.len() == 0 {
        assert(a == b);
    }
}

/// Two texts are ordered by the first place where they differ.
pub proof fn first_difference_decides(a: Seq<char>, b: Seq<char>, at: int)
    requires
        0 <= at < a.len(),
        at < b.len(),
        forall|k: int| 0 <= k < at ==> a[k] == b[k],
        a[at] < b[at],
    ensures
        comes_before(a, b),
    decreases a.len(),
{
    if at > 0 {
        assert(a[0] == b[0]);
        let x = a.drop_first();
        let y = b.drop_first();
        assert forall|k: int| 0 <= k < at - 1 implies x[k] == y[k] by {
            assert(a[k + 1] == b[k + 1]);
        }
        first_difference_decides(x, y, at - 1);
    }
}

/// What comes before what comes before a text comes before it.
pub proof fn order_is_transitive(a: Seq<char>, b: Seq<char>, c: Seq<char>)
    requires
        comes_before(a, b),
        comes_before(b, c),
    ensures
        comes_before(a, c),
    decreases a.len(),
{
    if a.len() > 0 && b.len() > 0 && c.len() > 0 && a[0] == b[0] && b[0] == c[0] {
        order_is_transitive(a.drop_first(), b.drop_first(), c.drop_first());
    }
}

/// Whether one text comes before another.
pub fn before(a: &str, b: &str) -> (r: bool)
    ensures
        r == comes_before(a@, b@),
{
    let x = chars_of(a);
    let y = chars_of(b);
    let mut i: usize = 0;
    proof {
        assert(a@.skip(0) == a@);
        assert(b@.skip(0) == b@);
    }
    while i < x.len() && i < y.len() && x[i] == y[i]
        invariant
            x@ == a@,
            y@ == b@,
            i <= x@.len(),
            i <= y@.len(),
            comes_before(a@, b@) == comes_before(a@.skip(i as int), b@.skip(i as int)),
        decreases x@.len() - i,
    {
        assert(a@.skip(i as int).drop_first() == a@.skip(i + 1));
        assert(b@.skip(i as int).drop_first() == b@.skip(i + 1));
        i += 1;
    }
    if i >= y.len() {
        return false;
    }
    if i >= x.len() {
        return true;
    }
    x[i] < y[i]
}

/// A sorted list with one more text in its place, unless it is there already.
pub open spec fn inserted(s: Seq<Seq<char>>, x: Seq<char>) -> Seq<Seq<char>>
    decreases s.len(),
{
    if s.len() == 0 {
        seq![x]
    } else if s[0] == x {
        s
    } else if comes_before(x, s[0]) {
        seq![x] + s
    } else {
        seq![s[0]] + inserted(s.drop_first(), x)
    }
}

/// The texts of a list, each once, in order.
pub open spec fn sorted_set(s: Seq<Seq<char>>) -> Seq<Seq<char>>
    decreases s.len(),
{
    if s.len() == 0 {
        Seq::empty()
    } else {
        inserted(sorted_set(s.drop_last()), s.last())
    }
}

/// Each text of a list comes before the next.
pub open spec fn strictly_ordered(s: Seq<Seq<char>>) -> bool {
    forall|i: int, j: int| 0 <= i < j < s.len() ==> comes_before(#[trigger] s[i], #[trigger] s[j])
}

/// A list in which each text comes before its neighbour is in order
/// throughout.
pub proof fn neighbours_order_a_list(s: Seq<Seq<char>>)
    requires
        forall|i: int| 0 <= i < s.len() - 1 ==> comes_before(#[trigger] s[i], s[i + 1]),
    ensures
        strictly_ordered(s),
    decreases s.len(),
{
    if s.len() > 1 {
        let front = s.drop_last();
        assert forall|i: int| 0 <= i < front.len() - 1 implies comes_before(#[trigger] front[i], front[i + 1]) by {
            assert(comes_before(s[i], s[i + 1]));
        }
        neighbours_order_a_list(front);
        let last = s.len() - 1;
        assert forall|i: int, j: int| 0 <= i < j < s.len() implies comes_before(#[trigger] s[i], #[trigger] s[j]) by {
            if j < last {
                assert(comes_before(front[i], front[j]));
            } else {
                assert(comes_before(s[last - 1], s[last - 1 + 1]));
                if i < last - 1 {
                    assert(comes_before(front[i], front[last - 1]));
                    order_is_transitive(s[i], s[last - 1], s[last]);
                }
            }
        }
    }
}

proof fn inserted_keeps_order(s: Seq<Seq<char>>, x: Seq<char>)
    requires
        strictly_ordered(s),
    ensures
        strictly_ordered(inserted(s, x)),
        forall|t: Seq<char>| #[trigger] inserted(s, x).contains(t) <==> (t == x || s.contains(t)),
    decreases s.len(),
{
    let r = inserted(s, x);
    if s.len() == 0 {
        assert(r[0] == x);
        assert forall|t: Seq<char>| #[trigger] r.contains(t) <==> (t == x || s.contains(t)) by {
            if t == x {
                assert(r[0] == t);
            }
        }
    } else if s[0] == x {
        assert(s.contains(x)) by {
            assert(s[0] == x);
        }
    } else if comes_before(x, s[0]) {
        assert forall|i: int, j: int| 0 <= i < j < r.len() implies comes_before(
            #[trigger] r[i],
            #[trigger] r[j],
        ) by {
            if i == 0 {
                assert(r[j] == s[j - 1]);
                if j > 1 {
                    assert(comes_before(s[0], s[j - 1]));
                    order_is_transitive(x, s[0], s[j - 1]);
                }
            } else {
                assert(r[i] == s[i - 1] && r[j] == s[j - 1]);
            }
        }
        assert forall|t: Seq<char>| #[trigger] r.contains(t) <==> (t == x || s.contains(t)) by {
            if t == x {
                assert(r[0] == t);
            }
            if s.contains(t) {
                let k = choose|k: int| 0 <= k < s.len() && s[k] == t;
                assert(r[k + 1] == t);
            }
            if r.contains(t) {
                let k = choose|k: int| 0 <= k < r.len() && r[k] == t;
                if k > 0 {
                    assert(s[k - 1] == t);
                }
            }
        }
    } else {
        texts_are_ordered(x, s[0]);
        let rest = s.drop_first();
        assert(strictly_ordered(rest)) by {
            assert forall|i: int, j: int| 0 <= i < j < rest.len() implies comes_before(
                #[trigger] rest[i],
                #[trigger] rest[j],
            ) by {
                assert(rest[i] == s[i + 1] && rest[j] == s[j + 1]);
            }
        }
        inserted_keeps_order(rest, x);
        let tail = inserted(rest, x);
        assert forall|i: int, j: int| 0 <= i < j < r.len() implies comes_before(
            #[trigger] r[i],
            #[trigger] r[j],
        ) by {
            assert(r[j] == tail[j - 1]);
            if i == 0 {
                assert(tail.contains(tail[j - 1]));
                if tail[j - 1] != x {
                    assert(rest.contains(tail[j - 1]));
                    let k = choose|k: int| 0 <= k < rest.len() && rest[k] == tail[j - 1];
                    assert(s[k + 1] == tail[j - 1]);
                    assert(comes_before(s[0], s[k + 1]));
                }
            } else {
                assert(r[i] == tail[i - 1]);
            }
        }
        assert forall|t: Seq<char>| #[trigger] r.contains(t) <==> (t == x || s.contains(t)) by {
            if r.contains(t) {
                let k = choose|k: int| 0 <= k < r.len() && r[k] == t;
                if k == 0 {
                    assert(s[0] == t);
                } else {
                    assert(tail[k - 1] == t);
                    assert(tail.contains(t));
                    if t != x {
                        let m = choose|m: int| 0 <= m < rest.len() && rest[m] == t;
                        assert(s[m + 1] == t);
                    }
                }
            }
            if t == x {
                assert(tail.contains(x));
                let k = choose|k: int| 0 <= k < tail.len() && tail[k] == x;
                assert(r[k + 1] == x);
            }
            if s.contains(t) {
                let k = choose|k: int| 0 <= k < s.len() && s[k] == t;
                if k == 0 {
                    assert(r[0] == t);
                } else {
                    assert(rest[k - 1] == t);
                    assert(tail.contains(t));
                    let m = choose|m: int| 0 <= m < tail.len() && tail[m] == t;
                    assert(r[m + 1] == t);
                }
            }
        }
    }
}

/// A sorted set is in order, and holds the texts of the list and no others.
pub proof fn a_sorted_set_is_the_list_in_order(s: Seq<Seq<char>>)
    ensures
        strictly_ordered(sorted_set(s)),
        forall|t: Seq<char>| #[trigger] sorted_set(s).contains(t) <==> s.contains(t),
    decreases s.len(),
{
    if s.len() > 0 {
        let front = s.drop_last();
        a_sorted_set_is_the_list_in_order(front);
        inserted_keeps_order(sorted_set(front), s.last());
        assert forall|t: Seq<char>| #[trigger] sorted_set(s).contains(t) <==> s.contains(t) by {
            if s.contains(t) {
                let k = choose|k: int| 0 <= k < s.len() && s[k] == t;
                if k < front.len() {
                    assert(front[k] == t);
                }
            }
            if front.contains(t) {
                let k = choose|k: int| 0 <= k < front.len() && front[k] == t;
                assert(s[k] == t);
            }
        }
    }
}

/// Put a text into its place in a sorted list.
pub fn insert_sorted(list: &mut Vec<String>, x: String)
    ensures
        texts(final(list)@) == inserted(texts(old(list)@), x@),
{
    let ghost all = texts(list@);
    let mut i: usize = 0;
    proof {
        assert(all.skip(0) == all);
        assert(all.take(0) + inserted(all.skip(0), x@) == inserted(all, x@));
    }
    while i < list.len() && !same(&list[i], &x) && !before(&x, &list[i])
        invariant
            i <= list@.len(),
            all == texts(list@),
            inserted(all, x@) == all.take(i as int) + inserted(all.skip(i as int), x@),
        decreases list@.len() - i,
    {
        let ghost rest = all.skip(i as int);
        assert(rest[0] == list@[i as int]@);
        assert(rest.drop_first() == all.skip(i + 1));
        assert(all.take(i as int) + (seq![rest[0]] + inserted(rest.drop_first(), x@)) == all.take(i + 1) + inserted(
            all.skip(i + 1),
            x@,
        ));
        i += 1;
    }
    let ghost rest = all.skip(i as int);
    if i < list.len() {
        assert(rest[0] == list@[i as int]@);
        if same(&list[i], &x) {
            assert(all.take(i as int) + rest == all);
            return;
        }
    }
    list.insert(i, x);
    assert(texts(list@) == all.take(i as int) + (seq![x@] + rest));
}

/// The texts of a list, each once, in order.
pub fn sort_set(list: Vec<String>) -> (r: Vec<String>)
    ensures
        texts(r@) == sorted_set(texts(list@)),
{
    let mut r: Vec<String> = Vec::new();
    let mut i: usize = 0;
    let ghost all = texts(list@);
    proof {
        assert(all.take(0) == Seq::<Seq<char>>::empty());
        assert(texts(r@) == Seq::<Seq<char>>::empty());
    }
    while i < list.len()
        invariant
            i <= list@.len(),
            all == texts(list@),
            texts(r@) == sorted_set(all.take(i as int)),
        decreases list@.len() - i,
    {
        assert(all.take(i + 1).drop_last() == all.take(i as int));
        assert(all.take(i + 1).last() == list@[i as int]@);
        insert_sorted(&mut r, list[i].clone());
        i += 1;
    }
    assert(all.take(all.len() as int) == all);
    r
}

/// Whether the text is one of the list.
pub fn is_listed(list: &Vec<String>, x: &str) -> (r: bool)
    ensures
        r == texts(list@).contains(x@),
{
    let mut i: usize = 0;
    while i < list.len()
        invariant
            i <= list@.len(),
            forall|k: int| 0 <= k < i ==> (#[trigger] list@[k])@ != x@,
        decreases list@.len() - i,
    {
        if same(&list[i], x) {
            assert(texts(list@)[i as int] == x@);
            return true;
        }
        i += 1;
    }
    proof {
        if texts(list@).contains(x@) {
            let k = choose|k: int| 0 <= k < list@.len() && texts(list@)[k] == x@;
            assert(list@[k]@ == x@);
        }
    }
    false
}

/// Whether two lists hold the same texts in the same order.
pub fn same_texts(a: &Vec<String>, b: &Vec<String>) -> (r: bool)
    ensures
        r == (texts(a@) == texts(b@)),
{
    if a.len() != b.len() {
        assert(texts(a@).len() != texts(b@).len());
        return false;
    }
    let mut i: usize = 0;
    while i < a.len()
        invariant
            a@.len() == b@.len(),
            i <= a@.len(),
            forall|k: int| 0 <= k < i ==> (#[trigger] a@[k])@ == b@[k]@,
        decreases a@.len() - i,
    {
        if !same(&a[i], &b[i]) {
            assert(texts(a@)[i as int] != texts(b@)[i as int]);
            return false;
        }
        i += 1;
    }
    assert(texts(a@) =~= texts(b@));
    true
}

/// The pieces of the text between the occurrences of one of two characters.
pub fn split_either(s: &str, a: char, b: char) -> (r: Vec<String>)
    ensures
        texts(r@) == split_where(s@, either(a, b)),
{
    let cs = chars_of(s);
    let ghost sep = either(a, b);
    let mut r: Vec<String> = Vec::new();
    let mut cur = String::new();
    let mut i: usize = 0;
    proof {
        assert(s@.take(0) == Seq::<char>::empty());
        assert(texts(r@).push(cur@) == split_where(s@.take(0), sep));
    }
    while i < cs.len()
        invariant
            cs@ == s@,
            i <= cs@.len(),
            sep == either(a, b),
            texts(r@).push(cur@) == split_where(s@.take(i as int), sep),
        decreases cs@.len() - i,
    {
        let c = cs[i];
        let ghost whole = split_where(s@.take(i as int), sep);
        let ghost before = r@;
        assert(s@.take(i + 1).drop_last() == s@.take(i as int));
        assert(s@.take(i + 1).last() == c);
        assert(whole.drop_last() == texts(before));
        if c == a || c == b {
            let piece = cur;
            r.push(piece);
            cur = String::new();
            assert(texts(r@) == texts(before).push(piece@));
            assert(texts(r@) == whole);
        } else {
            cur.push(c);
        }
        i += 1;
    }
    assert(s@.take(s@.len() as int) == s@);
    let ghost before = r@;
    r.push(cur);
    assert(texts(r@) == texts(before).push(cur@));
    r
}

/// The pieces of the text between the occurrences of one character.
pub fn split(s: &str, sep: char) -> (r: Vec<String>)
    ensures
        texts(r@) == split_on(s@, sep),
{
    split_either(s, sep, sep)
}

/// The decimal digits of `n`.
pub fn decimal_text(n: u64) -> (r: String)
    ensures
        r@ == decimal(n as nat),
    decreases n,
{
    let mut r = if n < 10 {
        String::new()
    } else {
        decimal_text(n / 10)
    };
    let d: u8 = 48 + (n % 10) as u8;
    r.push(d as char);
    assert(seq![digit_char(n as nat)] == Seq::<char>::empty().push(digit_char(n as nat)));
    r
}

} // verus!

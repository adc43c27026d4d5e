//! Per-panel input mode, fuzzy-search query, and toggle-filter state for the
//! sidebars.

use vstd::prelude::*;

use crate::keys::Key;
use crate::text::{concat2, same};
#[allow(unused_imports)]
use vstd::arithmetic::power2::{lemma_pow2_strictly_increases, lemma_pow2_unfold, lemma2_to64, pow2};

verus! {

/// Whether a fuzzy query matches a text, as `nucleo-matcher` has it.
pub uninterp spec fn fuzzy(query: Seq<char>, haystack: Seq<char>) -> bool;

/// `nucleo_matcher::pattern::Pattern::parse` with smart case and smart
/// normalization, and `Pattern::score` with a matcher in its default
/// configuration: whether there is a score depends on the query and the text
/// alone.  The matcher panics on a text of more than 2^32 - 1 code points, and
/// counts a score in sixteen bits: 36 for the first character of a word and 26
/// for each that follows at most, so a longer word could overflow it.
#[verifier::external_body]
fn fuzzy_match(query: &str, haystack: &str) -> (r: bool)
    requires
        query@.len() <= 2520,
        haystack@.len() <= 0x3fff_ffff,
    ensures
        r == fuzzy(query@, haystack@),
{
    let mut buf: Vec<char> = Vec::new();
    let mut matcher = nucleo_matcher::Matcher::new(nucleo_matcher::Config::DEFAULT);
    nucleo_matcher::pattern::Pattern::parse(
        query,
        nucleo_matcher::pattern::CaseMatching::Smart,
        nucleo_matcher::pattern::Normalization::Smart,
    ).score(nucleo_matcher::Utf32Str::new(haystack, &mut buf), &mut matcher).is_some()
}

/// Whether a panel is browsing its rows or typing a fuzzy-search query.
#[derive(Debug, Clone, Copy, PartialEq, Eq, Structural)]
pub enum Mode {
    Browsing,
    Search,
}

/// What the caller should do in response to an event the filter consumed.  An
/// event that fell through is the caller's to handle.
#[derive(Debug, Clone, Copy, PartialEq, Eq, Structural)]
pub enum Outcome {
    FilterChanged,
    MoveCursor(i32),
    LeavePanel,
    Consumed,
}

/// Which rows a search reaches.
#[derive(Debug, Clone, Copy, PartialEq, Eq, Structural)]
pub enum SearchScope {
    /// Those the toggles leave.
    Filtered,
    /// Every row.
    All,
}

/// Search and toggle state for one sidebar panel.
#[derive(Debug, PartialEq, Eq)]
pub struct PanelFilter {
    /// Render and bit order of this panel's toggle filters, not a set of keys.
    pub allowed_toggles: Vec<char>,
    pub mode: Mode,
    pub query: String,
    /// The toggles that are on, each once.
    pub toggles: Vec<char>,
}

/// The state of a filter, its toggles a set.
#[verifier::ext_equal]
pub struct FilterState {
    pub allowed: Seq<char>,
    pub mode: Mode,
    pub query: Seq<char>,
    pub toggles: Set<char>,
}

impl View for PanelFilter {
    type V = FilterState;

    open spec fn view(&self) -> FilterState {
        FilterState {
            allowed: self.allowed_toggles@,
            mode: self.mode,
            query: self.query@,
            toggles: self.toggles@.to_set(),
        }
    }
}

impl FilterState {
    /// With one toggle flipped.  A key that names no filter of the panel is
    /// ignored.
    pub open spec fn flipped(self, key: char) -> Self {
        if !self.allowed.contains(key) {
            self
        } else if self.toggles.contains(key) {
            FilterState { toggles: self.toggles.remove(key), ..self }
        } else {
            FilterState { toggles: self.toggles.insert(key), ..self }
        }
    }

    /// The toggles count under `scope`.
    pub open spec fn applies(self, scope: SearchScope) -> bool {
        scope == SearchScope::Filtered || self.query.len() == 0
    }

    /// A row is shown, whose match with the query is `matched`.
    pub open spec fn lets_through(self, matched: bool) -> bool {
        self.query.len() == 0 || matched
    }

    /// Whether the panel narrows its rows.
    pub open spec fn narrows(self) -> bool {
        self.query.len() > 0 || self.toggles != Set::<char>::empty()
    }

    /// After a key, and what it calls for.
    pub open spec fn keyed(self, key: Key) -> (Self, Option<Outcome>) {
        match self.mode {
            Mode::Browsing => if key == Key::Escape {
                if self.toggles != Set::<char>::empty() {
                    (FilterState { toggles: Set::empty(), ..self }, Some(Outcome::FilterChanged))
                } else {
                    (self, Some(Outcome::LeavePanel))
                }
            } else {
                (self, None)
            },
            Mode::Search => match key {
                Key::Backspace => (
                    FilterState {
                        query: if self.query.len() > 0 {
                            self.query.drop_last()
                        } else {
                            self.query
                        },
                        ..self
                    },
                    Some(Outcome::FilterChanged),
                ),
                Key::ArrowUp => (self, Some(Outcome::MoveCursor(-1i32))),
                Key::ArrowDown => (self, Some(Outcome::MoveCursor(1i32))),
                _ => (self, None),
            },
        }
    }

    /// After typed text, and what it calls for.
    pub open spec fn typed(self, text: Seq<char>) -> (Self, Option<Outcome>) {
        match self.mode {
            Mode::Browsing => if text == "/"@ {
                (FilterState { mode: Mode::Search, ..self }, Some(Outcome::Consumed))
            } else {
                (self, None)
            },
            Mode::Search => (
                FilterState { query: self.query + text, ..self },
                Some(Outcome::FilterChanged),
            ),
        }
    }

    /// After leaving search mode.  Toggle filters are a separate dimension and
    /// are left intact.
    pub open spec fn left_search(self) -> Self {
        FilterState { mode: Mode::Browsing, query: Seq::empty(), ..self }
    }
}

/// The toggles that are on, in the panel's order.
pub open spec fn on_in_order(allowed: Seq<char>, toggles: Set<char>) -> Seq<char> {
    allowed.filter(|key: char| toggles.contains(key))
}

/// The toggles that are on as bits, the first of the panel's the lowest.
pub open spec fn bits(allowed: Seq<char>, toggles: Set<char>) -> nat
    decreases allowed.len(),
{
    if allowed.len() == 0 {
        0
    } else {
        bits(allowed.drop_last(), toggles) + (if toggles.contains(allowed.last()) {
            pow2((allowed.len() - 1) as nat)
        } else {
            0
        })
    }
}

/// As many bits as there are toggles hold them.
pub proof fn bits_fit(allowed: Seq<char>, toggles: Set<char>)
    ensures
        bits(allowed, toggles) < pow2(allowed.len()),
    decreases allowed.len(),
{
    lemma2_to64();
    if allowed.len() > 0 {
        bits_fit(allowed.drop_last(), toggles);
        lemma_pow2_unfold(allowed.len());
    }
}

fn holds(list: &Vec<char>, key: char) -> (r: bool)
    ensures
        r == list@.contains(key),
{
    let mut i: usize = 0;
    while i < list.len()
        invariant
            i <= list@.len(),
            forall|k: int| 0 <= k < i ==> list@[k] != key,
        decreases list@.len() - i,
    {
        if list[i] == key {
            return true;
        }
        i += 1;
    }
    false
}

fn without(list: &Vec<char>, key: char) -> (r: Vec<char>)
    ensures
        r@.to_set() == list@.to_set().remove(key),
{
    let mut out: Vec<char> = Vec::new();
    let mut i: usize = 0;
    while i < list.len()
        invariant
            i <= list@.len(),
            forall|c: char| #[trigger] out@.contains(c) <==> c != key && list@.take(i as int).contains(c),
        decreases list@.len() - i,
    {
        let ghost before = out@;
        let c = list[i];
        if c != key {
            out.push(c);
        }
        proof {
            let upto = list@.take(i + 1);
            assert forall|x: char| #[trigger] out@.contains(x) <==> x != key && upto.contains(x) by {
                assert(upto =~= list@.take(i as int).push(c));
                assert(upto[i as int] == c);
                if before.contains(x) {
                    let k = choose|k: int| 0 <= k < before.len() && before[k] == x;
                    assert(out@[k] == x);
                    let j = choose|j: int| 0 <= j < i && list@.take(i as int)[j] == x;
                    assert(upto[j] == x);
                }
                if out@.contains(x) && !before.contains(x) {
                    assert(x == c) by {
                        let k = choose|k: int| 0 <= k < out@.len() && out@[k] == x;
                        if k < before.len() {
                            assert(before[k] == x);
                        }
                    }
                }
                if x != key && upto.contains(x) {
                    let j = choose|j: int| 0 <= j < upto.len() && upto[j] == x;
                    if j < i {
                        assert(list@.take(i as int)[j] == x);
                        assert(before.contains(x));
                        let k = choose|k: int| 0 <= k < before.len() && before[k] == x;
                        assert(out@[k] == x);
                    } else {
                        assert(x == c);
                        assert(out@[out@.len() - 1] == c);
                    }
                }
            }
        }
        i += 1;
    }
    assert(list@.take(list@.len() as int) =~= list@);
    assert(out@.to_set() =~= list@.to_set().remove(key));
    out
}

impl PanelFilter {
    /// A panel browsing all of its rows.
    pub fn new(allowed_toggles: Vec<char>) -> (r: Self)
        ensures
            r@ == (FilterState {
                allowed: allowed_toggles@,
                mode: Mode::Browsing,
                query: Seq::empty(),
                toggles: Set::empty(),
            }),
    {
        let r = PanelFilter {
            allowed_toggles,
            mode: Mode::Browsing,
            query: String::new(),
            toggles: Vec::new(),
        };
        assert(r@.query =~= Seq::empty());
        assert(r@.toggles =~= Set::empty());
        r
    }

    /// What the panel is doing.
    pub fn mode(&self) -> (r: Mode)
        ensures
            r == self@.mode,
    {
        self.mode
    }

    /// The query so far.
    pub fn query(&self) -> (r: &str)
        ensures
            r@ == self@.query,
    {
        self.query.as_str()
    }

    /// Whether a toggle is on.
    pub fn is_toggled(&self, key: char) -> (r: bool)
        ensures
            r == self@.toggles.contains(key),
    {
        holds(&self.toggles, key)
    }

    /// Flip one toggle by its identity char.  A char outside the panel's own
    /// names no filter on this panel and is ignored.
    pub fn toggle(&mut self, key: char)
        ensures
            final(self)@ == old(self)@.flipped(key),
    {
        if !holds(&self.allowed_toggles, key) {
            return;
        }
        if holds(&self.toggles, key) {
            self.toggles = without(&self.toggles, key);
        } else {
            let ghost before = self.toggles@;
            self.toggles.push(key);
            proof {
                let after = self.toggles@;
                assert forall|c: char| #[trigger] after.to_set().contains(c) <==> before.to_set().insert(
                    key,
                ).contains(c) by {
                    if before.contains(c) {
                        let k = choose|k: int| 0 <= k < before.len() && before[k] == c;
                        assert(after[k] == c);
                    }
                    if c == key {
                        assert(after[before.len() as int] == c);
                    }
                    if after.contains(c) {
                        let k = choose|k: int| 0 <= k < after.len() && after[k] == c;
                        if k < before.len() {
                            assert(before[k] == c);
                        }
                    }
                }
                assert(after.to_set() =~= before.to_set().insert(key));
            }
        }
    }

    /// Turn every toggle off.
    pub fn clear_toggles(&mut self)
        ensures
            final(self)@ == (FilterState { toggles: Set::empty(), ..old(self)@ }),
    {
        self.toggles = Vec::new();
        assert(self@.toggles =~= Set::empty());
    }

    /// Active toggles in the panel's order.
    pub fn active_toggles(&self) -> (r: Vec<char>)
        ensures
            r@ == on_in_order(self@.allowed, self@.toggles),
    {
        let ghost all = self.allowed_toggles@;
        let ghost on = self@.toggles;
        let ghost keep = |key: char| on.contains(key);
        let mut out: Vec<char> = Vec::new();
        let mut i: usize = 0;
        proof {
            reveal(Seq::filter);
            assert(all.take(0) =~= Seq::<char>::empty());
        }
        while i < self.allowed_toggles.len()
            invariant
                i <= self.allowed_toggles@.len(),
                all == self.allowed_toggles@,
                on == self@.toggles,
                keep == (|key: char| on.contains(key)),
                out@ == all.take(i as int).filter(keep),
            decreases self.allowed_toggles@.len() - i,
        {
            proof {
                reveal(Seq::filter);
                assert(all.take(i + 1).drop_last() =~= all.take(i as int));
                assert(all.take(i + 1).last() == all[i as int]);
            }
            let key = self.allowed_toggles[i];
            if self.is_toggled(key) {
                out.push(key);
            }
            i += 1;
        }
        assert(all.take(all.len() as int) =~= all);
        out
    }

    /// The active toggles as a bitmask in the panel's order.
    pub fn toggle_bits(&self) -> (r: u32)
        requires
            self@.allowed.len() <= 32,
        ensures
            r == bits(self@.allowed, self@.toggles),
    {
        let ghost all = self.allowed_toggles@;
        let ghost on = self@.toggles;
        let mut sum: u64 = 0;
        let mut place: u64 = 1;
        let mut i: usize = 0;
        proof {
            lemma2_to64();
            assert(all.take(0) =~= Seq::<char>::empty());
        }
        while i < self.allowed_toggles.len()
            invariant
                i <= self.allowed_toggles@.len() <= 32,
                all == self.allowed_toggles@,
                on == self@.toggles,
                place == pow2(i as nat),
                place <= 0x1_0000_0000,
                sum < place,
                sum == bits(all.take(i as int), on),
            decreases self.allowed_toggles@.len() - i,
        {
            proof {
                assert(all.take(i + 1).drop_last() =~= all.take(i as int));
                assert(all.take(i + 1).last() == all[i as int]);
                lemma_pow2_unfold((i + 1) as nat);
                lemma2_to64();
                if i + 1 < 32 {
                    lemma_pow2_strictly_increases((i + 1) as nat, 32);
                }
            }
            if self.is_toggled(self.allowed_toggles[i]) {
                sum = sum + place;
            }
            place = place * 2;
            i += 1;
        }
        assert(all.take(all.len() as int) =~= all);
        sum as u32
    }

    /// Whether the panel currently narrows its rows: a non-empty query or any
    /// active toggle.
    pub fn is_filtering(&self) -> (r: bool)
        ensures
            r == self@.narrows(),
    {
        proof {
            no_toggle_is_an_empty_set(self.toggles@);
        }
        !self.no_query() || self.toggles.len() > 0
    }

    fn no_query(&self) -> (r: bool)
        ensures
            r == (self@.query.len() == 0),
    {
        proof {
            reveal_strlit("");
            if self.query@.len() == 0 {
                assert(self.query@ =~= ""@);
            }
        }
        same(&self.query, "")
    }

    /// Whether the toggle filters apply this frame.  Under `All` a live query
    /// stands them down, so a search reaches rows the toggles hide.
    pub fn toggles_apply(&self, scope: SearchScope) -> (r: bool)
        ensures
            r == self@.applies(scope),
            r == (scope == SearchScope::Filtered || self@.query.len() == 0),
    {
        scope == SearchScope::Filtered || self.no_query()
    }

    /// Takes a key.
    pub fn on_key(&mut self, key: Key) -> (r: Option<Outcome>)
        ensures
            final(self)@ == old(self)@.keyed(key).0,
            r == old(self)@.keyed(key).1,
    {
        match self.mode {
            Mode::Browsing => if key == Key::Escape {
                proof {
                    no_toggle_is_an_empty_set(self.toggles@);
                }
                if self.toggles.len() > 0 {
                    self.clear_toggles();
                    Some(Outcome::FilterChanged)
                } else {
                    Some(Outcome::LeavePanel)
                }
            } else {
                None
            },
            Mode::Search => match key {
                Key::Backspace => {
                    self.query.pop();
                    Some(Outcome::FilterChanged)
                },
                Key::ArrowUp => Some(Outcome::MoveCursor(-1)),
                Key::ArrowDown => Some(Outcome::MoveCursor(1)),
                // Enter and Escape are search-scoped keyboard actions
                // dispatched by the caller, so they stay rebindable.
                _ => None,
            },
        }
    }

    /// Takes typed text.
    pub fn on_text(&mut self, text: &str) -> (r: Option<Outcome>)
        ensures
            final(self)@ == old(self)@.typed(text@).0,
            r == old(self)@.typed(text@).1,
    {
        match self.mode {
            Mode::Browsing => {
                if same(text, "/") {
                    self.mode = Mode::Search;
                    return Some(Outcome::Consumed);
                }
                None
            },
            Mode::Search => {
                self.query = concat2(&self.query, text);
                Some(Outcome::FilterChanged)
            },
        }
    }

    /// Whether a row is shown, given whether the query matches it.  An empty
    /// query matches everything.
    pub fn shows(&self, matched: bool) -> (r: bool)
        ensures
            r == self@.lets_through(matched),
            r == (self@.query.len() == 0 || matched),
    {
        self.no_query() || matched
    }

    /// Whether `haystack` matches the current query.  An empty query matches
    /// everything.
    pub fn matches(&self, haystack: &str) -> (r: bool)
        requires
            self@.query.len() <= 2520,
            haystack@.len() <= 0x3fff_ffff,
        ensures
            r == self@.lets_through(fuzzy(self@.query, haystack@)),
            r == (self@.query.len() == 0 || fuzzy(self@.query, haystack@)),
    {
        if self.no_query() {
            return true;
        }
        self.shows(fuzzy_match(&self.query, haystack))
    }

    /// Leave search mode: clear the query and return to browsing.
    pub fn exit_search(&mut self)
        ensures
            final(self)@ == old(self)@.left_search(),
    {
        self.query = String::new();
        self.mode = Mode::Browsing;
        assert(self@.query =~= Seq::empty());
    }
}

proof fn no_toggle_is_an_empty_set(list: Seq<char>)
    ensures
        (list.len() == 0) == (list.to_set() == Set::<char>::empty()),
{
    if list.len() == 0 {
        assert(list.to_set() =~= Set::<char>::empty());
    } else {
        assert(list.to_set().contains(list[0]));
    }
}

/// Flipping a toggle twice is leaving it alone.
pub proof fn a_toggle_flips_back(state: FilterState, key: char)
    ensures
        state.flipped(key).flipped(key) == state,
{
    if state.toggles.contains(key) {
        assert(state.toggles.remove(key).insert(key) =~= state.toggles);
    } else {
        assert(state.toggles.insert(key).remove(key) =~= state.toggles);
    }
}

/// Leaving search clears the query, returns to browsing and keeps the toggles.
pub proof fn leaving_search_keeps_the_toggles(state: FilterState)
    ensures
        state.left_search().toggles == state.toggles,
        state.left_search().mode == Mode::Browsing,
        state.left_search().query.len() == 0,
{
}

/// Escape while browsing turns the toggles off first, and leaves the panel
/// only once there are none.
pub proof fn escape_clears_before_it_leaves(state: FilterState)
    requires
        state.mode == Mode::Browsing,
    ensures
        state.keyed(Key::Escape).0.keyed(Key::Escape) == (
            FilterState { toggles: Set::empty(), ..state },
            Some(Outcome::LeavePanel),
        ),
{
    assert(state.keyed(Key::Escape).0 =~= (FilterState { toggles: Set::empty(), ..state }));
}

} // verus!

//! The multiplexers panes are hosted from.  This decides which ones exist and
//! routes a request to the one that owns a pane.

use vstd::prelude::*;

use crate::herdr::endpoints::set_generation;
use crate::herdr::host::Herdr;
#[allow(unused_imports)]
use crate::herdr::host::{count, every_pane_has_a_place, found, sides_of, waiting_on};
use crate::herdr::view::SessionId;
#[allow(unused_imports)]
use crate::herdr::endpoints::side_at;
use crate::multiplexer::listing::{draw_rows, find_row, ListedPane};
#[allow(unused_imports)]
use crate::multiplexer::listing::{
    flat, listed_at, listed_views, opt_texts_of, row_at, rows, Drawing, ListedView,
};
use crate::multiplexer::model::{MultiplexerKind, Pane, PaneKey};
#[allow(unused_imports)]
use crate::multiplexer::model::{is_real, keys, kind_name, named_kind, opt_key_ref, PaneKeyView};
use crate::multiplexer::scripted::{find_in, flat_rows, Scripted};
#[allow(unused_imports)]
use crate::multiplexer::scripted::{found_in, other_than, side_rows};
use crate::side::{Platform, Side};
#[allow(unused_imports)]
use crate::side::SideView;
use crate::text::{concat2, concat3};
#[allow(unused_imports)]
use crate::text::texts;

verus! {

/// zellij, as far as it is asked about here: what it lists, side by side.
#[derive(Debug, PartialEq, Eq)]
pub struct Zellij {
    pub enabled: bool,
    pub show_unmatched: bool,
    pub generation: u64,
    pub sides: Vec<(Side, Vec<Pane>)>,
}

/// The terminal multiplexers a pane can be hosted from, each holding its own
/// listing and in-flight calls.
pub enum Multiplexer {
    Herdr(Herdr),
    Zellij(Zellij),
    /// Answers from a script instead of a server.
    Scripted(Scripted),
}

/// Why a request about panes is refused.
#[derive(Debug, PartialEq, Eq)]
pub enum PaneError {
    /// Every multiplexer is off.
    AllDisabled,
    /// No multiplexer has that name.
    Unknown { name: String },
    /// The one named is off.
    Disabled(MultiplexerKind),
}

/// How a refusal about panes reads.
pub open spec fn pane_error_text(error: PaneError) -> Seq<char> {
    match error {
        PaneError::AllDisabled => ALL_DISABLED@,
        PaneError::Unknown { name } => "`"@ + name@ + "` is not a multiplexer, expected `herdr` or `zellij`"@,
        PaneError::Disabled(kind) => "`"@ + kind_name(kind) + "` is disabled"@,
    }
}

/// The reason a request naming no multiplexer is refused while every one is
/// off.
pub const ALL_DISABLED: &'static str = "every multiplexer is disabled; enable herdr or zellij";

impl PaneError {
    /// How the refusal reads.
    pub fn message(&self) -> (r: String)
        ensures
            r@ == pane_error_text(*self),
    {
        match self {
            PaneError::AllDisabled => ALL_DISABLED.to_owned(),
            PaneError::Unknown { name } => concat3(
                "`",
                name,
                "` is not a multiplexer, expected `herdr` or `zellij`",
            ),
            PaneError::Disabled(kind) => concat3("`", kind.name(), "` is disabled"),
        }
    }
}

impl Multiplexer {
    /// Which multiplexer this is.
    pub open spec fn spec_kind(self) -> MultiplexerKind {
        match self {
            Multiplexer::Herdr(_) => MultiplexerKind::Herdr,
            Multiplexer::Zellij(_) => MultiplexerKind::Zellij,
            Multiplexer::Scripted(_) => MultiplexerKind::Scripted,
        }
    }

    /// Whether it is switched on.
    pub open spec fn is_enabled(self) -> bool {
        match self {
            Multiplexer::Herdr(m) => m@.config.enabled,
            Multiplexer::Zellij(m) => m.enabled,
            Multiplexer::Scripted(m) => m.enabled,
        }
    }

    /// What it lists, side by side.
    pub open spec fn sides(self) -> Seq<(SideView, Seq<Pane>)> {
        match self {
            Multiplexer::Herdr(m) => sides_of(m@.caches),
            Multiplexer::Zellij(m) => side_rows(m.sides@),
            Multiplexer::Scripted(m) => side_rows(m.sides@),
        }
    }

    /// Whether panes in no workspace are drawn.
    pub open spec fn draws_unmatched(self) -> bool {
        match self {
            Multiplexer::Herdr(m) => m@.config.show_unmatched,
            Multiplexer::Zellij(m) => m.show_unmatched,
            Multiplexer::Scripted(m) => m.show_unmatched,
        }
    }

    /// One number standing for everything it lists.
    pub open spec fn stamp(self) -> int {
        match self {
            Multiplexer::Herdr(m) => set_generation(m@.membership, m@.caches),
            Multiplexer::Zellij(m) => m.generation as int,
            Multiplexer::Scripted(m) => m.generation as int,
        }
    }

    /// The pane it lists under that side and terminal.
    pub open spec fn listed_pane(self, side: SideView, terminal_id: Seq<char>) -> Option<Pane> {
        match self {
            Multiplexer::Herdr(m) => found(m@.caches, side, terminal_id),
            Multiplexer::Zellij(m) => found_in(side_rows(m.sides@), side, terminal_id),
            Multiplexer::Scripted(m) => found_in(side_rows(m.sides@), side, terminal_id),
        }
    }

    /// Where a pane stands in its listing.
    pub open spec fn place(self, side: SideView, terminal_id: Seq<char>) -> Option<int> {
        match self {
            Multiplexer::Herdr(m) => match side_at(m@.caches, side) {
                Some(at) => match listed_at(m@.caches[at].agents, terminal_id) {
                    Some(i) => Some(count(m@.caches.take(at)) + i),
                    None => None,
                },
                None => None,
            },
            Multiplexer::Zellij(m) => row_at(flat(side_rows(m.sides@)), side, terminal_id),
            Multiplexer::Scripted(m) => row_at(flat(side_rows(m.sides@)), side, terminal_id),
        }
    }

    /// The rows it draws.
    pub open spec fn drawn(
        self,
        claimed: Seq<PaneKeyView>,
        workspaces: Seq<Seq<char>>,
        directories: Seq<Option<Seq<char>>>,
        platform: Platform,
    ) -> Seq<ListedView> {
        (Drawing {
            kind: self.spec_kind(),
            claimed,
            workspaces,
            platform,
            show_unmatched: self.draws_unmatched(),
        }).rows(flat(self.sides()), directories)
    }

    /// Which multiplexer this is.
    pub fn kind(&self) -> (r: MultiplexerKind)
        ensures
            r == self.spec_kind(),
    {
        match self {
            Multiplexer::Herdr(_) => MultiplexerKind::Herdr,
            Multiplexer::Zellij(_) => MultiplexerKind::Zellij,
            Multiplexer::Scripted(_) => MultiplexerKind::Scripted,
        }
    }

    /// Whether it is switched on.
    pub fn enabled(&self) -> (r: bool)
        ensures
            r == self.is_enabled(),
    {
        match self {
            Multiplexer::Herdr(m) => m.enabled(),
            Multiplexer::Zellij(m) => m.enabled,
            Multiplexer::Scripted(m) => m.enabled,
        }
    }

    /// The key a pane on `side` is known by here.
    pub fn key(&self, side: &Side, terminal_id: &str) -> (r: PaneKey)
        ensures
            r@ == (PaneKeyView { multiplexer: self.spec_kind(), side: side@, terminal_id: terminal_id@ }),
    {
        PaneKey { multiplexer: self.kind(), side: side.clone(), terminal_id: terminal_id.to_owned() }
    }

    /// One number standing for everything it lists.
    pub fn generation(&self) -> (r: u64)
        ensures
            r as int == self.stamp(),
    {
        match self {
            Multiplexer::Herdr(m) => m.generation(),
            Multiplexer::Zellij(m) => m.generation,
            Multiplexer::Scripted(m) => m.generation,
        }
    }

    /// Every listed pane with its side, in order.
    pub fn panes(&self) -> (r: Vec<(&Side, &Pane)>)
        ensures
            rows(r@) == flat(self.sides()),
    {
        match self {
            Multiplexer::Herdr(m) => m.panes(),
            Multiplexer::Zellij(m) => flat_rows(&m.sides),
            Multiplexer::Scripted(m) => m.panes(),
        }
    }

    /// How many panes are listed.
    pub fn pane_count(&self) -> (r: usize)
        ensures
            r == flat(self.sides()).len(),
    {
        let list = self.panes();
        assert(rows(list@).len() == list@.len());
        list.len()
    }

    /// The pane listed under that side and terminal.
    pub fn find(&self, side: &Side, terminal_id: &str) -> (r: Option<&Pane>)
        ensures
            (match r {
                Some(pane) => Some(*pane),
                None => None,
            }) == self.listed_pane(side@, terminal_id@),
    {
        match self {
            Multiplexer::Herdr(m) => m.find(side, terminal_id),
            Multiplexer::Zellij(m) => find_in(&m.sides, side, terminal_id),
            Multiplexer::Scripted(m) => m.find(side, terminal_id),
        }
    }

    /// Where a pane stands in the listing.
    pub fn pane_index(&self, side: &Side, terminal_id: &str) -> (r: Option<usize>)
        ensures
            (match r {
                Some(at) => Some(at as int),
                None => None,
            }) == self.place(side@, terminal_id@),
    {
        match self {
            Multiplexer::Herdr(m) => {
                let list = m.panes();
                proof {
                    every_pane_has_a_place(m@.caches);
                    assert(rows(list@).len() == list@.len());
                }
                let all = list.len();
                assert(count(m@.caches) == all);
                m.pane_index(side, terminal_id)
            },
            Multiplexer::Zellij(m) => find_row(&flat_rows(&m.sides), side, terminal_id),
            Multiplexer::Scripted(m) => m.pane_index(side, terminal_id),
        }
    }

    /// Every listed pane no session holds.
    fn listed(
        &self,
        claimed: &Vec<PaneKey>,
        workspaces: &Vec<String>,
        directories: &Vec<Option<String>>,
        platform: Platform,
    ) -> (r: Vec<ListedPane>)
        requires
            directories@.len() == flat(self.sides()).len(),
        ensures
            listed_views(r@) == self.drawn(keys(claimed@), texts(workspaces@), opt_texts_of(directories@), platform),
    {
        let unmatched = match self {
            Multiplexer::Herdr(m) => m.config.show_unmatched,
            Multiplexer::Zellij(m) => m.show_unmatched,
            Multiplexer::Scripted(m) => m.show_unmatched,
        };
        let list = self.panes();
        assert(rows(list@).len() == list@.len());
        draw_rows(&list, directories, self.kind(), claimed, workspaces, platform, unmatched)
    }
}

/// Every multiplexer there is, in a fixed order.
pub struct Multiplexers {
    pub list: Vec<Multiplexer>,
}

/// Where the multiplexer of a kind stands.
pub open spec fn kind_place(list: Seq<Multiplexer>, kind: MultiplexerKind) -> Option<int>
    decreases list.len(),
{
    if list.len() == 0 {
        None
    } else {
        match kind_place(list.drop_last(), kind) {
            Some(at) => Some(at),
            None => if list.last().spec_kind() == kind {
                Some(list.len() - 1)
            } else {
                None
            },
        }
    }
}

/// The place found holds that kind, and nothing before it does.
pub proof fn kind_place_is_first(list: Seq<Multiplexer>, kind: MultiplexerKind)
    ensures
        match kind_place(list, kind) {
            Some(at) => 0 <= at < list.len() && list[at].spec_kind() == kind && forall|k: int|
                0 <= k < at ==> (#[trigger] list[k]).spec_kind() != kind,
            None => forall|k: int| 0 <= k < list.len() ==> (#[trigger] list[k]).spec_kind() != kind,
        },
    decreases list.len(),
{
    if list.len() > 0 {
        let front = list.drop_last();
        kind_place_is_first(front, kind);
        assert forall|k: int| 0 <= k < front.len() implies front[k] == #[trigger] list[k] by {}
    }
}

/// Where the first multiplexer that is switched on stands.
pub open spec fn enabled_place(list: Seq<Multiplexer>) -> Option<int>
    decreases list.len(),
{
    if list.len() == 0 {
        None
    } else {
        match enabled_place(list.drop_last()) {
            Some(at) => Some(at),
            None => if list.last().is_enabled() {
                Some(list.len() - 1)
            } else {
                None
            },
        }
    }
}

/// The sum of the generations.
pub open spec fn stamps(list: Seq<Multiplexer>) -> int
    decreases list.len(),
{
    if list.len() == 0 {
        0
    } else {
        (stamps(list.drop_last()) + list.last().stamp()) % 0x1_0000_0000_0000_0000
    }
}

/// How many panes are listed.
pub open spec fn rows_before(list: Seq<Multiplexer>) -> nat
    decreases list.len(),
{
    if list.len() == 0 {
        0
    } else {
        rows_before(list.drop_last()) + flat(list.last().sides()).len()
    }
}

/// The first multiplexer that may answer and lists the pane.
pub open spec fn locating(
    list: Seq<Multiplexer>,
    only: Option<MultiplexerKind>,
    side: SideView,
    terminal_id: Seq<char>,
) -> Option<int>
    decreases list.len(),
{
    if list.len() == 0 {
        None
    } else {
        match locating(list.drop_last(), only, side, terminal_id) {
            Some(at) => Some(at),
            None => if list.last().is_enabled() && (only is None || only == Some(list.last().spec_kind()))
                && list.last().listed_pane(side, terminal_id) is Some {
                Some(list.len() - 1)
            } else {
                None
            },
        }
    }
}

/// Directories of every multiplexer's panes, viewed.
pub open spec fn all_directories(list: Seq<Vec<Option<String>>>) -> Seq<Seq<Option<Seq<char>>>> {
    list.map_values(|d: Vec<Option<String>>| opt_texts_of(d@))
}

/// The rows every multiplexer that is switched on draws, in order.
pub open spec fn all_drawn(
    list: Seq<Multiplexer>,
    claimed: Seq<PaneKeyView>,
    workspaces: Seq<Seq<char>>,
    directories: Seq<Seq<Option<Seq<char>>>>,
    platform: Platform,
) -> Seq<ListedView>
    decreases list.len(),
{
    if list.len() == 0 {
        Seq::empty()
    } else {
        let front = all_drawn(list.drop_last(), claimed, workspaces, directories, platform);
        if list.last().is_enabled() {
            front + list.last().drawn(claimed, workspaces, directories[list.len() - 1], platform)
        } else {
            front
        }
    }
}

/// Which multiplexer a request names.
pub open spec fn request_of(list: Seq<Multiplexer>, name: Option<Seq<char>>) -> Result<
    Option<MultiplexerKind>,
    Seq<char>,
> {
    match name {
        None => if enabled_place(list) is Some {
            Ok(None)
        } else {
            Err(ALL_DISABLED@)
        },
        Some(name) => match named_kind(name) {
            Some(kind) if is_real(kind) => if list[kind_place(list, kind)->0].is_enabled() {
                Ok(Some(kind))
            } else {
                Err("`"@ + kind_name(kind) + "` is disabled"@)
            },
            _ => Err("`"@ + name + "` is not a multiplexer, expected `herdr` or `zellij`"@),
        },
    }
}

impl Multiplexers {
    /// Every kind that fronts a server is in the set.
    pub open spec fn complete(self) -> bool {
        forall|kind: MultiplexerKind| #[trigger] is_real(kind) ==> kind_place(self.list@, kind) is Some
    }

    /// One of each kind that fronts a server, in the order they are polled and
    /// drawn in.
    pub fn new(herdr: Herdr, zellij: Zellij) -> (r: Self)
        ensures
            r.list@ == seq![Multiplexer::Herdr(herdr), Multiplexer::Zellij(zellij)],
            r.complete(),
    {
        let mut list: Vec<Multiplexer> = Vec::new();
        list.push(Multiplexer::Herdr(herdr));
        list.push(Multiplexer::Zellij(zellij));
        assert forall|kind: MultiplexerKind| #[trigger] is_real(kind) implies kind_place(list@, kind) is Some by {
            kind_place_is_first(list@, kind);
            assert(list@[0].spec_kind() == MultiplexerKind::Herdr);
            assert(list@[1].spec_kind() == MultiplexerKind::Zellij);
        }
        Multiplexers { list }
    }

    /// Adds the scripted multiplexer, where the set has none.
    pub fn script(&mut self)
        ensures
            kind_place(final(self).list@, MultiplexerKind::Scripted) is Some,
            kind_place(old(self).list@, MultiplexerKind::Scripted) is Some ==> *final(self) == *old(self),
            kind_place(old(self).list@, MultiplexerKind::Scripted) is None ==> final(self).list@.len()
                == old(self).list@.len() + 1 && final(self).list@.drop_last() == old(self).list@
                && final(self).list@.last() is Scripted && final(self).list@.last()->Scripted_0.is_blank(),
    {
        if self.position(MultiplexerKind::Scripted).is_none() {
            let ghost before = self.list@;
            self.list.push(Multiplexer::Scripted(Scripted::new()));
            assert(self.list@.drop_last() =~= before);
        }
    }

    /// How many multiplexers there are.
    pub fn len(&self) -> (r: usize)
        ensures
            r == self.list@.len(),
    {
        self.list.len()
    }

    /// The kind held at a place.
    pub fn kind_at(&self, at: usize) -> (r: MultiplexerKind)
        requires
            at < self.list@.len(),
        ensures
            r == self.list@[at as int].spec_kind(),
    {
        self.list[at].kind()
    }

    /// Where the multiplexer of a kind stands.
    pub fn position(&self, kind: MultiplexerKind) -> (r: Option<usize>)
        ensures
            (match r {
                Some(at) => Some(at as int),
                None => None,
            }) == kind_place(self.list@, kind),
            r matches Some(at) ==> at < self.list@.len(),
    {
        let mut i: usize = 0;
        while i < self.list.len()
            invariant
                i <= self.list@.len(),
                forall|k: int| 0 <= k < i ==> (#[trigger] self.list@[k]).spec_kind() != kind,
            decreases self.list@.len() - i,
        {
            if self.list[i].kind() == kind {
                proof {
                    kind_place_is_first(self.list@, kind);
                    let at = kind_place(self.list@, kind);
                    if at is Some && at->0 < i {
                        assert(self.list@[at->0].spec_kind() != kind);
                    }
                }
                return Some(i);
            }
            i += 1;
        }
        proof {
            kind_place_is_first(self.list@, kind);
        }
        None
    }

    /// The multiplexer of a kind.
    pub fn get(&self, kind: MultiplexerKind) -> (r: &Multiplexer)
        requires
            kind_place(self.list@, kind) is Some,
        ensures
            *r == self.list@[kind_place(self.list@, kind)->0],
            r.spec_kind() == kind,
    {
        proof {
            kind_place_is_first(self.list@, kind);
        }
        match self.position(kind) {
            Some(at) => &self.list[at],
            None => &self.list[0],
        }
    }

    /// The multiplexer of a kind, to change.
    pub fn get_mut(&mut self, kind: MultiplexerKind) -> (r: &mut Multiplexer)
        requires
            kind_place(old(self).list@, kind) is Some,
        ensures
            *r == old(self).list@[kind_place(old(self).list@, kind)->0],
            r.spec_kind() == kind,
            final(self).list@ == old(self).list@.update(kind_place(old(self).list@, kind)->0, *final(r)),
    {
        proof {
            kind_place_is_first(self.list@, kind);
        }
        let at = match self.position(kind) {
            Some(at) => at,
            None => 0,
        };
        &mut self.list[at]
    }

    /// Whether any multiplexer is switched on.
    pub fn any_enabled(&self) -> (r: bool)
        ensures
            r == (enabled_place(self.list@) is Some),
    {
        self.default_enabled().is_some()
    }

    /// The multiplexer a request naming none goes to: the first one enabled.
    pub fn default_enabled(&self) -> (r: Option<&Multiplexer>)
        ensures
            (match r {
                Some(m) => Some(*m),
                None => None,
            }) == (match enabled_place(self.list@) {
                Some(at) => Some(self.list@[at]),
                None => None,
            }),
    {
        let ghost all = self.list@;
        let mut i: usize = 0;
        proof {
            assert(all.take(0) =~= Seq::<Multiplexer>::empty());
        }
        while i < self.list.len()
            invariant
                i <= self.list@.len(),
                all == self.list@,
                enabled_place(all.take(i as int)) is None,
            decreases self.list@.len() - i,
        {
            assert(all.take(i + 1).drop_last() =~= all.take(i as int));
            assert(all.take(i + 1).last() == all[i as int]);
            if self.list[i].enabled() {
                proof {
                    enabled_place_extends(all, i + 1);
                }
                return Some(&self.list[i]);
            }
            i += 1;
        }
        assert(all.take(all.len() as int) =~= all);
        None
    }

    /// The reason a request naming no multiplexer is refused while every one
    /// is off.
    pub fn disabled_reason(&self) -> (r: &'static str)
        ensures
            r@ == ALL_DISABLED@,
    {
        ALL_DISABLED
    }

    /// The multiplexer a request named, or `None` when it named none and any
    /// may answer.  A name that is no multiplexer, one that is switched off,
    /// and every one being off are all refusals.
    pub fn requested(&self, name: Option<&str>) -> (r: Result<Option<MultiplexerKind>, PaneError>)
        requires
            self.complete(),
        ensures
            (match r {
                Ok(kind) => Ok(kind),
                Err(error) => Err(pane_error_text(error)),
            }) == request_of(
                self.list@,
                match name {
                    Some(name) => Some(name@),
                    None => None,
                },
            ),
            match r {
                Err(PaneError::AllDisabled) => name is None,
                Err(PaneError::Unknown { name: given }) => name matches Some(n) && given@ == n@ && !(named_kind(n@)
                    matches Some(k) && is_real(k)),
                Err(PaneError::Disabled(kind)) => name matches Some(n) && named_kind(n@) == Some(kind)
                    && is_real(kind),
                Ok(Some(kind)) => is_real(kind),
                Ok(None) => name is None,
            },
    {
        match name {
            None => if self.any_enabled() {
                Ok(None)
            } else {
                Err(PaneError::AllDisabled)
            },
            Some(name) => match MultiplexerKind::parse(name) {
                Some(kind) if kind != MultiplexerKind::Scripted => {
                    assert(is_real(kind));
                    if self.get(kind).enabled() {
                        Ok(Some(kind))
                    } else {
                        Err(PaneError::Disabled(kind))
                    }
                },
                _ => Err(PaneError::Unknown { name: name.to_owned() }),
            },
        }
    }

    /// The pane `key` names, while its multiplexer still lists it.
    pub fn find(&self, key: &PaneKey) -> (r: Option<&Pane>)
        requires
            kind_place(self.list@, key.multiplexer) is Some,
        ensures
            (match r {
                Some(pane) => Some(*pane),
                None => None,
            }) == self.list@[kind_place(self.list@, key.multiplexer)->0].listed_pane(
                key.side@,
                key.terminal_id@,
            ),
    {
        self.get(key.multiplexer).find(&key.side, &key.terminal_id)
    }

    /// The pane a client named by side and terminal id, in the multiplexer it
    /// named or else in the first enabled one listing it.
    pub fn locate(&self, only: Option<MultiplexerKind>, side: &Side, terminal_id: &str) -> (r: Option<
        (PaneKey, &Pane),
    >)
        ensures
            match locating(self.list@, only, side@, terminal_id@) {
                Some(at) => r matches Some(hit) && hit.0@ == (PaneKeyView {
                    multiplexer: self.list@[at].spec_kind(),
                    side: side@,
                    terminal_id: terminal_id@,
                }) && Some(*hit.1) == self.list@[at].listed_pane(side@, terminal_id@),
                None => r is None,
            },
    {
        let ghost all = self.list@;
        let mut i: usize = 0;
        proof {
            assert(all.take(0) =~= Seq::<Multiplexer>::empty());
        }
        while i < self.list.len()
            invariant
                i <= self.list@.len(),
                all == self.list@,
                locating(all.take(i as int), only, side@, terminal_id@) is None,
            decreases self.list@.len() - i,
        {
            assert(all.take(i + 1).drop_last() =~= all.take(i as int));
            assert(all.take(i + 1).last() == all[i as int]);
            let m = &self.list[i];
            let asked = match only {
                Some(kind) => kind == m.kind(),
                None => true,
            };
            if m.enabled() && asked {
                if let Some(pane) = m.find(side, terminal_id) {
                    proof {
                        locating_extends(all, only, side@, terminal_id@, i + 1);
                    }
                    return Some((m.key(side, terminal_id), pane));
                }
            }
            i += 1;
        }
        assert(all.take(all.len() as int) =~= all);
        None
    }

    /// Where a pane sits across every multiplexer's listing, in poll order.
    pub fn pane_index(&self, key: &PaneKey) -> (r: Option<usize>)
        requires
            rows_before(self.list@) <= usize::MAX,
        ensures
            match kind_place(self.list@, key.multiplexer) {
                Some(at) => match self.list@[at].place(key.side@, key.terminal_id@) {
                    Some(i) => r matches Some(n) && n == rows_before(self.list@.take(at)) + i,
                    None => r is None,
                },
                None => r is None,
            },
    {
        let ghost all = self.list@;
        proof {
            kind_place_is_first(all, key.multiplexer);
            assert(all.take(0) =~= Seq::<Multiplexer>::empty());
        }
        let mut before: usize = 0;
        let mut i: usize = 0;
        while i < self.list.len()
            invariant
                i <= self.list@.len(),
                all == self.list@,
                rows_before(all) <= usize::MAX,
                before == rows_before(all.take(i as int)),
                match kind_place(all, key.multiplexer) {
                    Some(at) => i <= at < all.len() && all[at].spec_kind() == key.multiplexer && forall|k: int|
                        0 <= k < at ==> (#[trigger] all[k]).spec_kind() != key.multiplexer,
                    None => forall|k: int| 0 <= k < all.len() ==> (#[trigger] all[k]).spec_kind()
                        != key.multiplexer,
                },
            decreases self.list@.len() - i,
        {
            let m = &self.list[i];
            assert(all[i as int] == *m);
            proof {
                assert(all.take(i + 1).drop_last() =~= all.take(i as int));
                rows_before_grows(all, i + 1);
            }
            if m.kind() == key.multiplexer {
                proof {
                    a_place_is_a_row(*m, key.side@, key.terminal_id@);
                }
                return match m.pane_index(&key.side, &key.terminal_id) {
                    Some(at) => Some(before + at),
                    None => None,
                };
            }
            before = before + m.pane_count();
            i += 1;
        }
        None
    }

    /// One number standing for everything every multiplexer lists.
    pub fn generation(&self) -> (r: u64)
        ensures
            r as int == stamps(self.list@),
    {
        let ghost all = self.list@;
        let mut sum: u64 = 0;
        let mut i: usize = 0;
        proof {
            assert(all.take(0) =~= Seq::<Multiplexer>::empty());
        }
        while i < self.list.len()
            invariant
                i <= self.list@.len(),
                all == self.list@,
                sum as int == stamps(all.take(i as int)),
            decreases self.list@.len() - i,
        {
            assert(all.take(i + 1).drop_last() =~= all.take(i as int));
            assert(all.take(i + 1).last() == all[i as int]);
            let g = self.list[i].generation();
            proof {
                let s = sum as int + g as int;
                let m = 0x1_0000_0000_0000_0000int;
                if s >= m {
                    assert(s % m == s - m) by (nonlinear_arith)
                        requires
                            m <= s < 2 * m,
                            m == 0x1_0000_0000_0000_0000int,
                    ;
                } else {
                    assert(s % m == s) by (nonlinear_arith)
                        requires
                            0 <= s < m,
                    ;
                }
            }
            sum = sum.wrapping_add(g);
            i += 1;
        }
        assert(all.take(all.len() as int) =~= all);
        sum
    }

    /// Every listed pane no session holds, across the enabled multiplexers.
    /// `directories` holds, for each multiplexer, what its panes' directories
    /// are translated to.
    pub fn listed(
        &self,
        claimed: &Vec<PaneKey>,
        workspaces: &Vec<String>,
        directories: &Vec<Vec<Option<String>>>,
        platform: Platform,
    ) -> (r: Vec<ListedPane>)
        requires
            directories@.len() == self.list@.len(),
            forall|i: int|
                0 <= i < self.list@.len() ==> (#[trigger] directories@[i])@.len() == flat(self.list@[i].sides()).len(),
        ensures
            listed_views(r@) == all_drawn(
                self.list@,
                keys(claimed@),
                texts(workspaces@),
                all_directories(directories@),
                platform,
            ),
    {
        let ghost all = self.list@;
        let ghost dirs = all_directories(directories@);
        let mut out: Vec<ListedPane> = Vec::new();
        let mut i: usize = 0;
        proof {
            assert(all.take(0) =~= Seq::<Multiplexer>::empty());
            assert(listed_views(out@) =~= Seq::empty());
        }
        while i < self.list.len()
            invariant
                i <= self.list@.len(),
                all == self.list@,
                dirs == all_directories(directories@),
                directories@.len() == self.list@.len(),
                forall|k: int|
                    0 <= k < self.list@.len() ==> (#[trigger] directories@[k])@.len() == flat(
                        self.list@[k].sides(),
                    ).len(),
                listed_views(out@) == all_drawn(all.take(i as int), keys(claimed@), texts(workspaces@), dirs, platform),
            decreases self.list@.len() - i,
        {
            assert(all.take(i + 1).drop_last() =~= all.take(i as int));
            assert(all.take(i + 1).last() == all[i as int]);
            assert(dirs[i as int] == opt_texts_of(directories@[i as int]@));
            if self.list[i].enabled() {
                let mut more = self.list[i].listed(claimed, workspaces, &directories[i], platform);
                let ghost before = out@;
                let ghost added = more@;
                out.append(&mut more);
                assert(listed_views(out@) =~= listed_views(before) + listed_views(added));
            }
            i += 1;
        }
        assert(all.take(all.len() as int) =~= all);
        out
    }

    /// Hand every multiplexer the closed session, with the pane it held only
    /// to the one that owns it.  The clients waiting on an attach that closed
    /// with it come back.
    pub fn session_closed(&mut self, id: SessionId, key: Option<&PaneKey>) -> (r: Vec<u64>)
        ensures
            final(self).list@.len() == old(self).list@.len(),
            forall|i: int|
                0 <= i < old(self).list@.len() ==> told_of_close(
                    #[trigger] old(self).list@[i],
                    final(self).list@[i],
                    id,
                    owned(opt_key_ref(key), old(self).list@[i].spec_kind()),
                ),
            r@ == all_waiting(old(self).list@, opt_key_ref(key)),
    {
        let ghost before = self.list@;
        let ghost pane = opt_key_ref(key);
        let mut waiters: Vec<u64> = Vec::new();
        let mut i: usize = 0;
        proof {
            assert(before.take(0) =~= Seq::<Multiplexer>::empty());
        }
        while i < self.list.len()
            invariant
                i <= self.list@.len(),
                self.list@.len() == before.len(),
                pane == opt_key_ref(key),
                waiters@ == all_waiting(before.take(i as int), pane),
                forall|k: int|
                    0 <= k < i ==> told_of_close(
                        #[trigger] before[k],
                        self.list@[k],
                        id,
                        owned(pane, before[k].spec_kind()),
                    ),
                forall|k: int| i <= k < before.len() ==> #[trigger] self.list@[k] == before[k],
            decreases self.list@.len() - i,
        {
            assert(before.take(i + 1).drop_last() =~= before.take(i as int));
            assert(before.take(i + 1).last() == before[i as int]);
            let kind = self.list[i].kind();
            let mine = match key {
                Some(key) => if key.multiplexer == kind {
                    Some(key)
                } else {
                    None
                },
                None => None,
            };
            let mut left = close_in(&mut self.list[i], id, mine);
            waiters.append(&mut left);
            i += 1;
        }
        assert(before.take(before.len() as int) =~= before);
        waiters
    }
}

/// The pane a multiplexer is told of: its own, or none.
pub open spec fn owned(key: Option<PaneKeyView>, kind: MultiplexerKind) -> Option<PaneKeyView> {
    match key {
        Some(key) => if key.multiplexer == kind {
            Some(key)
        } else {
            None
        },
        None => None,
    }
}

/// The clients a multiplexer's own closed attach leaves waiting.
pub open spec fn waiting_in(m: Multiplexer, key: Option<PaneKeyView>) -> Seq<u64> {
    match (m, key) {
        (Multiplexer::Herdr(m), Some(key)) => waiting_on(m@.attach, key),
        _ => Seq::empty(),
    }
}

/// The clients left waiting across every multiplexer.
pub open spec fn all_waiting(list: Seq<Multiplexer>, key: Option<PaneKeyView>) -> Seq<u64>
    decreases list.len(),
{
    if list.len() == 0 {
        Seq::empty()
    } else {
        all_waiting(list.drop_last(), key) + waiting_in(list.last(), owned(key, list.last().spec_kind()))
    }
}

/// Whether one multiplexer is another after a session closed.
pub open spec fn told_of_close(
    before: Multiplexer,
    after: Multiplexer,
    id: SessionId,
    key: Option<PaneKeyView>,
) -> bool {
    match (before, after) {
        (Multiplexer::Herdr(b), Multiplexer::Herdr(a)) => a@ == b@.session_closed(id, key),
        (Multiplexer::Zellij(b), Multiplexer::Zellij(a)) => a == b,
        (Multiplexer::Scripted(b), Multiplexer::Scripted(a)) => {
            &&& a.closed@.len() == b.closed@.len() + 1
            &&& a.closed@.drop_last() == b.closed@
            &&& a.closed@.last().0 == id
            &&& (match a.closed@.last().1 {
                Some(k) => Some(k@),
                None => None,
            }) == key
            &&& a.attach_queue@ == (match key {
                Some(key) => b.attach_queue@.filter(other_than(key)),
                None => b.attach_queue@,
            })
            &&& a == (Scripted { closed: a.closed, attach_queue: a.attach_queue, ..b })
        },
        _ => false,
    }
}

fn close_in(m: &mut Multiplexer, id: SessionId, key: Option<&PaneKey>) -> (r: Vec<u64>)
    ensures
        told_of_close(
            *old(m),
            *final(m),
            id,
            opt_key_ref(key),
        ),
        r@ == waiting_in(*old(m), opt_key_ref(key)),
{
    match m {
        Multiplexer::Herdr(h) => h.session_closed(id, key),
        Multiplexer::Zellij(_) => Vec::new(),
        Multiplexer::Scripted(s) => {
            let ghost before = s.closed@;
            s.session_closed(id, key);
            assert(s.closed@.drop_last() =~= before);
            Vec::new()
        },
    }
}

proof fn enabled_place_extends(list: Seq<Multiplexer>, upto: int)
    requires
        0 <= upto <= list.len(),
        enabled_place(list.take(upto)) is Some,
    ensures
        enabled_place(list) == enabled_place(list.take(upto)),
    decreases list.len(),
{
    if upto == list.len() {
        assert(list.take(upto) =~= list);
    } else {
        let front = list.drop_last();
        assert(front.take(upto) =~= list.take(upto));
        enabled_place_extends(front, upto);
    }
}

proof fn locating_extends(
    list: Seq<Multiplexer>,
    only: Option<MultiplexerKind>,
    side: SideView,
    terminal_id: Seq<char>,
    upto: int,
)
    requires
        0 <= upto <= list.len(),
        locating(list.take(upto), only, side, terminal_id) is Some,
    ensures
        locating(list, only, side, terminal_id) == locating(list.take(upto), only, side, terminal_id),
    decreases list.len(),
{
    if upto == list.len() {
        assert(list.take(upto) =~= list);
    } else {
        let front = list.drop_last();
        assert(front.take(upto) =~= list.take(upto));
        locating_extends(front, only, side, terminal_id, upto);
    }
}

proof fn rows_before_grows(list: Seq<Multiplexer>, upto: int)
    requires
        0 <= upto <= list.len(),
    ensures
        rows_before(list.take(upto)) <= rows_before(list),
    decreases list.len(),
{
    if upto == list.len() {
        assert(list.take(upto) =~= list);
    } else {
        assert(list.drop_last().take(upto) =~= list.take(upto));
        rows_before_grows(list.drop_last(), upto);
    }
}

proof fn row_at_is_a_row(list: Seq<(SideView, Pane)>, side: SideView, terminal_id: Seq<char>)
    ensures
        row_at(list, side, terminal_id) matches Some(at) ==> 0 <= at < list.len(),
    decreases list.len(),
{
    if list.len() > 0 {
        row_at_is_a_row(list.drop_last(), side, terminal_id);
    }
}

/// A pane's place is one of the rows its multiplexer lists.
pub proof fn a_place_is_a_row(m: Multiplexer, side: SideView, terminal_id: Seq<char>)
    ensures
        m.place(side, terminal_id) matches Some(at) ==> 0 <= at < flat(m.sides()).len(),
{
    match m {
        Multiplexer::Herdr(h) => {
            if m.place(side, terminal_id) is Some {
                crate::herdr::host::an_index_points_at_its_pane(h@.caches, side, terminal_id);
            }
        },
        _ => {
            row_at_is_a_row(flat(m.sides()), side, terminal_id);
        },
    }
}

/// A request that names a multiplexer is never answered by another.
pub proof fn a_named_multiplexer_answers_alone(
    list: Seq<Multiplexer>,
    kind: MultiplexerKind,
    side: SideView,
    terminal_id: Seq<char>,
)
    ensures
        locating(list, Some(kind), side, terminal_id) matches Some(at) ==> 0 <= at < list.len()
            && list[at].spec_kind() == kind && list[at].is_enabled() && list[at].listed_pane(side, terminal_id)
            is Some,
    decreases list.len(),
{
    if list.len() > 0 {
        a_named_multiplexer_answers_alone(list.drop_last(), kind, side, terminal_id);
    }
}

} // verus!

//! A multiplexer whose answers are written down in advance.
//!
//! Nothing here runs a subprocess or watches a clock.  The listing is whatever
//! `set_panes` was handed, and each queued attach or create takes the next
//! answer pushed.

use vstd::prelude::*;

use crate::herdr::view::SessionId;
use crate::json::{object, text, text_or_null, Json};
#[allow(unused_imports)]
use crate::json::{member_trees, Tree};
use crate::multiplexer::listing::{draw_rows, find_listed, find_row, ListedPane};
#[allow(unused_imports)]
use crate::multiplexer::listing::{
    flat, listed_at, listed_at_is_first, listed_views, on_side, opt_texts_of, row_at, rows, Drawing,
};
use crate::multiplexer::model::{
    AttachAnswer, AttachRequest, CreateAnswer, CreateRequest, CreatedPane, Launch, Managed, MultiplexerKind,
    Pane, PaneKey, PaneStatus, PaneTarget,
};
#[allow(unused_imports)]
use crate::multiplexer::model::{
    keys, kind_name, merged_request, status_label, AttachRequestView, CreateRequestView, LaunchView, PaneKeyView,
    PaneTargetView, PaneView,
};
use crate::side::{Platform, Side};
#[allow(unused_imports)]
use crate::side::{side_name, SideView};
use crate::text::{concat2, concat3, join, same};
#[allow(unused_imports)]
use crate::text::{joined, opt_text, texts};

verus! {

/// An attach this adapter was asked for and has not answered yet.
#[derive(Debug, PartialEq, Eq)]
pub struct QueuedAttach {
    pub key: PaneKey,
    pub target: PaneTarget,
    pub request: AttachRequest,
}

/// A create this adapter was asked for and has not answered yet.
#[derive(Debug, PartialEq, Eq)]
pub struct QueuedCreate {
    pub side: Side,
    pub cwd: Option<String>,
    pub request: CreateRequest,
}

/// When a terminal was last reported gone.
#[derive(Debug, PartialEq, Eq)]
pub struct Departure {
    pub side: Side,
    pub terminal_id: String,
    pub at: u64,
}

/// How a row's state is coloured.
#[derive(Debug, Clone, Copy, PartialEq, Eq, Structural)]
pub enum StateTone {
    Blocked,
    Working,
    Done,
    Idle,
    Unclear,
}

/// The mark a row draws for a pane's state.
#[derive(Debug, PartialEq, Eq)]
pub struct HarnessMark {
    pub glyph: &'static str,
    pub tone: StateTone,
    pub label: &'static str,
}

/// A multiplexer that answers from a script.
#[derive(Debug, PartialEq, Eq)]
pub struct Scripted {
    pub enabled: bool,
    /// Whether opening a row attaches to the one pane or shares the whole
    /// view.
    pub direct: bool,
    /// Panes matching no workspace are listed under Home.
    pub show_unmatched: bool,
    pub generation: u64,
    pub sides: Vec<(Side, Vec<Pane>)>,
    /// Panes a session still holds after the listing stopped carrying them,
    /// which `retained` reports as no longer current.
    pub dropped: Vec<(Side, Pane)>,
    /// When a side last reported a terminal gone, newest last.
    pub gone: Vec<Departure>,
    /// The side a create naming none lands on.  `None` refuses, naming why.
    pub landing: Option<Side>,
    pub attach_queue: Vec<QueuedAttach>,
    pub attach_answers: Vec<Result<Launch, String>>,
    pub create_queue: Vec<QueuedCreate>,
    pub create_answers: Vec<Result<CreatedPane, String>>,
    /// A move the user made inside the multiplexer, handed back by the next
    /// `sync_view` and then forgotten.
    pub follow: Option<PaneKey>,
    pub refused: Vec<PaneKey>,
    /// Sessions reported closed, in the order they were reported.
    pub closed: Vec<(SessionId, Option<PaneKey>)>,
    pub attached: Vec<(SessionId, PaneKey)>,
}

/// Sides with their panes, viewed.
pub open spec fn side_rows(sides: Seq<(Side, Vec<Pane>)>) -> Seq<(SideView, Seq<Pane>)> {
    sides.map_values(|s: (Side, Vec<Pane>)| (s.0@, s.1@))
}

/// Panes with their sides viewed.
pub open spec fn placed(list: Seq<(Side, Pane)>) -> Seq<(SideView, Pane)> {
    list.map_values(|s: (Side, Pane)| (s.0@, s.1))
}

/// Departures with their texts viewed.
pub open spec fn departures(list: Seq<Departure>) -> Seq<(SideView, Seq<char>, u64)> {
    list.map_values(|d: Departure| (d.side@, d.terminal_id@, d.at))
}

/// Where the first side of that name stands.
pub open spec fn place_of(sides: Seq<(SideView, Seq<Pane>)>, side: SideView) -> Option<int>
    decreases sides.len(),
{
    if sides.len() == 0 {
        None
    } else {
        match place_of(sides.drop_last(), side) {
            Some(at) => Some(at),
            None => if sides.last().0 == side {
                Some(sides.len() - 1)
            } else {
                None
            },
        }
    }
}

/// The place found holds that side, and nothing before it does.
pub proof fn place_of_is_first(sides: Seq<(SideView, Seq<Pane>)>, side: SideView)
    ensures
        match place_of(sides, side) {
            Some(at) => 0 <= at < sides.len() && sides[at].0 == side && forall|k: int|
                0 <= k < at ==> (#[trigger] sides[k]).0 != side,
            None => forall|k: int| 0 <= k < sides.len() ==> (#[trigger] sides[k]).0 != side,
        },
    decreases sides.len(),
{
    if sides.len() > 0 {
        let front = sides.drop_last();
        place_of_is_first(front, side);
        assert forall|k: int| 0 <= k < front.len() implies front[k] == #[trigger] sides[k] by {}
    }
}

/// Where the side stands in a list of sides.
pub fn find_place(sides: &Vec<(Side, Vec<Pane>)>, side: &Side) -> (r: Option<usize>)
    ensures
        (match r {
            Some(at) => Some(at as int),
            None => None,
        }) == place_of(side_rows(sides@), side@),
        r matches Some(at) ==> at < sides@.len(),
{
    let ghost all = side_rows(sides@);
    let mut i: usize = 0;
    while i < sides.len()
        invariant
            i <= sides@.len(),
            all == side_rows(sides@),
            forall|k: int| 0 <= k < i ==> (#[trigger] all[k]).0 != side@,
        decreases sides@.len() - i,
    {
        assert(all[i as int].0 == sides@[i as int].0@);
        if sides[i].0.same_side(side) {
            proof {
                place_of_is_first(all, side@);
                let at = place_of(all, side@);
                if at is Some && at->0 < i {
                    assert(all[at->0].0 != side@);
                }
            }
            return Some(i);
        }
        i += 1;
    }
    proof {
        place_of_is_first(all, side@);
    }
    None
}

/// The pane of that side and terminal, in the first listing of the side.
pub open spec fn found_in(sides: Seq<(SideView, Seq<Pane>)>, side: SideView, terminal_id: Seq<char>) -> Option<Pane> {
    match place_of(sides, side) {
        Some(at) => match listed_at(sides[at].1, terminal_id) {
            Some(i) => Some(sides[at].1[i]),
            None => None,
        },
        None => None,
    }
}

/// The panes a side carried that its new listing does not, in order.
pub open spec fn left_out(previous: Seq<Pane>, panes: Seq<Pane>) -> Seq<Pane>
    decreases previous.len(),
{
    if previous.len() == 0 {
        Seq::empty()
    } else {
        let front = left_out(previous.drop_last(), panes);
        if listed_at(panes, previous.last().terminal_id@) is Some {
            front
        } else {
            front.push(previous.last())
        }
    }
}

/// The departures of panes left out.
pub open spec fn departing(side: SideView, left: Seq<Pane>, now: u64) -> Seq<(SideView, Seq<char>, u64)> {
    left.map_values(|pane: Pane| (side, pane.terminal_id@, now))
}

/// The panes still remembered as dropped after a side listed again.
pub open spec fn still_dropped(dropped: Seq<(SideView, Pane)>, side: SideView, panes: Seq<Pane>) -> Seq<
    (SideView, Pane),
> {
    dropped.filter(
        |row: (SideView, Pane)| row.0 != side || listed_at(panes, row.1.terminal_id@) is None,
    )
}

/// When a terminal was last reported gone.
pub open spec fn left_at(list: Seq<(SideView, Seq<char>, u64)>, side: SideView, terminal_id: Seq<char>) -> Option<u64>
    decreases list.len(),
{
    if list.len() == 0 {
        None
    } else if list.last().0 == side && list.last().1 == terminal_id {
        Some(list.last().2)
    } else {
        left_at(list.drop_last(), side, terminal_id)
    }
}

/// Where the first attach queued for a pane stands.
pub open spec fn queued_at(list: Seq<QueuedAttach>, key: PaneKeyView) -> Option<int>
    decreases list.len(),
{
    if list.len() == 0 {
        None
    } else {
        match queued_at(list.drop_last(), key) {
            Some(at) => Some(at),
            None => if list.last().key@ == key {
                Some(list.len() - 1)
            } else {
                None
            },
        }
    }
}

proof fn queued_at_is_first(list: Seq<QueuedAttach>, key: PaneKeyView)
    ensures
        match queued_at(list, key) {
            Some(at) => 0 <= at < list.len() && list[at].key@ == key && forall|k: int|
                0 <= k < at ==> (#[trigger] list[k]).key@ != key,
            None => forall|k: int| 0 <= k < list.len() ==> (#[trigger] list[k]).key@ != key,
        },
    decreases list.len(),
{
    if list.len() > 0 {
        let front = list.drop_last();
        queued_at_is_first(front, key);
        assert forall|k: int| 0 <= k < front.len() implies front[k] == #[trigger] list[k] by {}
    }
}

/// The tone of a status.
pub open spec fn tone_of(status: PaneStatus) -> StateTone {
    match status {
        PaneStatus::Blocked => StateTone::Blocked,
        PaneStatus::Working => StateTone::Working,
        PaneStatus::Done => StateTone::Done,
        PaneStatus::Idle => StateTone::Idle,
        PaneStatus::Unknown => StateTone::Unclear,
    }
}

/// The names of sides, in order.
pub open spec fn row_names(sides: Seq<(SideView, Seq<Pane>)>) -> Seq<Seq<char>> {
    sides.map_values(|s: (SideView, Seq<Pane>)| side_name(s.0))
}

impl Scripted {
    /// A scripted multiplexer that is off, lists nothing, and has nothing queued
    /// or recorded.
    pub open spec fn is_blank(self) -> bool {
        &&& !self.enabled
        &&& !self.direct
        &&& !self.show_unmatched
        &&& self.generation == 0
        &&& side_rows(self.sides@) == Seq::<(SideView, Seq<Pane>)>::empty()
        &&& self.dropped@.len() == 0
        &&& self.gone@.len() == 0
        &&& self.landing is None
        &&& self.attach_queue@.len() == 0
        &&& self.attach_answers@.len() == 0
        &&& self.create_queue@.len() == 0
        &&& self.create_answers@.len() == 0
        &&& self.follow is None
        &&& self.refused@.len() == 0
        &&& self.closed@.len() == 0
        &&& self.attached@.len() == 0
    }

    /// A script with nothing in it, switched off.
    pub fn new() -> (r: Self)
        ensures
            r.is_blank(),
    {
        let r = Scripted {
            enabled: false,
            direct: false,
            show_unmatched: false,
            generation: 0,
            sides: Vec::new(),
            dropped: Vec::new(),
            gone: Vec::new(),
            landing: None,
            attach_queue: Vec::new(),
            attach_answers: Vec::new(),
            create_queue: Vec::new(),
            create_answers: Vec::new(),
            follow: None,
            refused: Vec::new(),
            closed: Vec::new(),
            attached: Vec::new(),
        };
        assert(side_rows(r.sides@) =~= Seq::empty());
        r
    }

    /// The key of a scripted pane.
    pub fn key(side: &Side, terminal_id: &str) -> (r: PaneKey)
        ensures
            r@ == (PaneKeyView {
                multiplexer: MultiplexerKind::Scripted,
                side: side@,
                terminal_id: terminal_id@,
            }),
    {
        PaneKey {
            multiplexer: MultiplexerKind::Scripted,
            side: side.clone(),
            terminal_id: terminal_id.to_owned(),
        }
    }

    /// A pane carrying only an identity.
    pub fn pane(terminal_id: &str) -> (r: Pane)
        ensures
            r@ == (PaneView {
                terminal_id: terminal_id@,
                pane_id: "p:"@ + terminal_id@,
                tab_id: Some("t:"@ + terminal_id@),
                kind: None,
                title: None,
                status: None,
                focused: false,
                cwd: None,
                foreground_cwd: None,
            }),
    {
        Pane {
            terminal_id: terminal_id.to_owned(),
            pane_id: concat2("p:", terminal_id),
            tab_id: Some(concat2("t:", terminal_id)),
            kind: None,
            title: None,
            status: None,
            focused: false,
            cwd: None,
            foreground_cwd: None,
        }
    }

    /// Replace what `side` is listing.  Every pane the side was carrying and
    /// this listing does not is remembered as dropped, so `retained` keeps
    /// describing a pane a session still holds.
    pub fn set_panes(&mut self, side: &Side, panes: Vec<Pane>, now: u64)
        ensures
            ({
                let sides = side_rows(old(self).sides@);
                let previous = match place_of(sides, side@) {
                    Some(at) => sides[at].1,
                    None => Seq::empty(),
                };
                let left = left_out(previous, panes@);
                &&& side_rows(final(self).sides@) == (match place_of(sides, side@) {
                    Some(at) => sides.remove(at),
                    None => sides,
                }).push((side@, panes@))
                &&& placed(final(self).dropped@) == still_dropped(
                    placed(old(self).dropped@) + on_side(side@, left),
                    side@,
                    panes@,
                )
                &&& departures(final(self).gone@) == departures(old(self).gone@) + departing(side@, left, now)
                &&& final(self).generation == crate::herdr::poll::bumped(old(self).generation)
                &&& final(self).enabled == old(self).enabled
                &&& final(self).direct == old(self).direct
                &&& final(self).show_unmatched == old(self).show_unmatched
                &&& final(self).landing == old(self).landing
                &&& final(self).attach_queue == old(self).attach_queue
                &&& final(self).attach_answers == old(self).attach_answers
                &&& final(self).create_queue == old(self).create_queue
                &&& final(self).create_answers == old(self).create_answers
                &&& final(self).follow == old(self).follow
                &&& final(self).refused == old(self).refused
                &&& final(self).closed == old(self).closed
                &&& final(self).attached == old(self).attached
            }),
    {
        let ghost sides = side_rows(self.sides@);
        let ghost dropped = placed(self.dropped@);
        let ghost gone = departures(self.gone@);
        proof {
            place_of_is_first(sides, side@);
        }
        match find_place(&self.sides, side) {
            Some(at) => {
                let ghost here = self.sides@;
                let (_, previous) = self.sides.remove(at);
                assert(side_rows(self.sides@) =~= sides.remove(at as int));
                assert(previous@ == sides[at as int].1);
                drop_missing(&mut self.dropped, &mut self.gone, side, previous, &panes, now);
            },
            None => {
                assert(dropped + on_side(side@, Seq::empty()) =~= dropped);
                assert(gone + departing(side@, Seq::empty(), now) =~= gone);
            },
        }
        forget_listed(&mut self.dropped, side, &panes);
        let ghost before = self.sides@;
        let ghost listed = panes@;
        self.sides.push((side.clone(), panes));
        assert(side_rows(self.sides@) =~= side_rows(before).push((side@, listed)));
        self.generation = self.generation.wrapping_add(1);
    }

    /// Every listed pane with its side, in order.
    pub fn panes(&self) -> (r: Vec<(&Side, &Pane)>)
        ensures
            rows(r@) == flat(side_rows(self.sides@)),
    {
        flat_rows(&self.sides)
    }

    /// Where a pane stands among the rows.
    pub fn pane_index(&self, side: &Side, terminal_id: &str) -> (r: Option<usize>)
        ensures
            (match r {
                Some(at) => Some(at as int),
                None => None,
            }) == row_at(flat(side_rows(self.sides@)), side@, terminal_id@),
    {
        find_row(&self.panes(), side, terminal_id)
    }

    /// How many panes are listed.
    pub fn pane_count(&self) -> (r: usize)
        ensures
            r == flat(side_rows(self.sides@)).len(),
    {
        let list = self.panes();
        assert(rows(list@).len() == list@.len());
        list.len()
    }

    /// The pane a side lists under that terminal.
    pub fn find(&self, side: &Side, terminal_id: &str) -> (r: Option<&Pane>)
        ensures
            (match r {
                Some(pane) => Some(*pane),
                None => None,
            }) == found_in(side_rows(self.sides@), side@, terminal_id@),
    {
        find_in(&self.sides, side, terminal_id)
    }

    /// What is known of a pane a session holds, and whether it is current.
    pub fn retained(&self, side: &Side, terminal_id: &str) -> (r: Option<(&Pane, bool)>)
        ensures
            match found_in(side_rows(self.sides@), side@, terminal_id@) {
                Some(pane) => r matches Some(held) && *held.0 == pane && held.1,
                None => match row_at(placed(self.dropped@), side@, terminal_id@) {
                    Some(at) => r matches Some(held) && *held.0 == self.dropped@[at].1 && !held.1,
                    None => r is None,
                },
            },
    {
        if let Some(pane) = self.find(side, terminal_id) {
            return Some((pane, true));
        }
        let ghost all = placed(self.dropped@);
        let mut list: Vec<(&Side, &Pane)> = Vec::new();
        let mut i: usize = 0;
        while i < self.dropped.len()
            invariant
                i <= self.dropped@.len(),
                list@.len() == i,
                forall|k: int|
                    0 <= k < i ==> (#[trigger] list@[k]).0@ == self.dropped@[k].0@ && *list@[k].1
                        == self.dropped@[k].1,
            decreases self.dropped@.len() - i,
        {
            let row = &self.dropped[i];
            list.push((&row.0, &row.1));
            i += 1;
        }
        assert(rows(list@) =~= all);
        match find_row(&list, side, terminal_id) {
            Some(at) => Some((&self.dropped[at].1, false)),
            None => None,
        }
    }

    /// Every listed pane no session holds.  `directories` gives, in the order
    /// of `panes` and for each pane in a distro, the path Windows sees its
    /// directory under.
    pub fn listed(
        &self,
        claimed: &Vec<PaneKey>,
        workspaces: &Vec<String>,
        directories: &Vec<Option<String>>,
        platform: Platform,
    ) -> (r: Vec<ListedPane>)
        requires
            directories@.len() == flat(side_rows(self.sides@)).len(),
        ensures
            listed_views(r@) == (if self.enabled {
                (Drawing {
                    kind: MultiplexerKind::Scripted,
                    claimed: keys(claimed@),
                    workspaces: texts(workspaces@),
                    platform,
                    show_unmatched: self.show_unmatched,
                }).rows(flat(side_rows(self.sides@)), opt_texts_of(directories@))
            } else {
                Seq::empty()
            }),
    {
        if !self.enabled {
            let none: Vec<ListedPane> = Vec::new();
            assert(listed_views(none@) =~= Seq::empty());
            return none;
        }
        let list = self.panes();
        assert(rows(list@).len() == list@.len());
        draw_rows(
            &list,
            directories,
            MultiplexerKind::Scripted,
            claimed,
            workspaces,
            platform,
            self.show_unmatched,
        )
    }

    /// The side a create naming none happens on.
    pub fn default_side(&self) -> (r: Result<Side, String>)
        ensures
            match self.landing {
                Some(side) => r matches Ok(s) && s == side,
                None => r matches Err(message) && message@ == (if self.sides@.len() == 0 {
                    "no scripted server is running; start one, or name a side"@
                } else {
                    "no scripted server is focused and "@ + joined(
                        row_names(side_rows(self.sides@)),
                        " and "@,
                    ) + " are running one; name a side"@
                }),
            },
    {
        if let Some(side) = &self.landing {
            return Ok(side.clone());
        }
        if self.sides.len() == 0 {
            return Err("no scripted server is running; start one, or name a side".to_owned());
        }
        let mut names: Vec<String> = Vec::new();
        let mut i: usize = 0;
        while i < self.sides.len()
            invariant
                i <= self.sides@.len(),
                names@.len() == i,
                forall|k: int| 0 <= k < i ==> (#[trigger] names@[k])@ == side_name(self.sides@[k].0@),
            decreases self.sides@.len() - i,
        {
            names.push(self.sides[i].0.name());
            i += 1;
        }
        assert(texts(names@) =~= row_names(side_rows(self.sides@)));
        Err(
            concat3(
                "no scripted server is focused and ",
                join(&names, " and ").as_str(),
                " are running one; name a side",
            ),
        )
    }

    /// When a terminal bound before was last reported gone.
    pub fn gone_since(&self, side: &Side, terminal_id: &str, bound_at: u64) -> (r: Option<u64>)
        ensures
            r == (match left_at(departures(self.gone@), side@, terminal_id@) {
                Some(at) if at > bound_at => Some(at),
                _ => None,
            }),
    {
        let ghost all = departures(self.gone@);
        let mut i: usize = self.gone.len();
        proof {
            assert(all.take(all.len() as int) =~= all);
        }
        while i > 0
            invariant
                i <= self.gone@.len(),
                all == departures(self.gone@),
                left_at(all, side@, terminal_id@) == left_at(all.take(i as int), side@, terminal_id@),
            decreases i,
        {
            i -= 1;
            assert(all.take(i + 1).drop_last() =~= all.take(i as int));
            assert(all.take(i + 1).last() == all[i as int]);
            let d = &self.gone[i];
            if d.side.same_side(side) && same(&d.terminal_id, terminal_id) {
                return if d.at > bound_at {
                    Some(d.at)
                } else {
                    None
                };
            }
        }
        assert(all.take(0) =~= Seq::empty());
        None
    }

    /// What a client is told about a pane.
    pub fn pane_json(&self, side: &Side, terminal_id: &str, pane: Option<&Pane>) -> (r: Json)
        ensures
            r@ == Tree::Object(
                scripted_members(
                    side@,
                    terminal_id@,
                    match pane {
                        Some(pane) => Some(pane@),
                        None => None,
                    },
                ),
            ),
    {
        let (pane_id, tab_id) = match pane {
            Some(pane) => (Some(pane.pane_id.clone()), pane.tab_id.clone()),
            None => (None, None),
        };
        let mut members: Vec<(String, Json)> = Vec::new();
        members.push(("name".to_owned(), text(MultiplexerKind::Scripted.name())));
        members.push(("side".to_owned(), text(side.name().as_str())));
        members.push(("terminal_id".to_owned(), text(terminal_id)));
        members.push(("pane_id".to_owned(), text_or_null(&pane_id)));
        members.push(("tab_id".to_owned(), text_or_null(&tab_id)));
        let ghost view = match pane {
            Some(pane) => Some(pane@),
            None => None,
        };
        assert(member_trees(members@) =~= scripted_members(side@, terminal_id@, view));
        object(members)
    }

    /// How a row describes a pane.
    pub fn managed(&self, pane: Option<&Pane>) -> (r: Managed)
        ensures
            r.multiplexer == MultiplexerKind::Scripted,
            r.detach is None,
            r.shared_view == !self.direct,
            match pane {
                Some(pane) => opt_text(r.kind) == opt_text(pane.kind) && opt_text(r.title) == opt_text(pane.title)
                    && r.status == pane.status,
                None => r.kind is None && r.title is None && r.status is None,
            },
    {
        let (kind, title, status) = match pane {
            Some(pane) => (pane.kind.clone(), pane.title.clone(), pane.status),
            None => (None, None, None),
        };
        Managed {
            multiplexer: MultiplexerKind::Scripted,
            detach: None,
            shared_view: !self.direct,
            kind,
            title,
            status,
        }
    }

    /// The mark of a status.
    pub fn mark(&self, status: PaneStatus) -> (r: HarnessMark)
        ensures
            r.glyph@ == "*"@,
            r.tone == tone_of(status),
            r.label@ == status_label(status),
    {
        let tone = match status {
            PaneStatus::Blocked => StateTone::Blocked,
            PaneStatus::Working => StateTone::Working,
            PaneStatus::Done => StateTone::Done,
            PaneStatus::Idle => StateTone::Idle,
            PaneStatus::Unknown => StateTone::Unclear,
        };
        HarnessMark { glyph: "*", tone, label: status.label() }
    }

    /// Whether a pane can be handed over on its own.
    pub fn attaches_directly(&self) -> (r: bool)
        ensures
            r == self.direct,
    {
        self.direct
    }

    /// The command that opens a pane on its own.
    pub fn open_directly(&self, target: &PaneTarget) -> (r: Option<Launch>)
        ensures
            r is Some <==> self.direct,
            r matches Some(launch) ==> launch@ == (LaunchView {
                program: "scripted"@,
                argv: seq!["open"@, target.pane_id@],
            }),
    {
        if self.direct {
            Some(scripted_launch("open", &target.pane_id))
        } else {
            None
        }
    }

    /// The command that shares the whole view.
    pub fn shared_view(&self, key: &PaneKey) -> (r: Option<Launch>)
        ensures
            r is Some <==> !self.direct,
            r matches Some(launch) ==> launch@ == (LaunchView {
                program: "scripted"@,
                argv: seq!["view"@, key.terminal_id@],
            }),
    {
        if self.direct {
            None
        } else {
            Some(scripted_launch("view", &key.terminal_id))
        }
    }

    /// Queues an attach, or joins the one queued for the pane.
    pub fn queue_attach(&mut self, key: PaneKey, target: PaneTarget, request: AttachRequest)
        ensures
            match queued_at(old(self).attach_queue@, key@) {
                Some(at) => {
                    &&& final(self).attach_queue@.len() == old(self).attach_queue@.len()
                    &&& forall|i: int|
                        0 <= i < old(self).attach_queue@.len() && i != at ==> #[trigger] final(self).attach_queue@[i]
                            == old(self).attach_queue@[i]
                    &&& final(self).attach_queue@[at].key == old(self).attach_queue@[at].key
                    &&& final(self).attach_queue@[at].target == old(self).attach_queue@[at].target
                    &&& final(self).attach_queue@[at].request@ == merged_request(
                        old(self).attach_queue@[at].request@,
                        request@,
                    )
                },
                None => final(self).attach_queue@ == old(self).attach_queue@.push(
                    QueuedAttach { key, target, request },
                ),
            },
            *final(self) == (Scripted { attach_queue: final(self).attach_queue, ..*old(self) }),
    {
        let ghost before = self.attach_queue@;
        let mut i: usize = 0;
        while i < self.attach_queue.len()
            invariant
                i <= self.attach_queue@.len(),
                *self == *old(self),
                forall|k: int| 0 <= k < i ==> (#[trigger] self.attach_queue@[k]).key@ != key@,
            decreases self.attach_queue@.len() - i,
        {
            if self.attach_queue[i].key.same_key(&key) {
                proof {
                    queued_at_is_first(self.attach_queue@, key@);
                    let at = queued_at(self.attach_queue@, key@);
                    if at is Some && at->0 < i {
                        assert(self.attach_queue@[at->0].key@ != key@);
                    }
                }
                self.attach_queue[i].request.merge(request);
                return;
            }
            i += 1;
        }
        proof {
            queued_at_is_first(self.attach_queue@, key@);
        }
        self.attach_queue.push(QueuedAttach { key, target, request });
    }

    /// One at a time, in the order they were queued, each taking the next
    /// scripted answer.  A queue with no answer left is still pending, which
    /// is how an attach is held open.
    pub fn poll_attach(&mut self) -> (r: (Option<AttachAnswer>, bool))
        ensures
            old(self).attach_queue@.len() == 0 ==> r.0 is None && !r.1 && *final(self) == *old(self),
            old(self).attach_queue@.len() > 0 && old(self).attach_answers@.len() == 0 ==> r.0 is None && r.1
                && *final(self) == *old(self),
            old(self).attach_queue@.len() > 0 && old(self).attach_answers@.len() > 0 ==> {
                &&& r.0 == Some(
                    AttachAnswer {
                        key: old(self).attach_queue@[0].key,
                        request: old(self).attach_queue@[0].request,
                        launch: old(self).attach_answers@[0],
                    },
                )
                &&& !r.1
                &&& final(self).attach_queue@ == old(self).attach_queue@.drop_first()
                &&& final(self).attach_answers@ == old(self).attach_answers@.drop_first()
                &&& *final(self) == (Scripted {
                    attach_queue: final(self).attach_queue,
                    attach_answers: final(self).attach_answers,
                    ..*old(self)
                })
            },
    {
        if self.attach_queue.len() == 0 {
            return (None, false);
        }
        if self.attach_answers.len() == 0 {
            return (None, true);
        }
        let launch = self.attach_answers.remove(0);
        let queued = self.attach_queue.remove(0);
        assert(self.attach_queue@ =~= old(self).attach_queue@.drop_first());
        assert(self.attach_answers@ =~= old(self).attach_answers@.drop_first());
        (Some(AttachAnswer { key: queued.key, request: queued.request, launch }), false)
    }

    /// Queues a create.
    pub fn queue_create(&mut self, side: Side, cwd: Option<String>, request: CreateRequest)
        ensures
            final(self).create_queue@ == old(self).create_queue@.push(QueuedCreate { side, cwd, request }),
            *final(self) == (Scripted { create_queue: final(self).create_queue, ..*old(self) }),
    {
        self.create_queue.push(QueuedCreate { side, cwd, request });
    }

    /// Answers the create at the head of the line with the next scripted
    /// answer, where there is one.
    pub fn poll_create(&mut self) -> (r: Option<CreateAnswer>)
        ensures
            old(self).create_queue@.len() == 0 || old(self).create_answers@.len() == 0 ==> r is None
                && *final(self) == *old(self),
            old(self).create_queue@.len() > 0 && old(self).create_answers@.len() > 0 ==> {
                &&& r == Some(
                    CreateAnswer {
                        side: old(self).create_queue@[0].side,
                        request: old(self).create_queue@[0].request,
                        pane: old(self).create_answers@[0],
                    },
                )
                &&& final(self).create_queue@ == old(self).create_queue@.drop_first()
                &&& final(self).create_answers@ == old(self).create_answers@.drop_first()
                &&& *final(self) == (Scripted {
                    create_queue: final(self).create_queue,
                    create_answers: final(self).create_answers,
                    ..*old(self)
                })
            },
    {
        if self.create_queue.len() == 0 || self.create_answers.len() == 0 {
            return None;
        }
        let pane = self.create_answers.remove(0);
        let queued = self.create_queue.remove(0);
        assert(self.create_queue@ =~= old(self).create_queue@.drop_first());
        assert(self.create_answers@ =~= old(self).create_answers@.drop_first());
        Some(CreateAnswer { side: queued.side, request: queued.request, pane })
    }

    /// Hands back whatever move was last proposed, once, and whether it calls
    /// for a repaint.
    pub fn sync_view(&mut self) -> (r: (Option<PaneKey>, bool))
        ensures
            r.0 == old(self).follow,
            r.1 == (old(self).follow is Some),
            *final(self) == (Scripted { follow: None, ..*old(self) }),
    {
        let mut follow: Option<PaneKey> = None;
        std::mem::swap(&mut follow, &mut self.follow);
        let moved = follow.is_some();
        (follow, moved)
    }

    /// A session has come to show the pane.
    pub fn view_attached(&mut self, id: SessionId, key: &PaneKey)
        ensures
            final(self).attached@ == old(self).attached@.push((id, *key)),
            *final(self) == (Scripted { attached: final(self).attached, ..*old(self) }),
    {
        self.attached.push((id, key.clone()));
    }

    /// The app would not move to the pane.
    pub fn view_refused(&mut self, key: &PaneKey)
        ensures
            final(self).refused@ == old(self).refused@.push(*key),
            *final(self) == (Scripted { refused: final(self).refused, ..*old(self) }),
    {
        self.refused.push(key.clone());
    }

    /// A session has closed, and with it any attach queued for its pane.
    pub fn session_closed(&mut self, id: SessionId, key: Option<&PaneKey>)
        ensures
            final(self).closed@ == old(self).closed@.push(
                (
                    id,
                    match key {
                        Some(key) => Some(*key),
                        None => None,
                    },
                ),
            ),
            final(self).attach_queue@ == (match key {
                Some(key) => old(self).attach_queue@.filter(other_than(key@)),
                None => old(self).attach_queue@,
            }),
            *final(self) == (Scripted {
                closed: final(self).closed,
                attach_queue: final(self).attach_queue,
                ..*old(self)
            }),
    {
        match key {
            None => {
                self.closed.push((id, None));
            },
            Some(key) => {
                self.closed.push((id, Some(key.clone())));
                let mut list: Vec<QueuedAttach> = Vec::new();
                std::mem::swap(&mut list, &mut self.attach_queue);
                self.attach_queue = without_pane(list, key);
            },
        }
    }
}

/// Attaches for another pane than this one.
pub open spec fn other_than(key: PaneKeyView) -> spec_fn(QueuedAttach) -> bool {
    |q: QueuedAttach| q.key@ != key
}

fn without_pane(list: Vec<QueuedAttach>, key: &PaneKey) -> (r: Vec<QueuedAttach>)
    ensures
        r@ == list@.filter(other_than(key@)),
{
    let ghost all = list@;
    let ghost keep = other_than(key@);
    let mut list = list;
    let mut out: Vec<QueuedAttach> = Vec::new();
    let ghost mut done: int = 0;
    proof {
        reveal(Seq::filter);
        assert(all.take(0) =~= Seq::<QueuedAttach>::empty());
        assert(all.skip(0) =~= all);
    }
    while list.len() > 0
        invariant
            0 <= done <= all.len(),
            list@ == all.skip(done),
            keep == other_than(key@),
            out@ == all.take(done).filter(keep),
        decreases list@.len(),
    {
        let queued = list.remove(0);
        proof {
            reveal(Seq::filter);
            assert(queued == all[done]);
            assert(all.take(done + 1).drop_last() =~= all.take(done));
            assert(all.take(done + 1).last() == queued);
            assert(all.skip(done).remove(0) =~= all.skip(done + 1));
            done = done + 1;
        }
        if !queued.key.same_key(key) {
            out.push(queued);
        }
    }
    assert(all.take(all.len() as int) =~= all);
    out
}

fn drop_missing(
    dropped: &mut Vec<(Side, Pane)>,
    gone: &mut Vec<Departure>,
    side: &Side,
    previous: Vec<Pane>,
    panes: &Vec<Pane>,
    now: u64,
)
    ensures
        placed(final(dropped)@) == placed(old(dropped)@) + on_side(side@, left_out(previous@, panes@)),
        departures(final(gone)@) == departures(old(gone)@) + departing(side@, left_out(previous@, panes@), now),
{
    let ghost all = previous@;
    let ghost d0 = placed(dropped@);
    let ghost g0 = departures(gone@);
    let mut previous = previous;
    let ghost mut done: int = 0;
    proof {
        assert(all.take(0) =~= Seq::<Pane>::empty());
        assert(all.skip(0) =~= all);
        assert(d0 + on_side(side@, Seq::empty()) =~= d0);
        assert(g0 + departing(side@, Seq::empty(), now) =~= g0);
    }
    while previous.len() > 0
        invariant
            0 <= done <= all.len(),
            previous@ == all.skip(done),
            placed(dropped@) == d0 + on_side(side@, left_out(all.take(done), panes@)),
            departures(gone@) == g0 + departing(side@, left_out(all.take(done), panes@), now),
        decreases previous@.len(),
    {
        let ghost left = left_out(all.take(done), panes@);
        let pane = previous.remove(0);
        proof {
            assert(pane == all[done]);
            assert(all.take(done + 1).drop_last() =~= all.take(done));
            assert(all.take(done + 1).last() == pane);
            assert(all.skip(done).remove(0) =~= all.skip(done + 1));
            done = done + 1;
        }
        if find_listed(panes, &pane.terminal_id).is_none() {
            let ghost d1 = dropped@;
            let ghost g1 = gone@;
            let ghost p = pane;
            gone.push(Departure { side: side.clone(), terminal_id: pane.terminal_id.clone(), at: now });
            dropped.push((side.clone(), pane));
            proof {
                assert(placed(dropped@) =~= placed(d1).push((side@, p)));
                assert(on_side(side@, left.push(p)) =~= on_side(side@, left).push((side@, p)));
                assert(placed(dropped@) =~= d0 + on_side(side@, left.push(p)));
                assert(departures(gone@) =~= departures(g1).push((side@, p.terminal_id@, now)));
                assert(departing(side@, left.push(p), now) =~= departing(side@, left, now).push(
                    (side@, p.terminal_id@, now),
                ));
                assert(departures(gone@) =~= g0 + departing(side@, left.push(p), now));
            }
        }
    }
    assert(all.take(all.len() as int) =~= all);
}

fn forget_listed(dropped: &mut Vec<(Side, Pane)>, side: &Side, panes: &Vec<Pane>)
    ensures
        placed(final(dropped)@) == still_dropped(placed(old(dropped)@), side@, panes@),
{
    let ghost all = dropped@;
    let ghost views = placed(all);
    let ghost keep = |row: (SideView, Pane)| row.0 != side@ || listed_at(panes@, row.1.terminal_id@) is None;
    let mut out: Vec<(Side, Pane)> = Vec::new();
    let ghost mut done: int = 0;
    proof {
        reveal(Seq::filter);
        assert(views.take(0) =~= Seq::<(SideView, Pane)>::empty());
        assert(all.skip(0) =~= all);
        assert(placed(out@) =~= Seq::<(SideView, Pane)>::empty());
    }
    while dropped.len() > 0
        invariant
            0 <= done <= all.len(),
            dropped@ == all.skip(done),
            views == placed(all),
            keep == (|row: (SideView, Pane)| row.0 != side@ || listed_at(panes@, row.1.terminal_id@) is None),
            placed(out@) == views.take(done).filter(keep),
        decreases dropped@.len(),
    {
        let row = dropped.remove(0);
        let ghost before = out@;
        let ghost view = (row.0@, row.1);
        proof {
            reveal(Seq::filter);
            assert(row == all[done]);
            assert(views.take(done + 1).drop_last() =~= views.take(done));
            assert(views.take(done + 1).last() == view);
            assert(all.skip(done).remove(0) =~= all.skip(done + 1));
            done = done + 1;
        }
        if !row.0.same_side(side) || find_listed(panes, &row.1.terminal_id).is_none() {
            out.push(row);
            assert(placed(out@) =~= placed(before).push(view));
        }
    }
    assert(views.take(views.len() as int) =~= views);
    *dropped = out;
}

/// Every pane of a list of sides, with its side.
pub fn flat_rows<'a>(sides: &'a Vec<(Side, Vec<Pane>)>) -> (r: Vec<(&'a Side, &'a Pane)>)
    ensures
        rows(r@) == flat(side_rows(sides@)),
{
    let ghost all = side_rows(sides@);
    let mut out: Vec<(&Side, &Pane)> = Vec::new();
    let mut i: usize = 0;
    proof {
        assert(all.take(0) =~= Seq::<(SideView, Seq<Pane>)>::empty());
        assert(rows(out@) =~= Seq::empty());
    }
    while i < sides.len()
        invariant
            i <= sides@.len(),
            all == side_rows(sides@),
            rows(out@) == flat(all.take(i as int)),
        decreases sides@.len() - i,
    {
        let ghost upto = all.take(i + 1);
        assert(upto.drop_last() =~= all.take(i as int));
        let side = &sides[i].0;
        let panes = &sides[i].1;
        assert(upto.last() == (side@, panes@));
        let ghost base = rows(out@);
        let mut j: usize = 0;
        proof {
            assert(base + on_side(side@, panes@.take(0)) =~= base);
        }
        while j < panes.len()
            invariant
                j <= panes@.len(),
                rows(out@) == base + on_side(side@, panes@.take(j as int)),
            decreases panes@.len() - j,
        {
            let ghost before = out@;
            out.push((side, &panes[j]));
            proof {
                assert(rows(out@) =~= rows(before).push((side@, panes@[j as int])));
                assert(base + on_side(side@, panes@.take(j + 1)) =~= (base + on_side(
                    side@,
                    panes@.take(j as int),
                )).push((side@, panes@[j as int])));
            }
            j += 1;
        }
        assert(panes@.take(panes@.len() as int) =~= panes@);
        i += 1;
    }
    assert(all.take(all.len() as int) =~= all);
    out
}

/// The pane a list of sides carries under that side and terminal.
pub fn find_in<'a>(sides: &'a Vec<(Side, Vec<Pane>)>, side: &Side, terminal_id: &str) -> (r: Option<&'a Pane>)
    ensures
        (match r {
            Some(pane) => Some(*pane),
            None => None,
        }) == found_in(side_rows(sides@), side@, terminal_id@),
{
    match find_place(sides, side) {
        None => None,
        Some(at) => {
            assert(side_rows(sides@)[at as int].1 == sides@[at as int].1@);
            match find_listed(&sides[at].1, terminal_id) {
                Some(i) => Some(&sides[at].1[i]),
                None => None,
            }
        },
    }
}

fn scripted_launch(word: &str, id: &str) -> (r: Launch)
    ensures
        r@ == (LaunchView { program: "scripted"@, argv: seq![word@, id@] }),
{
    let mut argv: Vec<String> = Vec::new();
    argv.push(word.to_owned());
    argv.push(id.to_owned());
    assert(texts(argv@) =~= seq![word@, id@]);
    Launch { program: "scripted".to_owned(), argv }
}

/// What a client is told about a scripted pane.
pub open spec fn scripted_members(side: SideView, terminal_id: Seq<char>, pane: Option<PaneView>) -> Seq<
    (Seq<char>, Tree),
> {
    seq![
        ("name"@, Tree::Text(kind_name(MultiplexerKind::Scripted))),
        ("side"@, Tree::Text(side_name(side))),
        ("terminal_id"@, Tree::Text(terminal_id)),
        (
            "pane_id"@,
            match pane {
                Some(pane) => Tree::Text(pane.pane_id),
                None => Tree::Null,
            },
        ),
        (
            "tab_id"@,
            match pane {
                Some(pane) => match pane.tab_id {
                    Some(tab) => Tree::Text(tab),
                    None => Tree::Null,
                },
                None => Tree::Null,
            },
        ),
    ]
}

} // verus!

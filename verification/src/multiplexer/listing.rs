//! The panes a multiplexer lists, side by side, and which of them a row is
//! drawn for.

use vstd::prelude::*;

use crate::multiplexer::model::{MultiplexerKind, Pane, PaneKey};
#[allow(unused_imports)]
use crate::multiplexer::model::{keys, pane_workspace, PaneKeyView};
use crate::side::{Platform, Side};
#[allow(unused_imports)]
use crate::side::SideView;
use crate::text::same;
#[allow(unused_imports)]
use crate::text::{opt_text, texts};

verus! {

/// Every pane of every side, in listing order.
pub open spec fn flat(sides: Seq<(SideView, Seq<Pane>)>) -> Seq<(SideView, Pane)>
    decreases sides.len(),
{
    if sides.len() == 0 {
        Seq::empty()
    } else {
        flat(sides.drop_last()) + on_side(sides.last().0, sides.last().1)
    }
}

/// Panes with the side they are on.
pub open spec fn on_side(side: SideView, panes: Seq<Pane>) -> Seq<(SideView, Pane)> {
    panes.map_values(|pane: Pane| (side, pane))
}

/// Borrowed rows with their sides viewed.
pub open spec fn rows(list: Seq<(&Side, &Pane)>) -> Seq<(SideView, Pane)> {
    list.map_values(|row: (&Side, &Pane)| (row.0@, *row.1))
}

/// Where the first pane with that terminal stands.
pub open spec fn listed_at(list: Seq<Pane>, terminal_id: Seq<char>) -> Option<int>
    decreases list.len(),
{
    if list.len() == 0 {
        None
    } else {
        match listed_at(list.drop_last(), terminal_id) {
            Some(at) => Some(at),
            None => if list.last().terminal_id@ == terminal_id {
                Some(list.len() - 1)
            } else {
                None
            },
        }
    }
}

/// The place found holds that terminal, and nothing before it does.
pub proof fn listed_at_is_first(list: Seq<Pane>, terminal_id: Seq<char>)
    ensures
        match listed_at(list, terminal_id) {
            Some(at) => 0 <= at < list.len() && list[at].terminal_id@ == terminal_id && forall|k: int|
                0 <= k < at ==> (#[trigger] list[k]).terminal_id@ != terminal_id,
            None => forall|k: int| 0 <= k < list.len() ==> (#[trigger] list[k]).terminal_id@ != terminal_id,
        },
    decreases list.len(),
{
    if list.len() > 0 {
        let front = list.drop_last();
        listed_at_is_first(front, terminal_id);
        assert forall|k: int| 0 <= k < front.len() implies front[k] == #[trigger] list[k] by {}
    }
}

/// Where the first pane with that terminal stands in a list.
pub fn find_listed(list: &Vec<Pane>, terminal_id: &str) -> (r: Option<usize>)
    ensures
        (match r {
            Some(at) => Some(at as int),
            None => None,
        }) == listed_at(list@, terminal_id@),
        r matches Some(at) ==> at < list@.len(),
{
    let mut i: usize = 0;
    while i < list.len()
        invariant
            i <= list@.len(),
            forall|k: int| 0 <= k < i ==> (#[trigger] list@[k]).terminal_id@ != terminal_id@,
        decreases list@.len() - i,
    {
        if same(&list[i].terminal_id, terminal_id) {
            proof {
                listed_at_is_first(list@, terminal_id@);
                let found = listed_at(list@, terminal_id@);
                if found is Some && found->0 < i {
                    assert(list@[found->0].terminal_id@ != terminal_id@);
                }
            }
            return Some(i);
        }
        i += 1;
    }
    proof {
        listed_at_is_first(list@, terminal_id@);
    }
    None
}

/// Where the first row of that side and terminal stands.
pub open spec fn row_at(list: Seq<(SideView, Pane)>, side: SideView, terminal_id: Seq<char>) -> Option<int>
    decreases list.len(),
{
    if list.len() == 0 {
        None
    } else {
        match row_at(list.drop_last(), side, terminal_id) {
            Some(at) => Some(at),
            None => if list.last().0 == side && list.last().1.terminal_id@ == terminal_id {
                Some(list.len() - 1)
            } else {
                None
            },
        }
    }
}

proof fn row_at_extends(list: Seq<(SideView, Pane)>, side: SideView, terminal_id: Seq<char>, upto: int)
    requires
        0 <= upto <= list.len(),
        row_at(list.take(upto), side, terminal_id) is Some,
    ensures
        row_at(list, side, terminal_id) == row_at(list.take(upto), side, terminal_id),
    decreases list.len(),
{
    if upto == list.len() {
        assert(list.take(upto) =~= list);
    } else {
        let front = list.drop_last();
        assert(front.take(upto) =~= list.take(upto));
        row_at_extends(front, side, terminal_id, upto);
    }
}

/// Where a pane stands among rows.
pub fn find_row(list: &Vec<(&Side, &Pane)>, side: &Side, terminal_id: &str) -> (r: Option<usize>)
    ensures
        (match r {
            Some(at) => Some(at as int),
            None => None,
        }) == row_at(rows(list@), side@, terminal_id@),
        r matches Some(at) ==> at < list@.len(),
{
    let ghost all = rows(list@);
    let mut i: usize = 0;
    proof {
        assert(all.take(0) =~= Seq::<(SideView, Pane)>::empty());
    }
    while i < list.len()
        invariant
            i <= list@.len(),
            all == rows(list@),
            row_at(all.take(i as int), side@, terminal_id@) is None,
        decreases list@.len() - i,
    {
        assert(all.take(i + 1).drop_last() =~= all.take(i as int));
        assert(all.take(i + 1).last() == (list@[i as int].0@, *list@[i as int].1));
        let (at_side, pane) = list[i];
        if at_side.same_side(side) && same(&pane.terminal_id, terminal_id) {
            proof {
                row_at_extends(all, side@, terminal_id@, i + 1);
            }
            return Some(i);
        }
        i += 1;
    }
    assert(all.take(all.len() as int) =~= all);
    None
}

/// A pane a row is drawn for: the workspace it belongs to, and what it is
/// known by.
#[derive(Debug, PartialEq, Eq)]
pub struct ListedPane {
    pub workspace: Option<String>,
    pub key: PaneKey,
    pub pane: Pane,
}

/// A listed pane with its texts viewed.
pub struct ListedView {
    pub workspace: Option<Seq<char>>,
    pub key: PaneKeyView,
    pub pane: Pane,
}

/// The views of listed panes.
pub open spec fn listed_views(list: Seq<ListedPane>) -> Seq<ListedView> {
    list.map_values(
        |row: ListedPane| ListedView { workspace: opt_text(row.workspace), key: row.key@, pane: row.pane },
    )
}

/// The views of optional texts.
pub open spec fn opt_texts_of(list: Seq<Option<String>>) -> Seq<Option<Seq<char>>> {
    list.map_values(|t: Option<String>| opt_text(t))
}

/// What decides which rows are drawn.
pub struct Drawing {
    pub kind: MultiplexerKind,
    /// What sessions already hold.
    pub claimed: Seq<PaneKeyView>,
    pub workspaces: Seq<Seq<char>>,
    pub platform: Platform,
    /// Panes in no workspace are drawn too.
    pub show_unmatched: bool,
}

impl Drawing {
    /// The row of a pane, where one is drawn.
    pub open spec fn row(self, side: SideView, pane: Pane, directory: Option<Seq<char>>) -> Option<ListedView> {
        let key = PaneKeyView { multiplexer: self.kind, side, terminal_id: pane.terminal_id@ };
        let workspace = pane_workspace(side, pane@, directory, self.workspaces, self.platform);
        if self.claimed.contains(key) || (workspace is None && !self.show_unmatched) {
            None
        } else {
            Some(ListedView { workspace, key, pane })
        }
    }

    /// The rows drawn, in listing order.
    pub open spec fn rows(self, list: Seq<(SideView, Pane)>, directories: Seq<Option<Seq<char>>>) -> Seq<ListedView>
        decreases list.len(),
    {
        if list.len() == 0 {
            Seq::empty()
        } else {
            let front = self.rows(list.drop_last(), directories);
            match self.row(list.last().0, list.last().1, directories[list.len() - 1]) {
                Some(row) => front.push(row),
                None => front,
            }
        }
    }
}

/// Every listed pane no session holds.  `directories` gives, in the same order
/// and for each pane in a distro, the path Windows sees its directory under.
pub fn draw_rows(
    list: &Vec<(&Side, &Pane)>,
    directories: &Vec<Option<String>>,
    kind: MultiplexerKind,
    claimed: &Vec<PaneKey>,
    workspaces: &Vec<String>,
    platform: Platform,
    show_unmatched: bool,
) -> (r: Vec<ListedPane>)
    requires
        directories@.len() == list@.len(),
    ensures
        listed_views(r@) == (Drawing {
            kind,
            claimed: keys(claimed@),
            workspaces: texts(workspaces@),
            platform,
            show_unmatched,
        }).rows(rows(list@), opt_texts_of(directories@)),
{
    let ghost drawing = Drawing {
        kind,
        claimed: keys(claimed@),
        workspaces: texts(workspaces@),
        platform,
        show_unmatched,
    };
    let ghost all = rows(list@);
    let ghost dirs = opt_texts_of(directories@);
    let mut out: Vec<ListedPane> = Vec::new();
    let mut i: usize = 0;
    proof {
        assert(all.take(0) =~= Seq::<(SideView, Pane)>::empty());
        assert(listed_views(out@) =~= Seq::<ListedView>::empty());
    }
    while i < list.len()
        invariant
            i <= list@.len(),
            directories@.len() == list@.len(),
            all == rows(list@),
            dirs == opt_texts_of(directories@),
            drawing == (Drawing {
                kind,
                claimed: keys(claimed@),
                workspaces: texts(workspaces@),
                platform,
                show_unmatched,
            }),
            listed_views(out@) == drawing.rows(all.take(i as int), dirs),
        decreases list@.len() - i,
    {
        assert(all.take(i + 1).drop_last() =~= all.take(i as int));
        assert(all.take(i + 1).last() == (list@[i as int].0@, *list@[i as int].1));
        assert(dirs[i as int] == opt_text(directories@[i as int]));
        let (side, pane) = list[i];
        let key = PaneKey { multiplexer: kind, side: side.clone(), terminal_id: pane.terminal_id.clone() };
        if !key.is_among(claimed) {
            let directory = match &directories[i] {
                Some(d) => Some(d.as_str()),
                None => None,
            };
            let workspace = pane.workspace(side, directory, workspaces, platform);
            if workspace.is_some() || show_unmatched {
                let ghost before = out@;
                let row = ListedPane { workspace, key, pane: pane.clone() };
                out.push(row);
                assert(listed_views(out@) =~= listed_views(before).push(
                    ListedView { workspace: opt_text(row.workspace), key: row.key@, pane: row.pane },
                ));
            }
        }
        i += 1;
    }
    assert(all.take(all.len() as int) =~= all);
    out
}

/// A pane a session holds is never drawn a second row.
pub proof fn a_claimed_pane_gets_no_row(
    drawing: Drawing,
    list: Seq<(SideView, Pane)>,
    directories: Seq<Option<Seq<char>>>,
    key: PaneKeyView,
)
    requires
        drawing.claimed.contains(key),
    ensures
        forall|i: int|
            0 <= i < drawing.rows(list, directories).len() ==> (#[trigger] drawing.rows(list, directories)[i]).key
                != key,
    decreases list.len(),
{
    if list.len() > 0 {
        a_claimed_pane_gets_no_row(drawing, list.drop_last(), directories, key);
    }
}

} // verus!

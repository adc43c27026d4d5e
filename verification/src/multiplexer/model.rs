//! What a pane is that some multiplexer owns, in terms every multiplexer
//! answers in.

use vstd::prelude::*;

use crate::paths::deepest_workspace;
#[allow(unused_imports)]
use crate::paths::workspace_of;
use crate::side::{Platform, Side};
#[allow(unused_imports)]
use crate::side::SideView;
use crate::text::{blank, concat3, same};
#[allow(unused_imports)]
use crate::text::{is_blank, opt_slice, opt_text, texts};

verus! {

/// Which multiplexer a pane belongs to.
#[derive(Debug, Clone, Copy, PartialEq, Eq, Hash, Structural)]
pub enum MultiplexerKind {
    Herdr,
    Zellij,
    /// Answers from a script instead of a server.
    Scripted,
}

/// The lower-case word a multiplexer is named by.
pub open spec fn kind_name(kind: MultiplexerKind) -> Seq<char> {
    match kind {
        MultiplexerKind::Herdr => "herdr"@,
        MultiplexerKind::Zellij => "zellij"@,
        MultiplexerKind::Scripted => "scripted"@,
    }
}

/// The kind a word names, when it names one.
pub open spec fn named_kind(name: Seq<char>) -> Option<MultiplexerKind> {
    if name == "herdr"@ {
        Some(MultiplexerKind::Herdr)
    } else if name == "zellij"@ {
        Some(MultiplexerKind::Zellij)
    } else if name == "scripted"@ {
        Some(MultiplexerKind::Scripted)
    } else {
        None
    }
}

/// The kinds that front a server.
pub open spec fn is_real(kind: MultiplexerKind) -> bool {
    kind != MultiplexerKind::Scripted
}

/// A multiplexer reads back from the name it spells.
pub proof fn a_kind_reads_back(kind: MultiplexerKind)
    ensures
        named_kind(kind_name(kind)) == Some(kind),
{
    reveal_strlit("herdr");
    reveal_strlit("zellij");
    reveal_strlit("scripted");
    assert("herdr"@[0] == 'h' && "zellij"@[0] == 'z' && "scripted"@[0] == 's');
}

impl MultiplexerKind {
    /// The word a client reads off a reply and may send back.
    pub fn name(self) -> (r: &'static str)
        ensures
            r@ == kind_name(self),
    {
        match self {
            MultiplexerKind::Herdr => "herdr",
            MultiplexerKind::Zellij => "zellij",
            MultiplexerKind::Scripted => "scripted",
        }
    }

    /// Read back what `name` wrote.
    pub fn parse(name: &str) -> (r: Option<Self>)
        ensures
            r == named_kind(name@),
    {
        if same(name, "herdr") {
            Some(MultiplexerKind::Herdr)
        } else if same(name, "zellij") {
            Some(MultiplexerKind::Zellij)
        } else if same(name, "scripted") {
            Some(MultiplexerKind::Scripted)
        } else {
            None
        }
    }

    /// Every multiplexer that fronts a server, in the order they are polled
    /// and drawn in.
    pub fn served() -> (r: Vec<MultiplexerKind>)
        ensures
            r@ == seq![MultiplexerKind::Herdr, MultiplexerKind::Zellij],
            forall|kind: MultiplexerKind| r@.contains(kind) <==> is_real(kind),
    {
        let mut r: Vec<MultiplexerKind> = Vec::new();
        r.push(MultiplexerKind::Herdr);
        r.push(MultiplexerKind::Zellij);
        assert(r@[0] == MultiplexerKind::Herdr && r@[1] == MultiplexerKind::Zellij);
        r
    }
}

/// Identifies one pane across polls.  `terminal_id` is unique only within one
/// server, which is why the side and the multiplexer are part of it.
#[derive(Debug, PartialEq, Eq, Hash)]
pub struct PaneKey {
    pub multiplexer: MultiplexerKind,
    pub side: Side,
    pub terminal_id: String,
}

/// A pane key with the characters of its parts.
pub struct PaneKeyView {
    pub multiplexer: MultiplexerKind,
    pub side: SideView,
    pub terminal_id: Seq<char>,
}

impl View for PaneKey {
    type V = PaneKeyView;

    open spec fn view(&self) -> PaneKeyView {
        PaneKeyView {
            multiplexer: self.multiplexer,
            side: self.side@,
            terminal_id: self.terminal_id@,
        }
    }
}

impl Clone for PaneKey {
    fn clone(&self) -> (r: Self)
        ensures
            r == *self,
    {
        PaneKey {
            multiplexer: self.multiplexer,
            side: self.side.clone(),
            terminal_id: self.terminal_id.clone(),
        }
    }
}

/// The views of a list of keys.
pub open spec fn keys(s: Seq<PaneKey>) -> Seq<PaneKeyView> {
    s.map_values(|k: PaneKey| k@)
}

/// The view of an optional borrowed key.
pub open spec fn opt_key_ref(k: Option<&PaneKey>) -> Option<PaneKeyView> {
    match k {
        Some(key) => Some(key@),
        None => None,
    }
}

impl PaneKey {
    /// Whether two keys name the same pane.
    pub fn same_key(&self, other: &PaneKey) -> (r: bool)
        ensures
            r == (self@ == other@),
    {
        self.multiplexer == other.multiplexer && self.side.same_side(&other.side) && same(
            &self.terminal_id,
            &other.terminal_id,
        )
    }

    /// Whether the key is among `claimed`.
    pub fn is_among(&self, claimed: &Vec<PaneKey>) -> (r: bool)
        ensures
            r == keys(claimed@).contains(self@),
    {
        let mut i: usize = 0;
        while i < claimed.len()
            invariant
                i <= claimed@.len(),
                forall|k: int| 0 <= k < i ==> (#[trigger] claimed@[k])@ != self@,
            decreases claimed@.len() - i,
        {
            if claimed[i].same_key(self) {
                assert(keys(claimed@)[i as int] == self@);
                return true;
            }
            i += 1;
        }
        proof {
            if keys(claimed@).contains(self@) {
                let k = choose|k: int| 0 <= k < claimed@.len() && keys(claimed@)[k] == self@;
                assert(claimed@[k]@ == self@);
            }
        }
        false
    }
}

/// The state a multiplexer reports for the agent in a pane.  An unrecognised
/// reading maps to `Unknown` so a state added later renders as a plain row
/// instead of dropping the pane.
#[derive(Debug, Clone, Copy, PartialEq, Eq, Structural)]
pub enum PaneStatus {
    Idle,
    Working,
    Blocked,
    Done,
    Unknown,
}

impl Default for PaneStatus {
    fn default() -> (r: Self)
        ensures
            r == PaneStatus::Unknown,
    {
        PaneStatus::Unknown
    }
}

/// The word painted for a status.
pub open spec fn status_label(status: PaneStatus) -> Seq<char> {
    match status {
        PaneStatus::Idle => "idle"@,
        PaneStatus::Working => "working"@,
        PaneStatus::Blocked => "blocked"@,
        PaneStatus::Done => "done"@,
        PaneStatus::Unknown => "unknown"@,
    }
}

/// The status a word stands for: any word that names none is `Unknown`.
pub open spec fn named_status(raw: Seq<char>) -> PaneStatus {
    if raw == "idle"@ {
        PaneStatus::Idle
    } else if raw == "working"@ {
        PaneStatus::Working
    } else if raw == "blocked"@ {
        PaneStatus::Blocked
    } else if raw == "done"@ {
        PaneStatus::Done
    } else {
        PaneStatus::Unknown
    }
}

/// A status reads back from its own label.
pub proof fn a_status_reads_back(status: PaneStatus)
    ensures
        named_status(status_label(status)) == status,
{
    reveal_strlit("idle");
    reveal_strlit("working");
    reveal_strlit("blocked");
    reveal_strlit("done");
    reveal_strlit("unknown");
    assert("idle"@[0] == 'i' && "working"@[0] == 'w' && "blocked"@[0] == 'b' && "done"@[0] == 'd' && "unknown"@[0] == 'u');
}

impl PaneStatus {
    /// The status a multiplexer's word stands for.
    pub fn parse(raw: &str) -> (r: Self)
        ensures
            r == named_status(raw@),
    {
        if same(raw, "idle") {
            PaneStatus::Idle
        } else if same(raw, "working") {
            PaneStatus::Working
        } else if same(raw, "blocked") {
            PaneStatus::Blocked
        } else if same(raw, "done") {
            PaneStatus::Done
        } else {
            PaneStatus::Unknown
        }
    }

    /// Word the sidebar paints for this status.
    pub fn label(&self) -> (r: &'static str)
        ensures
            r@ == status_label(*self),
    {
        match self {
            PaneStatus::Idle => "idle",
            PaneStatus::Working => "working",
            PaneStatus::Blocked => "blocked",
            PaneStatus::Done => "done",
            PaneStatus::Unknown => "unknown",
        }
    }
}

/// A pane a session is wanted on, in the terms the multiplexer that owns it
/// uses.  `pane_id` is positional and changes when a pane moves, which is why
/// it is not the pane's identity.
#[derive(Debug, PartialEq, Eq)]
pub struct PaneTarget {
    pub side: Side,
    pub pane_id: String,
    /// The tab holding the pane, where the multiplexer reports one.
    pub tab_id: Option<String>,
    /// Whether the multiplexer reports an agent in this pane.  Some of them
    /// resolve a target through an agent registry, which holds nothing for a
    /// pane running a plain shell, so such a pane is reached another way.
    pub has_agent: bool,
}

impl Clone for PaneTarget {
    fn clone(&self) -> (r: Self)
        ensures
            r == *self,
    {
        PaneTarget {
            side: self.side.clone(),
            pane_id: self.pane_id.clone(),
            tab_id: self.tab_id.clone(),
            has_agent: self.has_agent,
        }
    }
}

/// A program and its argv, ready to be a session's shell.
#[derive(Debug, PartialEq, Eq)]
pub struct Launch {
    pub program: String,
    pub argv: Vec<String>,
}

/// A launch with the characters of its words.
pub struct LaunchView {
    pub program: Seq<char>,
    pub argv: Seq<Seq<char>>,
}

impl View for Launch {
    type V = LaunchView;

    open spec fn view(&self) -> LaunchView {
        LaunchView { program: self.program@, argv: texts(self.argv@) }
    }
}

/// A pane a multiplexer has just made.  Both ids come back because the two
/// answer different questions: `terminal_id` is the identity a session is
/// keyed on and survives the pane moving, `pane_id` is what an attach is
/// pointed at.
#[derive(Debug, PartialEq, Eq)]
pub struct CreatedPane {
    pub terminal_id: String,
    pub pane_id: String,
}

/// One pane as its multiplexer reports it.  `terminal_id` is the identity
/// because `pane_id` is positional: a pane moved between workspaces gets a new
/// one.
#[derive(Debug, PartialEq, Eq)]
pub struct Pane {
    pub terminal_id: String,
    pub pane_id: String,
    /// The tab holding this pane.  A pane with no agent in it is reached
    /// through its tab where the multiplexer resolves targets through an agent
    /// registry.
    pub tab_id: Option<String>,
    pub kind: Option<String>,
    /// The pane's title, with any decorative agent prefix already removed.
    /// Two agents of one kind in one checkout are told apart by this and
    /// nothing else.
    pub title: Option<String>,
    /// The multiplexer's word on the agent in this pane, and `None` when it
    /// found no agent in it at all.  `Some(Unknown)` is the other half of that
    /// distinction: an agent is there and it cannot be classified.
    pub status: Option<PaneStatus>,
    /// The pane the multiplexer's own window is showing.  A shared-view attach
    /// borrows that window rather than one pane, so this is what such a
    /// session has on screen.
    pub focused: bool,
    pub cwd: Option<String>,
    pub foreground_cwd: Option<String>,
}

/// A pane with the characters of its texts.
#[verifier::ext_equal]
pub struct PaneView {
    pub terminal_id: Seq<char>,
    pub pane_id: Seq<char>,
    pub tab_id: Option<Seq<char>>,
    pub kind: Option<Seq<char>>,
    pub title: Option<Seq<char>>,
    pub status: Option<PaneStatus>,
    pub focused: bool,
    pub cwd: Option<Seq<char>>,
    pub foreground_cwd: Option<Seq<char>>,
}

impl View for Pane {
    type V = PaneView;

    open spec fn view(&self) -> PaneView {
        PaneView {
            terminal_id: self.terminal_id@,
            pane_id: self.pane_id@,
            tab_id: opt_text(self.tab_id),
            kind: opt_text(self.kind),
            title: opt_text(self.title),
            status: self.status,
            focused: self.focused,
            cwd: opt_text(self.cwd),
            foreground_cwd: opt_text(self.foreground_cwd),
        }
    }
}

impl Clone for Pane {
    fn clone(&self) -> (r: Self)
        ensures
            r == *self,
    {
        Pane {
            terminal_id: self.terminal_id.clone(),
            pane_id: self.pane_id.clone(),
            tab_id: self.tab_id.clone(),
            kind: self.kind.clone(),
            title: self.title.clone(),
            status: self.status,
            focused: self.focused,
            cwd: self.cwd.clone(),
            foreground_cwd: self.foreground_cwd.clone(),
        }
    }
}

/// The views of a list of panes.
pub open spec fn panes(s: Seq<Pane>) -> Seq<PaneView> {
    s.map_values(|p: Pane| p@)
}

/// The directory a pane reports, preferring its foreground job's.
pub open spec fn reported_cwd(pane: PaneView) -> Option<Seq<char>> {
    match pane.foreground_cwd {
        Some(cwd) => Some(cwd),
        None => pane.cwd,
    }
}

/// The directory a pane is working in: its foreground job's, else its own, a
/// blank report being no report.
pub open spec fn working_directory(pane: PaneView) -> Option<Seq<char>> {
    match pane.foreground_cwd {
        Some(cwd) if !is_blank(cwd) => Some(cwd),
        _ => match pane.cwd {
            Some(cwd) if !is_blank(cwd) => Some(cwd),
            _ => None,
        },
    }
}

/// The directory a pane reports, spelled the way the workspaces are: as it is
/// on the native side, and in a distro as `translated`, the path Windows sees.
pub open spec fn located_cwd(
    side: SideView,
    pane: PaneView,
    translated: Option<Seq<char>>,
) -> Option<Seq<char>> {
    match reported_cwd(pane) {
        Some(cwd) => match side {
            SideView::Native => Some(cwd),
            SideView::Wsl(_) => translated,
        },
        None => None,
    }
}

/// Where a pane belongs: the workspace with the longest path that holds the
/// directory it reports.
pub open spec fn pane_workspace(
    side: SideView,
    pane: PaneView,
    translated: Option<Seq<char>>,
    workspaces: Seq<Seq<char>>,
    platform: Platform,
) -> Option<Seq<char>> {
    match located_cwd(side, pane, translated) {
        Some(dir) => workspace_of(dir, workspaces, platform),
        None => None,
    }
}

impl Pane {
    /// This pane in the terms a multiplexer answers about, which is every
    /// field of it that decides how the pane is reached rather than drawn.
    pub fn target(&self, side: &Side) -> (r: PaneTarget)
        ensures
            r.side == *side,
            r.pane_id == self.pane_id,
            r.tab_id == self.tab_id,
            r.has_agent == (self.status is Some),
    {
        PaneTarget {
            side: side.clone(),
            pane_id: self.pane_id.clone(),
            tab_id: self.tab_id.clone(),
            has_agent: self.status.is_some(),
        }
    }

    /// The directory the pane is working in, preferring its foreground job's.
    /// A blank report is no report.
    pub fn working_directory(&self) -> (r: Option<&str>)
        ensures
            opt_slice(r) == working_directory(self@),
    {
        if let Some(cwd) = &self.foreground_cwd {
            if !blank(cwd) {
                return Some(cwd.as_str());
            }
        }
        if let Some(cwd) = &self.cwd {
            if !blank(cwd) {
                return Some(cwd.as_str());
            }
        }
        None
    }

    /// The directory the pane reports, blank or not.
    pub fn reported_directory(&self) -> (r: Option<&str>)
        ensures
            opt_slice(r) == reported_cwd(self@),
    {
        match &self.foreground_cwd {
            Some(cwd) => Some(cwd.as_str()),
            None => match &self.cwd {
                Some(cwd) => Some(cwd.as_str()),
                None => None,
            },
        }
    }

    /// The sidebar workspace this pane is working in, by longest path prefix.
    /// `None` means it belongs under Home.  `translated` is, for a pane in a
    /// distro, the path Windows sees its reported directory under.
    pub fn workspace(
        &self,
        side: &Side,
        translated: Option<&str>,
        workspaces: &Vec<String>,
        platform: Platform,
    ) -> (r: Option<String>)
        ensures
            opt_text(r) == pane_workspace(
                side@,
                self@,
                opt_slice(translated),
                texts(workspaces@),
                platform,
            ),
    {
        let reported = match self.reported_directory() {
            Some(cwd) => cwd,
            None => return None,
        };
        match side {
            Side::Native => deepest_workspace(reported, workspaces, platform),
            Side::Wsl(_) => match translated {
                Some(cwd) => deepest_workspace(cwd, workspaces, platform),
                None => None,
            },
        }
    }
}

/// The multiplexer a pane belongs to, as a row describes it.  Named rather
/// than flagged because what a row must say (whose mark to paint, how to get
/// out, whether the attach is exclusive) varies by multiplexer rather than by
/// row.
#[derive(Debug, PartialEq, Eq)]
pub struct Managed {
    pub multiplexer: MultiplexerKind,
    /// The multiplexer's own detach chord, already rendered.  `None` when its
    /// config could not be read or binds detach to nothing, both of which are
    /// reasons to stay quiet rather than name a chord the user may not have.
    pub detach: Option<String>,
    /// The attach shares the multiplexer's whole view rather than one pane,
    /// so the row says so before a resize reveals it.
    pub shared_view: bool,
    /// The agent kind the multiplexer detected, spelled the way it invokes
    /// it.
    pub kind: Option<String>,
    /// The pane's own title, when it says something the kind does not.
    pub title: Option<String>,
    /// The agent state the multiplexer reports.  `None` when it is not
    /// reporting one: a multiplexer with no agent detection, or a pane
    /// still held open after its multiplexer stopped listing it.
    pub status: Option<PaneStatus>,
}

/// What a multiplexer calls a pane: the agent kind backquoted as the command
/// it is, and the title quoted as the words it is.
pub open spec fn pane_name(kind: Option<Seq<char>>, title: Option<Seq<char>>) -> Option<Seq<char>> {
    match (kind, title) {
        (Some(k), Some(t)) => Some("`"@ + k + "`"@ + " "@ + ("\""@ + t + "\""@)),
        (Some(k), None) => Some("`"@ + k + "`"@),
        (None, Some(t)) => Some("\""@ + t + "\""@),
        (None, None) => None,
    }
}

impl Managed {
    /// What the multiplexer calls this pane.
    pub fn pane_name(&self) -> (r: Option<String>)
        ensures
            opt_text(r) == pane_name(opt_text(self.kind), opt_text(self.title)),
    {
        match (&self.kind, &self.title) {
            (Some(kind), Some(title)) => {
                let mut r = concat3("`", kind, "`");
                r.append(" ");
                r.append(concat3("\"", title, "\"").as_str());
                Some(r)
            },
            (Some(kind), None) => Some(concat3("`", kind, "`")),
            (None, Some(title)) => Some(concat3("\"", title, "\"")),
            (None, None) => None,
        }
    }
}

/// Whether opening a pane's session brings it in front of the user.  Every
/// gesture a person makes takes focus; a script attaching in the background
/// leaves it, so the workspace on screen, each workspace's active tab and the
/// multiplexer's own focus all stay where they were.
#[derive(Clone, Copy, Debug, PartialEq, Eq, Structural)]
pub enum AttachFocus {
    Take,
    Leave,
}

impl AttachFocus {
    /// What a request that may ask for no focus asks for.
    pub open spec fn asked_for(no_focus: bool) -> Self {
        if no_focus {
            AttachFocus::Leave
        } else {
            AttachFocus::Take
        }
    }

    /// The focus a request asks for.
    pub fn requested(no_focus: bool) -> (r: Self)
        ensures
            r == AttachFocus::asked_for(no_focus),
            r == (if no_focus {
                AttachFocus::Leave
            } else {
                AttachFocus::Take
            }),
    {
        if no_focus {
            AttachFocus::Leave
        } else {
            AttachFocus::Take
        }
    }

    /// Whether the session comes to the front.
    pub fn takes(self) -> (r: bool)
        ensures
            r == (self == AttachFocus::Take),
    {
        self == AttachFocus::Take
    }
}

/// The side of an attach the app keeps: where its session opens, where a
/// refusal hands the user back to, and the clients waiting on it.  A queued
/// attach carries it unread and hands it back with the answer.  A workspace is
/// named by its path, Home by none, and a waiting client by a number.
#[derive(Debug, PartialEq, Eq)]
pub struct AttachRequest {
    pub workspace: Option<String>,
    /// Where to hand the user back when the attach fails.
    pub previous: Option<String>,
    /// Clients parked on this attach.  There is nothing to answer them with
    /// until the queued attach resolves.
    pub waiters: Vec<u64>,
    /// Taken when any request merged into this one asked for it.
    pub focus: AttachFocus,
}

/// The focus two merged requests ask for: taken when either took it.
pub open spec fn merged_focus(pending: AttachFocus, joining: AttachFocus) -> AttachFocus {
    if pending == AttachFocus::Take || joining == AttachFocus::Take {
        AttachFocus::Take
    } else {
        AttachFocus::Leave
    }
}

impl AttachRequest {
    /// Fold a second request for the same pane into this one: its clients
    /// join the wait, and the focus is taken when either asked for it.
    pub fn merge(&mut self, joining: AttachRequest)
        ensures
            final(self).waiters@ == old(self).waiters@ + joining.waiters@,
            final(self).focus == merged_focus(old(self).focus, joining.focus),
            final(self).workspace == old(self).workspace,
            final(self).previous == old(self).previous,
    {
        let mut waiters = joining.waiters;
        self.waiters.append(&mut waiters);
        if joining.focus.takes() && !self.focus.takes() {
            self.focus = joining.focus;
        }
    }
}

/// The app's side of a pane create.  One waiter, not a list: nothing merges
/// two creates, since the pane they would be merged on has no identity until
/// the multiplexer answers.
#[derive(Debug, PartialEq, Eq)]
pub struct CreateRequest {
    pub workspace: Option<String>,
    pub waiter: Option<u64>,
    pub focus: AttachFocus,
}

/// A pane target with its texts viewed.
pub struct PaneTargetView {
    pub side: SideView,
    pub pane_id: Seq<char>,
    pub tab_id: Option<Seq<char>>,
    pub has_agent: bool,
}

impl View for PaneTarget {
    type V = PaneTargetView;

    open spec fn view(&self) -> PaneTargetView {
        PaneTargetView {
            side: self.side@,
            pane_id: self.pane_id@,
            tab_id: opt_text(self.tab_id),
            has_agent: self.has_agent,
        }
    }
}

/// The target a pane makes.
pub open spec fn target_of(pane: PaneView, side: SideView) -> PaneTargetView {
    PaneTargetView { side, pane_id: pane.pane_id, tab_id: pane.tab_id, has_agent: pane.status is Some }
}

/// An attach request with its texts viewed.
pub struct AttachRequestView {
    pub workspace: Option<Seq<char>>,
    pub previous: Option<Seq<char>>,
    pub waiters: Seq<u64>,
    pub focus: AttachFocus,
}

impl View for AttachRequest {
    type V = AttachRequestView;

    open spec fn view(&self) -> AttachRequestView {
        AttachRequestView {
            workspace: opt_text(self.workspace),
            previous: opt_text(self.previous),
            waiters: self.waiters@,
            focus: self.focus,
        }
    }
}

/// A request with a second one for the same pane folded into it.
pub open spec fn merged_request(pending: AttachRequestView, joining: AttachRequestView) -> AttachRequestView {
    AttachRequestView {
        waiters: pending.waiters + joining.waiters,
        focus: merged_focus(pending.focus, joining.focus),
        ..pending
    }
}

/// A create request with its workspace viewed.
pub struct CreateRequestView {
    pub workspace: Option<Seq<char>>,
    pub waiter: Option<u64>,
    pub focus: AttachFocus,
}

impl View for CreateRequest {
    type V = CreateRequestView;

    open spec fn view(&self) -> CreateRequestView {
        CreateRequestView { workspace: opt_text(self.workspace), waiter: self.waiter, focus: self.focus }
    }
}

/// What a queued attach resolved to.
#[derive(Debug, PartialEq, Eq)]
pub struct AttachAnswer {
    pub key: PaneKey,
    pub request: AttachRequest,
    pub launch: Result<Launch, String>,
}

/// What a queued create resolved to.
#[derive(Debug, PartialEq, Eq)]
pub struct CreateAnswer {
    pub side: Side,
    pub request: CreateRequest,
    pub pane: Result<CreatedPane, String>,
}

} // verus!

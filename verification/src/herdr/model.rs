//! What is read from herdr, and the pure questions asked about a pane herdr
//! lists.

use vstd::prelude::*;

use crate::multiplexer::model::{MultiplexerKind, Pane, PaneKey, PaneStatus, PaneTarget};
#[allow(unused_imports)]
use crate::multiplexer::model::{keys, pane_workspace, panes, PaneKeyView, PaneView};
use crate::side::{Platform, Side};
#[allow(unused_imports)]
use crate::side::SideView;
use crate::text::same;
#[allow(unused_imports)]
use crate::text::{opt_slice, opt_text, texts};

verus! {

/// herdr's own program.
pub const PROGRAM: &'static str = "herdr";

/// herdr's agent state is a pane status.
pub type Status = PaneStatus;

/// One pane as herdr reports it.
pub type Agent = Pane;

/// Which of herdr's two indicator sets its config selects.  Rows follow the
/// user's own choice, so a pane's mark in the sidebar is the mark it carries
/// in herdr itself.
#[derive(Debug, Clone, Copy, PartialEq, Eq, Structural)]
pub enum Indicators {
    Dots,
    Symbols,
}

impl Default for Indicators {
    fn default() -> (r: Self)
        ensures
            r == Indicators::Dots,
    {
        Indicators::Dots
    }
}

/// What is read out of herdr's config: how to leave a pane, and how herdr
/// draws the state it reports.
#[derive(Debug, PartialEq, Eq)]
pub struct Settings {
    pub detach: Option<String>,
    pub indicators: Indicators,
}

impl Default for Settings {
    fn default() -> (r: Self)
        ensures
            r.detach is None,
            r.indicators == Indicators::Dots,
    {
        Settings { detach: None, indicators: Indicators::Dots }
    }
}

impl Clone for Settings {
    fn clone(&self) -> (r: Self)
        ensures
            r == *self,
    {
        Settings { detach: self.detach.clone(), indicators: self.indicators }
    }
}

/// Whether a pane opens on its own or the whole session is shared.
#[derive(Debug, Clone, Copy, PartialEq, Eq, Structural)]
pub enum AttachMode {
    Agent,
    Session,
}

/// Which herdr listing a poll asks for.  `agent list` answers with the panes
/// herdr detected an agent in; `pane list` answers with every pane it owns,
/// a superset carrying the same fields.
#[derive(Debug, Clone, Copy, PartialEq, Eq, Structural)]
pub enum Listing {
    Agents,
    Panes,
}

impl Listing {
    /// The listing for the `show_panes` setting.
    pub open spec fn wanted_for(show_panes: bool) -> Self {
        if show_panes {
            Listing::Panes
        } else {
            Listing::Agents
        }
    }

    /// The listing that the `show_panes` setting asks for.
    pub fn wanted(show_panes: bool) -> (r: Self)
        ensures
            r == Listing::wanted_for(show_panes),
            r == (if show_panes {
                Listing::Panes
            } else {
                Listing::Agents
            }),
    {
        if show_panes {
            Listing::Panes
        } else {
            Listing::Agents
        }
    }

    /// The `herdr` subcommand that produces this listing.  A herdr too old
    /// for `pane list` answers with a usage error rather than an envelope,
    /// which a caller cannot tell from no herdr on that side at all.
    pub fn args(self) -> (r: [&'static str; 2])
        ensures
            r@[0]@ == listing_words(self)[0] && r@[1]@ == listing_words(self)[1],
            r@[0]@ == (if self == Listing::Agents {
                "agent"@
            } else {
                "pane"@
            }),
            r@[1]@ == "list"@,
    {
        match self {
            Listing::Agents => ["agent", "list"],
            Listing::Panes => ["pane", "list"],
        }
    }
}

/// Identifies one herdr agent across polls.
#[derive(Debug, PartialEq, Eq, Hash)]
pub struct HerdrKey {
    pub side: Side,
    pub terminal_id: String,
}

/// A herdr key with the characters of its terminal id.
pub struct HerdrKeyView {
    pub side: SideView,
    pub terminal_id: Seq<char>,
}

impl View for HerdrKey {
    type V = HerdrKeyView;

    open spec fn view(&self) -> HerdrKeyView {
        HerdrKeyView { side: self.side@, terminal_id: self.terminal_id@ }
    }
}

impl Clone for HerdrKey {
    fn clone(&self) -> (r: Self)
        ensures
            r == *self,
    {
        HerdrKey { side: self.side.clone(), terminal_id: self.terminal_id.clone() }
    }
}

impl HerdrKey {
    /// Whether two keys name the same agent.
    pub fn same_key(&self, other: &HerdrKey) -> (r: bool)
        ensures
            r == (self@ == other@),
    {
        self.side.same_side(&other.side) && same(&self.terminal_id, &other.terminal_id)
    }
}

/// The key a herdr pane on `side` is known by.
pub fn pane_key(side: Side, terminal_id: String) -> (r: PaneKey)
    ensures
        r.multiplexer == MultiplexerKind::Herdr,
        r.side == side,
        r.terminal_id == terminal_id,
{
    PaneKey { multiplexer: MultiplexerKind::Herdr, side, terminal_id }
}

/// The key of one of herdr's panes.
pub open spec fn herdr_key(side: SideView, pane: PaneView) -> PaneKeyView {
    PaneKeyView { multiplexer: MultiplexerKind::Herdr, side, terminal_id: pane.terminal_id }
}

/// The panes on `side` that no live session is attached to, in their order.
pub open spec fn unattached_panes(
    agents: Seq<PaneView>,
    side: SideView,
    claimed: Seq<PaneKeyView>,
) -> Seq<PaneView> {
    agents.filter(|a: PaneView| !claimed.contains(herdr_key(side, a)))
}

/// The views of a list of borrowed panes.
pub open spec fn pane_refs(s: Seq<&Pane>) -> Seq<PaneView> {
    s.map_values(|p: &Pane| p@)
}

/// The sidebar workspace an agent is working in, by longest path prefix.
/// `None` means it belongs under Home.  `translated` is, for an agent in a
/// distro, the path Windows sees its reported directory under.
pub fn match_workspace(
    agent: &Agent,
    side: &Side,
    translated: Option<&str>,
    workspaces: &Vec<String>,
    platform: Platform,
) -> (r: Option<String>)
    ensures
        opt_text(r) == pane_workspace(
            side@,
            agent@,
            opt_slice(translated),
            texts(workspaces@),
            platform,
        ),
{
    agent.workspace(side, translated, workspaces, platform)
}

/// The agents on `side` that no live session is attached to.  These are the
/// ones that get a sidebar row; an attached agent is drawn by its session
/// row instead, so each agent appears exactly once.
pub fn unattached<'a>(agents: &'a Vec<Pane>, side: &Side, claimed: &Vec<PaneKey>) -> (r: Vec<&'a Pane>)
    ensures
        pane_refs(r@) == unattached_panes(panes(agents@), side@, keys(claimed@)),
{
    let ghost all = panes(agents@);
    let ghost held = keys(claimed@);
    let ghost free = |a: PaneView| !held.contains(herdr_key(side@, a));
    let mut r: Vec<&'a Pane> = Vec::new();
    let mut i: usize = 0;
    proof {
        reveal(Seq::filter);
        assert(all.take(0) == Seq::<PaneView>::empty());
    }
    while i < agents.len()
        invariant
            i <= agents@.len(),
            all == panes(agents@),
            held == keys(claimed@),
            free == (|a: PaneView| !held.contains(herdr_key(side@, a))),
            pane_refs(r@) == all.take(i as int).filter(free),
        decreases agents@.len() - i,
    {
        let pane = &agents[i];
        let ghost before = r@;
        proof {
            reveal(Seq::filter);
            assert(all.take(i + 1).drop_last() == all.take(i as int));
            assert(all.take(i + 1).last() == pane@);
        }
        let key = pane_key(side.clone(), pane.terminal_id.clone());
        assert(key@ == herdr_key(side@, pane@));
        if !key.is_among(claimed) {
            r.push(pane);
            assert(pane_refs(r@) == pane_refs(before).push(pane@));
        }
        i += 1;
    }
    assert(all.take(all.len() as int) == all);
    assert(free =~= (|a: PaneView| !keys(claimed@).contains(herdr_key(side@, a))));
    r
}

/// The words that attach directly to one agent.
pub open spec fn attach_words(pane_id: Seq<char>) -> Seq<Seq<char>> {
    seq!["agent"@, "attach"@, pane_id]
}

/// The words that list what `listing` names.
pub open spec fn listing_words(listing: Listing) -> Seq<Seq<char>> {
    seq![
        match listing {
            Listing::Agents => "agent"@,
            Listing::Panes => "pane"@,
        },
        "list"@,
    ]
}

/// The subcommand that attaches directly to one agent.  Unsupported by a
/// native Windows herdr.
pub fn attach_args(pane_id: &str) -> (r: Vec<String>)
    ensures
        texts(r@) == attach_words(pane_id@),
        texts(r@) == seq!["agent"@, "attach"@, pane_id@],
{
    let mut r: Vec<String> = Vec::new();
    r.push("agent".to_owned());
    r.push("attach".to_owned());
    r.push(pane_id.to_owned());
    assert(texts(r@) == seq!["agent"@, "attach"@, pane_id@]);
    r
}

/// Whether direct per-agent attach works on a side.
pub open spec fn side_can_attach(side: SideView, platform: Platform) -> bool {
    side is Wsl || platform is Unix
}

/// Whether direct per-agent attach works on this side.  A native Windows
/// herdr refuses it, so there the pane is focused and the whole session
/// attached.
pub fn can_attach(side: &Side, platform: Platform) -> (r: bool)
    ensures
        r == side_can_attach(side@, platform),
{
    match side {
        Side::Native => platform == Platform::Unix,
        Side::Wsl(_) => true,
    }
}

/// Whether a row opens a pane of its own rather than the session.
pub open spec fn opens_directly(side: SideView, mode: AttachMode, has_agent: bool, platform: Platform) -> bool {
    has_agent && mode == AttachMode::Agent && side_can_attach(side, platform)
}

/// Whether a row on `side` opens the agent's own pane.  Capability and
/// preference are separate questions and only disagree in one direction: a
/// user who asks for a direct attach on a side that has none gets the
/// session, and no user can be given a direct attach they did not ask for.
///
/// `has_agent` is false for a pane herdr found no agent in.  Every `herdr
/// agent` subcommand resolves its target through the agent registry, which
/// holds nothing for such a pane, so it is only ever reachable through the
/// session.
pub fn attaches_directly(side: &Side, mode: AttachMode, has_agent: bool, platform: Platform) -> (r: bool)
    ensures
        r == opens_directly(side@, mode, has_agent, platform),
{
    has_agent && mode == AttachMode::Agent && can_attach(side, platform)
}

/// Asking for the shared view always gets it, and so does a pane with no agent
/// in it, on every side and platform.
pub proof fn a_direct_attach_is_only_given_when_asked_for(
    side: SideView,
    mode: AttachMode,
    has_agent: bool,
    platform: Platform,
)
    ensures
        opens_directly(side, mode, has_agent, platform) ==> mode == AttachMode::Agent && has_agent,
        side is Wsl && mode == AttachMode::Agent && has_agent ==> opens_directly(side, mode, has_agent, platform),
{
}

/// The words that focus a pane: its tab where herdr found no agent in it and
/// reports a tab, else the pane itself.
pub open spec fn focus_words(has_agent: bool, tab_id: Option<Seq<char>>, pane_id: Seq<char>) -> Seq<Seq<char>> {
    match tab_id {
        Some(tab) if !has_agent => seq!["tab"@, "focus"@, tab],
        _ => seq!["agent"@, "focus"@, pane_id],
    }
}

/// The `herdr` subcommand that brings `agent`'s pane to the front of the
/// user's own herdr window.  `agent focus` resolves its target through the
/// agent registry and answers `agent_not_found` for a pane with no agent in
/// it, so such a pane is reached by focusing the tab that holds it.
pub fn focus_args(agent: &Agent) -> (r: Vec<String>)
    ensures
        texts(r@) == focus_words(agent.status is Some, opt_text(agent.tab_id), agent.pane_id@),
{
    match (&agent.status, &agent.tab_id) {
        (None, Some(tab_id)) => {
            let mut r: Vec<String> = Vec::new();
            r.push("tab".to_owned());
            r.push("focus".to_owned());
            r.push(tab_id.clone());
            assert(texts(r@) == seq!["tab"@, "focus"@, tab_id@]);
            r
        },
        _ => focus_pane_args(&agent.pane_id),
    }
}

/// The same for a pane known only by what decides how it is reached.
pub fn focus_target_args(target: &PaneTarget) -> (r: Vec<String>)
    ensures
        texts(r@) == focus_words(target.has_agent, opt_text(target.tab_id), target.pane_id@),
{
    match &target.tab_id {
        Some(tab_id) if !target.has_agent => {
            let mut r: Vec<String> = Vec::new();
            r.push("tab".to_owned());
            r.push("focus".to_owned());
            r.push(tab_id.clone());
            assert(texts(r@) == seq!["tab"@, "focus"@, tab_id@]);
            r
        },
        _ => focus_pane_args(&target.pane_id),
    }
}

/// The words that focus one pane.
pub open spec fn pane_focus_words(pane_id: Seq<char>) -> Seq<Seq<char>> {
    seq!["agent"@, "focus"@, pane_id]
}

/// The `herdr` subcommand that focuses one pane by id.
pub fn focus_pane_args(pane_id: &str) -> (r: Vec<String>)
    ensures
        texts(r@) == pane_focus_words(pane_id@),
        texts(r@) == seq!["agent"@, "focus"@, pane_id@],
{
    let mut r: Vec<String> = Vec::new();
    r.push("agent".to_owned());
    r.push("focus".to_owned());
    r.push(pane_id.to_owned());
    assert(texts(r@) == seq!["agent"@, "focus"@, pane_id@]);
    r
}

/// Why a poll produced no agents.  What separates the two is whether a herdr
/// ran at all, because that is what says whether waiting can change the
/// answer.
#[derive(Debug, PartialEq, Eq)]
pub enum PollError {
    /// herdr answered in its own voice, carrying the `code` from its error
    /// envelope.  A herdr is installed here and something about this moment
    /// stopped it — most often that its server is not up yet.
    Server(String),
    /// Nothing herdr-shaped answered: no binary, no distro, or output that
    /// was not an envelope.  A property of the machine rather than the moment.
    Absent(&'static str),
}

/// A poll error with the characters of its code.
pub enum PollErrorView {
    Server(Seq<char>),
    Absent(Seq<char>),
}

impl View for PollError {
    type V = PollErrorView;

    open spec fn view(&self) -> PollErrorView {
        match self {
            PollError::Server(code) => PollErrorView::Server(code@),
            PollError::Absent(code) => PollErrorView::Absent(code@),
        }
    }
}

impl Clone for PollError {
    fn clone(&self) -> (r: Self)
        ensures
            r == *self,
    {
        match self {
            PollError::Server(code) => PollError::Server(code.clone()),
            PollError::Absent(code) => PollError::Absent(code),
        }
    }
}

/// The code of a poll error.
pub open spec fn error_code_of(error: PollErrorView) -> Seq<char> {
    match error {
        PollErrorView::Server(code) => code,
        PollErrorView::Absent(code) => code,
    }
}

impl PollError {
    /// The code herdr or the machine gave.
    pub fn code(&self) -> (r: &str)
        ensures
            r@ == error_code_of(self@),
    {
        match self {
            PollError::Server(code) => code.as_str(),
            PollError::Absent(code) => code,
        }
    }
}

/// How long an endpoint known to have a herdr waits before being retried, in
/// nanoseconds.
pub const RECOVERY_RETRY: u64 = 30_000_000_000;

/// Whether an endpoint is worth talking to.  A side with no herdr on it is
/// abandoned, so a machine with none pays one failed spawn rather than one
/// per tick; a side that has a herdr is retried forever, because starting the
/// server is the ordinary thing to do after the window is already open.
#[derive(Debug, PartialEq, Eq)]
pub struct Reach {
    ever_answered: bool,
    failing: bool,
    /// Whether the last failure was one that waiting cannot fix.
    absent: bool,
    last_error: Option<String>,
}

/// What is known of an endpoint's reach.
#[verifier::ext_equal]
pub struct ReachView {
    pub ever_answered: bool,
    pub failing: bool,
    pub absent: bool,
    pub last_error: Option<Seq<char>>,
}

impl View for Reach {
    type V = ReachView;

    closed spec fn view(&self) -> ReachView {
        ReachView {
            ever_answered: self.ever_answered,
            failing: self.failing,
            absent: self.absent,
            last_error: opt_text(self.last_error),
        }
    }
}

impl ReachView {
    /// Nothing has been asked yet.
    pub open spec fn fresh() -> Self {
        ReachView { ever_answered: false, failing: false, absent: false, last_error: None }
    }

    /// Given up on: no herdr has ever spoken from there, and the last try
    /// found none.
    pub open spec fn abandoned(self) -> bool {
        self.failing && self.absent && !self.ever_answered
    }

    /// Whether to poll again after that many nanoseconds.
    pub open spec fn should_retry(self, since_last: int) -> bool {
        !self.failing || (!self.abandoned() && since_last >= RECOVERY_RETRY)
    }

    /// After an answer.
    pub open spec fn answered(self) -> Self {
        ReachView { ever_answered: true, failing: false, absent: false, last_error: None }
    }

    /// After a failure.
    pub open spec fn failed(self, error: PollErrorView) -> Self {
        ReachView {
            ever_answered: self.ever_answered,
            failing: true,
            absent: error is Absent,
            last_error: Some(error_code_of(error)),
        }
    }

    /// A failure worth a log line: its code is not the one of the failure
    /// before it.
    pub open spec fn novel(self, error: PollErrorView) -> bool {
        self.last_error != Some(error_code_of(error))
    }
}

/// An endpoint that has answered once is never given up on, whatever fails
/// afterwards.
pub proof fn an_endpoint_that_answered_is_never_abandoned(reach: ReachView, error: PollErrorView, since: int)
    requires
        reach.ever_answered,
    ensures
        reach.failed(error).ever_answered,
        !reach.failed(error).abandoned(),
        since >= RECOVERY_RETRY ==> reach.failed(error).should_retry(since),
{
}

/// The same failure twice is worth one log line, and an answer between two
/// makes the second worth one again.
pub proof fn a_repeated_failure_is_novel_once(reach: ReachView, error: PollErrorView)
    ensures
        !reach.failed(error).novel(error),
        reach.failed(error).answered().novel(error),
{
}

impl Default for Reach {
    fn default() -> (r: Self)
        ensures
            r@ == ReachView::fresh(),
    {
        Reach { ever_answered: false, failing: false, absent: false, last_error: None }
    }
}

impl Reach {
    /// Whether to poll again, given how many nanoseconds it has been since
    /// the last try.
    pub fn should_retry(&self, since_last: u64) -> (r: bool)
        ensures
            r == self@.should_retry(since_last as int),
    {
        if !self.failing {
            return true;
        }
        !self.abandoned() && since_last >= RECOVERY_RETRY
    }

    /// Whether this endpoint has been given up on for the process lifetime:
    /// no herdr has ever spoken from it, and the last try found none there.
    pub fn abandoned(&self) -> (r: bool)
        ensures
            r == self@.abandoned(),
    {
        self.failing && self.absent && !self.ever_answered
    }

    /// Whether the last try failed.
    pub fn failing(&self) -> (r: bool)
        ensures
            r == self@.failing,
    {
        self.failing
    }

    /// Whether a herdr has ever spoken from here.
    pub fn ever_answered(&self) -> (r: bool)
        ensures
            r == self@.ever_answered,
    {
        self.ever_answered
    }

    /// Record an answer.
    pub fn record_success(&mut self)
        ensures
            final(self)@ == old(self)@.answered(),
    {
        self.ever_answered = true;
        self.failing = false;
        self.absent = false;
        self.last_error = None;
    }

    /// Records a failure, returning whether it is worth logging — a code
    /// repeating every tick is logged once, not once per poll.
    pub fn record_failure(&mut self, error: &PollError) -> (novel: bool)
        ensures
            final(self)@ == old(self)@.failed(error@),
            novel == old(self)@.novel(error@),
    {
        self.failing = true;
        self.absent = matches!(error, PollError::Absent(_));
        let novel = match &self.last_error {
            Some(last) => !same(last, error.code()),
            None => true,
        };
        self.last_error = Some(error.code().to_owned());
        novel
    }
}

} // verus!

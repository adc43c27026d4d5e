//! Where each request runs.  This is the one place that decides it: every
//! request lands in exactly one of the enums below, and each handler matches
//! only the enum it owns.

use vstd::prelude::*;

use crate::ipc::request::IpcRequest;
#[allow(unused_imports)]
use crate::ipc::request::{request_name, Asked};
#[allow(unused_imports)]
use crate::text::opt_text;

verus! {

/// Where a request runs.
#[derive(Debug, PartialEq, Eq)]
pub enum Route {
    Connection(ConnectionRequest),
    App(AppRequest),
}

/// Requests that would stall a frame (a working-tree walk, a worktree create
/// with its `git fetch`), so the connection serves them itself.
#[derive(Debug, PartialEq, Eq)]
pub enum ConnectionRequest {
    GitStatus { path: String },
    CreateWorktree { project_root: String, branch: String },
}

/// Requests that need app state, so they cross to the app.
#[derive(Debug, PartialEq, Eq)]
pub enum AppRequest {
    Deferred(DeferredRequest),
    Frame(FrameRequest),
}

/// Requests whose reply waits for work that outlives the frame they arrive in,
/// so the handler keeps the waiting client until that work lands.
#[derive(Debug, PartialEq, Eq)]
#[allow(inconsistent_fields)]
pub enum DeferredRequest {
    /// Waits for background discovery, so the reply lists the worktrees
    /// found rather than the stale list.
    RefreshProject { root: String },
    /// Waits for background discovery of the new project.
    AddProject { path: String },
    /// Waits for the PTY: a client that creates a session to write to it would
    /// otherwise be told the id before anything can receive what it writes.
    CreateSession { workspace: Option<String> },
    /// Waits for the attached session's PTY.
    AttachMultiplexerPane { multiplexer: Option<String>, side: String, terminal_id: String, no_focus: bool },
    /// Waits until the created pane's session can be read.
    CreateMultiplexerPane { multiplexer: Option<String>, side: Option<String>, workspace: Option<String>, no_focus: bool },
}

/// Requests answered within the frame that drains them.
#[derive(Debug, PartialEq, Eq)]
#[allow(inconsistent_fields)]
pub enum FrameRequest {
    ListProjects,
    ListSessions,
    SelectWorkspace { path: Option<String> },
    CloseSession { session_id: u64 },
    SendText { session_id: u64, text: String },
    MoveSession { session_id: u64, path: String },
    ReadScreen { session_id: u64, scrollback_lines: usize },
    ReadScratchpad { workspace: Option<String> },
    RemoveProject { root: String },
    RenameProject { root: String, label: Option<String> },
    ListMultiplexerPanes,
    RunAction { action: String },
}

/// Which of the three a request is.
#[derive(Debug, Clone, Copy, PartialEq, Eq, Structural)]
pub enum Lane {
    Connection,
    Deferred,
    Frame,
}

/// Where a request belongs.
pub open spec fn lane_of(request: Asked) -> Lane {
    match request {
        Asked::GitStatus { .. } => Lane::Connection,
        Asked::CreateWorktree { .. } => Lane::Connection,
        Asked::RefreshProject { .. } => Lane::Deferred,
        Asked::AddProject { .. } => Lane::Deferred,
        Asked::CreateSession { .. } => Lane::Deferred,
        Asked::AttachMultiplexerPane { .. } => Lane::Deferred,
        Asked::CreateMultiplexerPane { .. } => Lane::Deferred,
        _ => Lane::Frame,
    }
}

impl Route {
    /// The lane a route is on.
    pub open spec fn lane(self) -> Lane {
        match self {
            Route::Connection(_) => Lane::Connection,
            Route::App(AppRequest::Deferred(_)) => Lane::Deferred,
            Route::App(AppRequest::Frame(_)) => Lane::Frame,
        }
    }

    /// What the route carries, as a request.
    pub open spec fn carried(self) -> Asked {
        match self {
            Route::Connection(ConnectionRequest::GitStatus { path }) => Asked::GitStatus { path: path@ },
            Route::Connection(ConnectionRequest::CreateWorktree { project_root, branch }) => Asked::CreateWorktree { project_root: project_root@, branch: branch@ },
            Route::App(AppRequest::Deferred(DeferredRequest::RefreshProject { root })) => Asked::RefreshProject { root: root@ },
            Route::App(AppRequest::Deferred(DeferredRequest::AddProject { path })) => Asked::AddProject { path: path@ },
            Route::App(AppRequest::Deferred(DeferredRequest::CreateSession { workspace })) => Asked::CreateSession { workspace: opt_text(workspace) },
            Route::App(AppRequest::Deferred(DeferredRequest::AttachMultiplexerPane { multiplexer, side, terminal_id, no_focus })) => Asked::AttachMultiplexerPane { multiplexer: opt_text(multiplexer), side: side@, terminal_id: terminal_id@, no_focus },
            Route::App(AppRequest::Deferred(DeferredRequest::CreateMultiplexerPane { multiplexer, side, workspace, no_focus })) => Asked::CreateMultiplexerPane { multiplexer: opt_text(multiplexer), side: opt_text(side), workspace: opt_text(workspace), no_focus },
            Route::App(AppRequest::Frame(FrameRequest::ListProjects)) => Asked::ListProjects,
            Route::App(AppRequest::Frame(FrameRequest::ListSessions)) => Asked::ListSessions,
            Route::App(AppRequest::Frame(FrameRequest::SelectWorkspace { path })) => Asked::SelectWorkspace { path: opt_text(path) },
            Route::App(AppRequest::Frame(FrameRequest::CloseSession { session_id })) => Asked::CloseSession { session_id },
            Route::App(AppRequest::Frame(FrameRequest::SendText { session_id, text })) => Asked::SendText { session_id, text: text@ },
            Route::App(AppRequest::Frame(FrameRequest::MoveSession { session_id, path })) => Asked::MoveSession { session_id, path: path@ },
            Route::App(AppRequest::Frame(FrameRequest::ReadScreen { session_id, scrollback_lines })) => Asked::ReadScreen { session_id, scrollback_lines },
            Route::App(AppRequest::Frame(FrameRequest::ReadScratchpad { workspace })) => Asked::ReadScratchpad { workspace: opt_text(workspace) },
            Route::App(AppRequest::Frame(FrameRequest::RemoveProject { root })) => Asked::RemoveProject { root: root@ },
            Route::App(AppRequest::Frame(FrameRequest::RenameProject { root, label })) => Asked::RenameProject { root: root@, label: opt_text(label) },
            Route::App(AppRequest::Frame(FrameRequest::ListMultiplexerPanes)) => Asked::ListMultiplexerPanes,
            Route::App(AppRequest::Frame(FrameRequest::RunAction { action })) => Asked::RunAction { action: action@ },
        }
    }

    /// Places a request.  Nothing of it is lost: the route carries what was
    /// asked.
    pub fn from(request: IpcRequest) -> (r: Route)
        ensures
            r.carried() == request@,
            r.lane() == lane_of(request@),
    {
        match request {
            IpcRequest::GitStatus { path } => Route::Connection(ConnectionRequest::GitStatus { path }),
            IpcRequest::CreateWorktree { project_root, branch } => Route::Connection(ConnectionRequest::CreateWorktree { project_root, branch }),
            IpcRequest::RefreshProject { root } => Route::App(AppRequest::Deferred(DeferredRequest::RefreshProject { root })),
            IpcRequest::AddProject { path } => Route::App(AppRequest::Deferred(DeferredRequest::AddProject { path })),
            IpcRequest::CreateSession { workspace } => Route::App(AppRequest::Deferred(DeferredRequest::CreateSession { workspace })),
            IpcRequest::AttachMultiplexerPane { multiplexer, side, terminal_id, no_focus } => Route::App(AppRequest::Deferred(DeferredRequest::AttachMultiplexerPane { multiplexer, side, terminal_id, no_focus })),
            IpcRequest::CreateMultiplexerPane { multiplexer, side, workspace, no_focus } => Route::App(AppRequest::Deferred(DeferredRequest::CreateMultiplexerPane { multiplexer, side, workspace, no_focus })),
            IpcRequest::ListProjects => Route::App(AppRequest::Frame(FrameRequest::ListProjects)),
            IpcRequest::ListSessions => Route::App(AppRequest::Frame(FrameRequest::ListSessions)),
            IpcRequest::SelectWorkspace { path } => Route::App(AppRequest::Frame(FrameRequest::SelectWorkspace { path })),
            IpcRequest::CloseSession { session_id } => Route::App(AppRequest::Frame(FrameRequest::CloseSession { session_id })),
            IpcRequest::SendText { session_id, text } => Route::App(AppRequest::Frame(FrameRequest::SendText { session_id, text })),
            IpcRequest::MoveSession { session_id, path } => Route::App(AppRequest::Frame(FrameRequest::MoveSession { session_id, path })),
            IpcRequest::ReadScreen { session_id, scrollback_lines } => Route::App(AppRequest::Frame(FrameRequest::ReadScreen { session_id, scrollback_lines })),
            IpcRequest::ReadScratchpad { workspace } => Route::App(AppRequest::Frame(FrameRequest::ReadScratchpad { workspace })),
            IpcRequest::RemoveProject { root } => Route::App(AppRequest::Frame(FrameRequest::RemoveProject { root })),
            IpcRequest::RenameProject { root, label } => Route::App(AppRequest::Frame(FrameRequest::RenameProject { root, label })),
            IpcRequest::ListMultiplexerPanes => Route::App(AppRequest::Frame(FrameRequest::ListMultiplexerPanes)),
            IpcRequest::RunAction { action } => Route::App(AppRequest::Frame(FrameRequest::RunAction { action })),
        }
    }

    /// What the request it carries is called.
    pub fn name(&self) -> (r: &'static str)
        ensures
            r@ == request_name(self.carried()),
    {
        match self {
            Route::Connection(ConnectionRequest::GitStatus { .. }) => "GitStatus",
            Route::Connection(ConnectionRequest::CreateWorktree { .. }) => "CreateWorktree",
            Route::App(AppRequest::Deferred(DeferredRequest::RefreshProject { .. })) => "RefreshProject",
            Route::App(AppRequest::Deferred(DeferredRequest::AddProject { .. })) => "AddProject",
            Route::App(AppRequest::Deferred(DeferredRequest::CreateSession { .. })) => "CreateSession",
            Route::App(AppRequest::Deferred(DeferredRequest::AttachMultiplexerPane { .. })) => "AttachMultiplexerPane",
            Route::App(AppRequest::Deferred(DeferredRequest::CreateMultiplexerPane { .. })) => "CreateMultiplexerPane",
            Route::App(AppRequest::Frame(FrameRequest::ListProjects)) => "ListProjects",
            Route::App(AppRequest::Frame(FrameRequest::ListSessions)) => "ListSessions",
            Route::App(AppRequest::Frame(FrameRequest::SelectWorkspace { .. })) => "SelectWorkspace",
            Route::App(AppRequest::Frame(FrameRequest::CloseSession { .. })) => "CloseSession",
            Route::App(AppRequest::Frame(FrameRequest::SendText { .. })) => "SendText",
            Route::App(AppRequest::Frame(FrameRequest::MoveSession { .. })) => "MoveSession",
            Route::App(AppRequest::Frame(FrameRequest::ReadScreen { .. })) => "ReadScreen",
            Route::App(AppRequest::Frame(FrameRequest::ReadScratchpad { .. })) => "ReadScratchpad",
            Route::App(AppRequest::Frame(FrameRequest::RemoveProject { .. })) => "RemoveProject",
            Route::App(AppRequest::Frame(FrameRequest::RenameProject { .. })) => "RenameProject",
            Route::App(AppRequest::Frame(FrameRequest::ListMultiplexerPanes)) => "ListMultiplexerPanes",
            Route::App(AppRequest::Frame(FrameRequest::RunAction { .. })) => "RunAction",
        }
    }
}

} // verus!

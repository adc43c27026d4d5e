//! Panes and agents that run under a herdr server.
//!
//! herdr owns its own terminals and detects the agent in each pane; the
//! library decides what to ask of it, reads its answers, and keeps what each
//! server last reported.

pub mod cli;
pub mod cli_laws;
pub mod endpoints;
pub mod events;
pub mod host;
pub mod host_laws;
pub mod interval;
pub mod laws;
pub mod model;
pub mod poll;
pub mod poll_laws;
pub mod settings;
pub mod settings_laws;
pub mod side_laws;
pub mod view;
pub mod view_laws;

pub mod wire;
pub mod wire_laws;

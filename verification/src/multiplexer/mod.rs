//! The terminal multiplexers panes are hosted from.

pub mod laws;
pub mod listing;
pub mod model;
pub mod scripted;
pub mod set;

use vstd::prelude::*;

pub mod gl_build;
pub mod gl_frame;
pub mod gl_laws;
pub mod grid_gl;
pub mod grid_instances;
pub mod grid_laws;
pub mod herdr;
pub mod icon;
pub mod ime;
pub mod in_flight;
pub mod input;
pub mod input_laws;
pub mod ipc;
pub mod jobs;
pub mod json;
pub mod keys;
pub mod logging;
pub mod mcp;
pub mod mcp_laws;
pub mod modal_gate;
pub mod mouse;
pub mod multiplexer;
pub mod notify;
pub mod paint_phases;
pub mod panel_filter;
pub mod paste;
pub mod path_laws;
pub mod path_style;
pub mod paths;
pub mod pending_spawn;
pub mod program_laws;
pub mod side;
pub mod terminal_laws;
pub mod text;
pub mod text_laws;

verus! {

} // verus!

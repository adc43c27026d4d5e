//! Driving a running app from outside its process.
//!
//! One newline-delimited JSON request per connection, one JSON reply line
//! back.  Every request is answered with `{"ok": …}` or `{"error": …}`.

pub mod request;
pub mod request_laws;
pub mod route;
pub mod route_laws;
pub mod protocol;
pub mod protocol_laws;
pub mod server;

//! The authentication server's request logic: bearer tokens, error bodies,
//! sessions and the device-flow login used by the command line.

pub mod middleware;
pub mod handlers;
pub mod sessions;
pub mod login_flow;

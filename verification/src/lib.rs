//! Server side of a local IPC channel: the decisions of a daemon that binds a
//! filesystem-backed local socket, detaches, and answers one typed request per
//! connection.
//!
//! The crate performs no I/O. A driver binds, accepts, reads and writes; it
//! reports each outcome as an event and carries out the action it gets back.

pub mod codec;
pub mod dispatch;
pub mod ipc;
pub mod json;
pub mod provision;
pub mod server;
pub mod serving;
pub mod session;

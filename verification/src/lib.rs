//! Synchronization engine for a mailbox held on a remote server.
//!
//! The library holds the decisions of the engine: when to connect and tear
//! down, which folder to select, how far the per-folder cursor advances, what
//! a folder is for, how an idle wait ends, and which addresses to try. Every
//! network or storage action is performed by the caller, who reports what
//! came back; each function here maps the current state and that report to
//! the next state and the next thing to do.

pub mod connection;
pub mod folders;
pub mod idle;
pub mod net;
pub mod ops;
pub mod select;
pub mod state;
pub mod sync;
pub mod text;

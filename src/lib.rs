//! Core of an embedded console host: the pseudo-terminal session lifecycle,
//! the launch protocol that creates it, the streaming reader bridge that
//! moves its output across threads, and the terminal buffer that turns that
//! output into display lines.
//!
//! Everything here is plain, verified logic over plain values. The operating
//! system calls themselves (pipes, pseudo-console, process creation, blocking
//! reads) are performed by the embedding application, which feeds their
//! outcomes back into the state machines defined here.

pub mod config;
pub mod error;
pub mod launch;
pub mod reader;
pub mod session;
pub mod shell;
pub mod terminal;

use vstd::prelude::*;

verus! {

/// Initializes the host subsystem. No global state needs preparing, so
/// calling it any number of times is harmless.
pub fn initialize() {
}

} // verus!

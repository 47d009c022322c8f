//! Error values of the library.

use vstd::prelude::*;

verus! {

/// Why a pseudo-terminal session operation did not succeed.
///
/// Operating-system failures carry the platform error code.
#[derive(Clone, Copy, Debug, PartialEq, Eq, Structural)]
pub enum SessionError {
    /// An anonymous pipe pair could not be created.
    PipeCreationFailed(i32),
    /// The pseudo-console could not be created.
    ConsoleCreationFailed(i32),
    /// The child process could not be launched (attribute list or process creation).
    LaunchFailed(i32),
    /// A read, write, peek, resize or exit-code query failed.
    Io(i32),
    /// The session was terminated: its process and console handles are released.
    Terminated,
    /// The lock guarding the shared session was poisoned by a panicking holder.
    LockPoisoned,
}

impl SessionError {
    /// A short human-readable description of the error kind.
    pub fn describe(&self) -> (r: &'static str)
        ensures
            r@ == self.description(),
    {
        match self {
            SessionError::PipeCreationFailed(_) => "pipe creation failed",
            SessionError::ConsoleCreationFailed(_) => "pseudo-console creation failed",
            SessionError::LaunchFailed(_) => "process launch failed",
            SessionError::Io(_) => "I/O error",
            SessionError::Terminated => "session terminated",
            SessionError::LockPoisoned => "session lock poisoned",
        }
    }

    pub open spec fn description(&self) -> Seq<char> {
        match self {
            SessionError::PipeCreationFailed(_) => "pipe creation failed"@,
            SessionError::ConsoleCreationFailed(_) => "pseudo-console creation failed"@,
            SessionError::LaunchFailed(_) => "process launch failed"@,
            SessionError::Io(_) => "I/O error"@,
            SessionError::Terminated => "session terminated"@,
            SessionError::LockPoisoned => "session lock poisoned"@,
        }
    }
}

} // verus!

verus! {

/// Why a shell-integration operation did not succeed.
#[derive(Clone, Copy, Debug, PartialEq, Eq, Structural)]
pub enum ShellError {
    /// The platform refused a shell-policy change, with its error code.
    PolicyChange(i32),
}

} // verus!

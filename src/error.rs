use vstd::prelude::*;

verus! {

/// Everything that can go wrong while supervising; the text is the
/// underlying description where there is one.
#[derive(Debug, Clone, PartialEq, Eq)]
pub enum SupervisorError {
    PathNotFound(String),
    WatchRegistration(String),
    CompileInvocation(String),
    CompileFailure(String),
    ChildSpawn(String),
    Termination(String),
    WatchDelivery(String),
    WatchChannelClosed,
}

/// Exit status of the supervisor when it stops on a fatal error.
pub const FATAL_EXIT_CODE: i32 = 1;

impl SupervisorError {
    /// Errors that end the supervisor: startup failures, a toolchain that
    /// cannot be launched, and a closed event stream.
    pub open spec fn spec_is_fatal(&self) -> bool {
        match self {
            SupervisorError::PathNotFound(_) => true,
            SupervisorError::WatchRegistration(_) => true,
            SupervisorError::CompileInvocation(_) => true,
            SupervisorError::WatchChannelClosed => true,
            _ => false,
        }
    }

    /// Whether the supervisor must stop on this error.
    pub fn is_fatal(&self) -> (r: bool)
        ensures
            r == self.spec_is_fatal(),
    {
        match self {
            SupervisorError::PathNotFound(_) => true,
            SupervisorError::WatchRegistration(_) => true,
            SupervisorError::CompileInvocation(_) => true,
            SupervisorError::WatchChannelClosed => true,
            _ => false,
        }
    }

    /// The exit status to end with: `FATAL_EXIT_CODE` for a fatal error,
    /// none for one that is only reported.
    pub fn exit_code(&self) -> (r: Option<i32>)
        ensures
            r == (if self.spec_is_fatal() { Some(FATAL_EXIT_CODE) } else { None::<i32> }),
    {
        if self.is_fatal() {
            Some(FATAL_EXIT_CODE)
        } else {
            None
        }
    }
}

/// Startup check on the watched path: a path that does not exist is
/// refused before any watch is registered.
pub fn check_watch_path(path: String, exists: bool) -> (r: Result<String, SupervisorError>)
    ensures
        exists ==> r == Ok::<String, SupervisorError>(path),
        !exists ==> r == Err::<String, SupervisorError>(SupervisorError::PathNotFound(path)),
{
    if exists {
        Ok(path)
    } else {
        Err(SupervisorError::PathNotFound(path))
    }
}

} // verus!

//! The failures that the platform layer reports.

use vstd::prelude::*;

verus! {

/// The operating-system call that a failure code came from.
#[derive(Clone, Copy, Debug, PartialEq, Eq)]
pub enum OsCall {
    /// Creating the named mutex.
    CreateMutex,
    /// Expanding environment-variable references in a string.
    ExpandEnvironment,
    /// Bringing a path into its canonical form.
    Canonicalize,
    /// Comparing the host's version with a required one.
    VersionQuery,
    /// Waiting for a child process.
    WaitProcess,
    /// Terminating a child process.
    KillProcess,
    /// Reading what a child process wrote.
    ReadOutput,
}

/// A span of time, as whole seconds and the nanoseconds beyond them.
#[derive(Clone, Copy, Debug, PartialEq, Eq)]
pub struct TimeLimit {
    pub secs: u64,
    pub nanos: u32,
}

impl TimeLimit {
    /// A limit of `secs` whole seconds.
    pub fn from_secs(secs: u64) -> (t: TimeLimit)
        ensures
            t == (TimeLimit { secs, nanos: 0 }),
    {
        TimeLimit { secs, nanos: 0 }
    }
}

/// Every way in which an operation of this layer can fail.
#[derive(Debug, PartialEq, Eq)]
pub enum PlatformError {
    /// Another installer or updater holds the application's mutex.
    AlreadyRunning,
    /// A native call failed unexpectedly, with the code it reported.
    OsApiError { context: OsCall, code: u32 },
    /// The child process could not be started.
    ProcessSpawnError,
    /// The child process was still running when its time limit expired.
    ProcessTimedOut(TimeLimit),
    /// The child process exited with a code other than zero; its output is attached.
    ProcessNonZeroExit(i32, String),
    /// A text could not be read as a path. No step of this library reports
    /// it: a host that cannot make a path canonical fails with its own code.
    PathParseError,
    /// A version string is not a dotted list of numbers.
    VersionParseError,
}

} // verus!

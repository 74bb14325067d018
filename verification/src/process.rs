//! Supervised child processes: what to launch, and what each report of the
//! host about the child leads to.

use vstd::prelude::*;
use crate::error::{OsCall, PlatformError, TimeLimit};
use crate::text::{decode_lossy, owned, slices, texts, utf8_lossy};

verus! {

/// The creation flag that keeps a child from opening a console window.
pub const CREATE_NO_WINDOW: u32 = 0x0800_0000;

/// The arguments of a child process.
#[derive(Debug, PartialEq, Eq)]
pub enum Arguments {
    /// Separate arguments, which the host quotes as needed.
    List(Vec<String>),
    /// One string that is handed to the child as it is.
    Raw(String),
}

/// What happens once the child runs.
#[derive(Clone, Copy, Debug, PartialEq, Eq)]
pub enum Supervision {
    /// Nothing: the caller goes on as soon as the child has started.
    Detached,
    /// Standard output and standard error are captured and the caller waits
    /// for the exit, without end where `limit` is `None`.
    Captured { limit: Option<TimeLimit> },
}

/// A child process to start.
#[derive(Debug, PartialEq, Eq)]
pub struct Launch {
    pub exe: String,
    pub args: Arguments,
    pub work_dir: String,
    pub creation_flags: u32,
    pub supervision: Supervision,
}

pub enum ArgumentsView {
    List(Seq<Seq<char>>),
    Raw(Seq<char>),
}

pub struct LaunchView {
    pub exe: Seq<char>,
    pub args: ArgumentsView,
    pub work_dir: Seq<char>,
    pub creation_flags: u32,
    pub supervision: Supervision,
}

impl View for Arguments {
    type V = ArgumentsView;

    open spec fn view(&self) -> ArgumentsView {
        match self {
            Arguments::List(v) => ArgumentsView::List(texts(v@)),
            Arguments::Raw(s) => ArgumentsView::Raw(s@),
        }
    }
}

impl View for Launch {
    type V = LaunchView;

    open spec fn view(&self) -> LaunchView {
        LaunchView {
            exe: self.exe@,
            args: self.args@,
            work_dir: self.work_dir@,
            creation_flags: self.creation_flags,
            supervision: self.supervision,
        }
    }
}

/// What follows the attempt to start a child.
#[derive(Debug, PartialEq, Eq)]
pub enum SpawnStep {
    /// The child did not start.
    Failed(PlatformError),
    /// Allow the child `foreground` to take the foreground; nothing more.
    Detached { foreground: u32 },
    /// Allow the child `foreground` to take the foreground, then wait for
    /// its exit, for `limit` at most.
    Wait { foreground: u32, limit: Option<TimeLimit> },
}

/// What the host reports of a wait.
#[derive(Clone, Copy, Debug, PartialEq, Eq)]
pub enum WaitResult {
    /// The child exited with this code.
    Exited(i32),
    /// The child was still running when the limit of the wait had passed.
    Expired(TimeLimit),
    /// The wait itself failed, with this code.
    Failed(u32),
}

/// What follows a wait.
#[derive(Debug, PartialEq, Eq)]
pub enum WaitStep {
    /// Read what the child wrote and call `process_output_read`.
    Collect { exit_code: i32 },
    /// Terminate the child at once, then call `process_killed`.
    Kill { after: TimeLimit },
    /// Give up with this error.
    Failed(PlatformError),
}

/// The plan for a child without console that is not waited for.
pub open spec fn detached_launch(exe: Seq<char>, args: ArgumentsView, work_dir: Seq<char>) -> LaunchView {
    LaunchView { exe, args, work_dir, creation_flags: CREATE_NO_WINDOW, supervision: Supervision::Detached }
}

/// The plan for a child without console whose output is captured and whose
/// exit is waited for.
pub open spec fn captured_launch(
    exe: Seq<char>,
    args: Seq<Seq<char>>,
    work_dir: Seq<char>,
    limit: Option<TimeLimit>,
) -> LaunchView {
    LaunchView {
        exe,
        args: ArgumentsView::List(args),
        work_dir,
        creation_flags: CREATE_NO_WINDOW,
        supervision: Supervision::Captured { limit },
    }
}

/// Plans a child that runs `exe` with `args` in `work_dir`, without a console
/// window, with its output captured, and that is waited for: for `timeout` at
/// most, or without end.
pub fn run_process_no_console_and_wait(
    exe: &str,
    args: Vec<&str>,
    work_dir: &str,
    timeout: Option<TimeLimit>,
) -> (r: Launch)
    ensures
        r@ == captured_launch(exe@, slices(args@), work_dir@, timeout),
{
    Launch {
        exe: exe.to_owned(),
        args: Arguments::List(owned(&args)),
        work_dir: work_dir.to_owned(),
        creation_flags: CREATE_NO_WINDOW,
        supervision: Supervision::Captured { limit: timeout },
    }
}

/// Plans a child that runs `exe` with `args` in `work_dir`, without a console
/// window, and that is not waited for.
pub fn run_process(exe: &str, args: Vec<&str>, work_dir: &str) -> (r: Launch)
    ensures
        r@ == detached_launch(exe@, ArgumentsView::List(slices(args@)), work_dir@),
{
    Launch {
        exe: exe.to_owned(),
        args: Arguments::List(owned(&args)),
        work_dir: work_dir.to_owned(),
        creation_flags: CREATE_NO_WINDOW,
        supervision: Supervision::Detached,
    }
}

/// As `run_process`, with the arguments as one string that reaches the child
/// unchanged.
pub fn run_process_raw_args(exe: &str, args: &str, work_dir: &str) -> (r: Launch)
    ensures
        r@ == detached_launch(exe@, ArgumentsView::Raw(args@), work_dir@),
{
    Launch {
        exe: exe.to_owned(),
        args: Arguments::Raw(args.to_owned()),
        work_dir: work_dir.to_owned(),
        creation_flags: CREATE_NO_WINDOW,
        supervision: Supervision::Detached,
    }
}

/// Decides what follows the attempt to start `launch`, which gave the
/// child's process id or the code of the failure. A child that started is
/// always allowed to take the foreground, and is waited for only where the
/// plan says so.
pub fn process_spawned(launch: &Launch, spawned: Result<u32, u32>) -> (r: SpawnStep)
    ensures
        r == match spawned {
            Err(_) => SpawnStep::Failed(PlatformError::ProcessSpawnError),
            Ok(pid) => match launch.supervision {
                Supervision::Detached => SpawnStep::Detached { foreground: pid },
                Supervision::Captured { limit } => SpawnStep::Wait { foreground: pid, limit },
            },
        },
{
    match spawned {
        Err(_) => SpawnStep::Failed(PlatformError::ProcessSpawnError),
        Ok(pid) => match launch.supervision {
            Supervision::Detached => SpawnStep::Detached { foreground: pid },
            Supervision::Captured { limit } => SpawnStep::Wait { foreground: pid, limit },
        },
    }
}

/// Decides what follows a wait. A child that outlived its limit is killed
/// before anything is reported.
pub fn process_waited(waited: WaitResult) -> (r: WaitStep)
    ensures
        r == match waited {
            WaitResult::Exited(exit_code) => WaitStep::Collect { exit_code },
            WaitResult::Expired(after) => WaitStep::Kill { after },
            WaitResult::Failed(code) => WaitStep::Failed(
                PlatformError::OsApiError { context: OsCall::WaitProcess, code },
            ),
        },
{
    match waited {
        WaitResult::Exited(exit_code) => WaitStep::Collect { exit_code },
        WaitResult::Expired(after) => WaitStep::Kill { after },
        WaitResult::Failed(code) => WaitStep::Failed(
            PlatformError::OsApiError { context: OsCall::WaitProcess, code },
        ),
    }
}

/// The error to report once the child that outlived the limit `after` has
/// been killed, or could not be.
pub fn process_killed(after: TimeLimit, killed: Result<(), u32>) -> (r: PlatformError)
    ensures
        r == match killed {
            Ok(_) => PlatformError::ProcessTimedOut(after),
            Err(code) => PlatformError::OsApiError { context: OsCall::KillProcess, code },
        },
{
    match killed {
        Ok(_) => PlatformError::ProcessTimedOut(after),
        Err(code) => PlatformError::OsApiError { context: OsCall::KillProcess, code },
    }
}

/// Whether `r` is the outcome of a child that exited with `exit_code` and
/// wrote `output`.
pub open spec fn is_process_outcome(r: Result<String, PlatformError>, exit_code: i32, output: Seq<char>) -> bool {
    if exit_code == 0 {
        r matches Ok(text) && text@ == output
    } else {
        r matches Err(PlatformError::ProcessNonZeroExit(code, text)) && code == exit_code && text@ == output
    }
}

/// The outcome of a child that exited with `exit_code` and whose captured
/// output reads `output`: the output, or the error that carries code and output.
pub fn process_outcome(exit_code: i32, output: String) -> (r: Result<String, PlatformError>)
    ensures
        is_process_outcome(r, exit_code, output@),
{
    if exit_code == 0 {
        Ok(output)
    } else {
        Err(PlatformError::ProcessNonZeroExit(exit_code, output))
    }
}

/// The outcome of a child that exited with `exit_code`, from the bytes it
/// wrote. Standard output comes first, standard error after it, and bytes
/// that are no UTF-8 are replaced, never refused.
pub fn check_process_status_and_output(exit_code: i32, stdout: &[u8], stderr: &[u8]) -> (r: Result<
    String,
    PlatformError,
>)
    ensures
        is_process_outcome(r, exit_code, utf8_lossy(stdout@ + stderr@)),
        vstd::utf8::valid_utf8(stdout@ + stderr@) ==> is_process_outcome(
            r,
            exit_code,
            vstd::utf8::decode_utf8(stdout@ + stderr@),
        ),
{
    let mut bytes: Vec<u8> = Vec::new();
    let mut i: usize = 0;
    while i < stdout.len()
        invariant
            i <= stdout.len(),
            bytes@ == stdout@.take(i as int),
        decreases stdout.len() - i,
    {
        bytes.push(stdout[i]);
        i += 1;
    }
    let mut j: usize = 0;
    while j < stderr.len()
        invariant
            j <= stderr.len(),
            bytes@ == stdout@ + stderr@.take(j as int),
        decreases stderr.len() - j,
    {
        bytes.push(stderr[j]);
        j += 1;
    }
    assert(stderr@.take(j as int) == stderr@);
    process_outcome(exit_code, decode_lossy(bytes.as_slice()))
}

/// Whether `r` is what follows the attempt to read what a child wrote that
/// exited with `exit_code`.
pub open spec fn is_read_outcome(
    r: Result<String, PlatformError>,
    exit_code: i32,
    read: Result<(Vec<u8>, Vec<u8>), u32>,
) -> bool {
    match read {
        Ok((stdout, stderr)) => is_process_outcome(r, exit_code, utf8_lossy(stdout@ + stderr@)),
        Err(code) => r == Err::<String, PlatformError>(
            PlatformError::OsApiError { context: OsCall::ReadOutput, code },
        ),
    }
}

/// Closes a run whose child exited with `exit_code`, on what reading its two
/// streams gave: the bytes of standard output and of standard error, or the
/// code of the failure. Output that could not be read is an error whatever
/// the exit code was.
pub fn process_output_read(exit_code: i32, read: Result<(Vec<u8>, Vec<u8>), u32>) -> (r: Result<
    String,
    PlatformError,
>)
    ensures
        is_read_outcome(r, exit_code, read),
        read matches Ok((o, e)) ==> (vstd::utf8::valid_utf8(o@ + e@) ==> is_process_outcome(
            r,
            exit_code,
            vstd::utf8::decode_utf8(o@ + e@),
        )),
{
    match read {
        Ok((stdout, stderr)) => check_process_status_and_output(exit_code, stdout.as_slice(), stderr.as_slice()),
        Err(code) => Err(PlatformError::OsApiError { context: OsCall::ReadOutput, code }),
    }
}

} // verus!

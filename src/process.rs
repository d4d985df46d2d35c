use vstd::prelude::*;

verus! {

/// How a standard stream of the child is connected.
#[derive(Clone, Copy, Debug, PartialEq, Eq, Structural)]
pub enum Stream {
    /// Shared with the parent: output goes straight to the user's terminal.
    Inherit,
    /// Collected into memory by the parent.
    Pipe,
    /// Standard error joined into standard output.
    Merge,
}

/// How a child process ended.
#[derive(Clone, Copy, Debug, PartialEq, Eq, Structural)]
pub enum ExitStatus {
    /// It exited with this code.
    Exited(u32),
    /// It was ended by this signal.
    Signaled(u8),
    /// A status that neither of the above describes.
    Other(i32),
    /// It ended, but its status could not be learned.
    Undetermined,
}

/// A failure at the level of the operating system.
#[derive(Debug)]
pub enum ProcessFailure {
    /// The child could not be created (program missing, permission denied).
    Spawn(String),
    /// The child was created, but reading its output or waiting for it failed.
    Wait(String),
}

/// The build tool ran to the end but did not exit cleanly; the status is
/// kept for display.
#[derive(Clone, Copy, Debug, PartialEq, Eq, Structural)]
pub struct ExitError(pub ExitStatus);

/// Why running a command failed.
#[derive(Debug)]
pub enum CommandError {
    /// The operating system could not create the child.
    Spawn { context: Option<String>, detail: String },
    /// The child started, but reading its output or waiting for it failed.
    Capture { context: Option<String>, detail: String },
    /// The build tool exited with a non-zero code or was ended by a signal.
    Exit(ExitError),
}

/// What a terminal call asks the process layer to do: report `message`,
/// log `argv`, and, where `spawn` holds, start `argv[0]` with the rest as its
/// arguments and the streams connected as given, then wait for it.
#[derive(Debug)]
pub struct Invocation {
    pub message: Option<String>,
    pub argv: Vec<String>,
    pub stdout: Stream,
    pub stderr: Stream,
    pub spawn: bool,
}

/// Whether a terminal call starts a process: never in a dry run.
pub open spec fn spawns(dry: bool) -> bool {
    !dry
}

/// Whether a plain run succeeds, by what became of its process (`None`
/// where none was started): only a failure to start it or wait for it fails.
pub open spec fn run_succeeds(outcome: Option<Result<ExitStatus, ProcessFailure>>) -> bool {
    !(outcome matches Some(Err(_)))
}

/// Whether a build succeeds, by what became of its process (`None` where
/// none was started): only a clean exit of a started process counts as one.
pub open spec fn build_succeeds(outcome: Option<Result<ExitStatus, ProcessFailure>>) -> bool {
    match outcome {
        None => true,
        Some(Ok(status)) => is_clean_exit(status),
        Some(Err(_)) => false,
    }
}

/// What a capture gives back where it succeeds, by what became of its
/// process: `None` where none was started, else the captured text.
pub open spec fn captured(outcome: Option<Result<String, ProcessFailure>>) -> Option<Seq<char>> {
    match outcome {
        Some(Ok(text)) => Some(text@),
        _ => None,
    }
}

/// A clean exit: code zero.
pub open spec fn is_clean_exit(status: ExitStatus) -> bool {
    status == ExitStatus::Exited(0)
}

/// `e` reports the failure `f`, with `context` attached.
pub open spec fn reports(e: CommandError, f: ProcessFailure, context: Option<Seq<char>>) -> bool {
    match f {
        ProcessFailure::Spawn(d) => match e {
            CommandError::Spawn { context: c, detail } => c.deep_view() == context && detail@ == d@,
            _ => false,
        },
        ProcessFailure::Wait(d) => match e {
            CommandError::Capture { context: c, detail } => c.deep_view() == context && detail@
                == d@,
            _ => false,
        },
    }
}

/// Only a clean exit is a success; any other status is carried in the error.
pub fn classify_exit(status: ExitStatus) -> (r: Result<(), ExitError>)
    ensures
        r is Ok <==> is_clean_exit(status),
        r matches Err(e) ==> e.0 == status,
{
    match status {
        ExitStatus::Exited(0) => Ok(()),
        other => Err(ExitError(other)),
    }
}

/// The error for the failure `failure`, with `context` (the configured
/// message, if any) attached.
pub fn failure_error(failure: ProcessFailure, context: &Option<String>) -> (r: CommandError)
    ensures
        reports(r, failure, context.deep_view()),
{
    let context = match context {
        Some(m) => Some(m.clone()),
        None => None,
    };
    match failure {
        ProcessFailure::Spawn(detail) => CommandError::Spawn { context, detail },
        ProcessFailure::Wait(detail) => CommandError::Capture { context, detail },
    }
}

impl ExitError {
    /// The status that the build tool ended with.
    pub fn status(&self) -> (r: ExitStatus)
        ensures
            r == self.0,
    {
        self.0
    }
}

} // verus!

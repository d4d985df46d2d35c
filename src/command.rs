use vstd::prelude::*;

use crate::elevation::{elevated, Elevation, Platform, HELPER};
use crate::text::extend_strings;
use crate::process::{build_succeeds, captured, failure_error, reports, run_succeeds, spawns, CommandError, ExitStatus, Invocation, ProcessFailure, Stream};

verus! {

/// What a [`Command`] holds, as mathematical values.
pub struct CommandView {
    pub dry: bool,
    pub message: Option<Seq<char>>,
    pub command: Seq<char>,
    pub args: Seq<Seq<char>>,
    pub elevate: bool,
}

/// The command line: the program, then its arguments in the order given.
pub open spec fn command_line(c: CommandView) -> Seq<Seq<char>> {
    seq![c.command] + c.args
}

/// The command line that `run` hands on: run through the helper where
/// elevation was asked for.
pub open spec fn run_line(c: CommandView, helper_flags: Seq<Seq<char>>) -> Seq<Seq<char>> {
    if c.elevate {
        elevated(helper_flags, command_line(c))
    } else {
        command_line(c)
    }
}

/// Arguments keep the order in which they were added, with none dropped or
/// merged: adding `more` to a command extends its command line by exactly
/// `more`, and each argument stands right after the program at its own index.
pub proof fn lemma_arguments_keep_order(c: CommandView, more: Seq<Seq<char>>)
    ensures
        command_line(CommandView { args: c.args + more, ..c }) == command_line(c) + more,
        command_line(c).len() == c.args.len() + 1,
        command_line(c)[0] == c.command,
        forall|i: int| 0 <= i < c.args.len() ==> #[trigger] command_line(c)[i + 1] == c.args[i],
{
    assert(command_line(CommandView { args: c.args + more, ..c }) =~= command_line(c) + more);
}

/// A dry run, of a command or of a build, starts no process, whether it runs
/// plainly, through the helper or to capture output. With nothing started, a
/// plain run and a build succeed, and a capture gives back no text at all,
/// which differs from any text, empty text included.
pub proof fn lemma_dry_run_spawns_nothing(dry: bool)
    requires
        dry,
    ensures
        !spawns(dry),
        run_succeeds(None),
        build_succeeds(None),
        captured(None) is None,
        forall|t: String| #[trigger] captured(Some(Ok::<String, ProcessFailure>(t))) == Some(t@),
{
}

/// Asking for elevation is a switch, not a layer: asking twice runs the
/// command exactly as asking once does, with the helper once, in front, and
/// the command line after the helper's flags.
pub proof fn lemma_elevation_not_stacked(c: CommandView, helper_flags: Seq<Seq<char>>)
    ensures
        run_line(CommandView { elevate: true, ..CommandView { elevate: true, ..c } }, helper_flags)
            == run_line(CommandView { elevate: true, ..c }, helper_flags),
        run_line(CommandView { elevate: true, ..c }, helper_flags) == seq![HELPER@]
            + helper_flags + command_line(c),
        run_line(CommandView { elevate: true, ..c }, helper_flags)[0] == HELPER@,
{
    assert(command_line(CommandView { elevate: true, ..c }) == command_line(c));
    assert((seq![HELPER@] + helper_flags + command_line(c))[0] == HELPER@);
}

/// An external command under construction: a program, its arguments, an
/// optional progress message, and the dry-run and elevation switches.
#[derive(Debug)]
pub struct Command {
    dry: bool,
    message: Option<String>,
    command: String,
    args: Vec<String>,
    elevate: bool,
}

impl View for Command {
    type V = CommandView;

    closed spec fn view(&self) -> CommandView {
        CommandView {
            dry: self.dry,
            message: self.message.deep_view(),
            command: self.command@,
            args: self.args.deep_view(),
            elevate: self.elevate,
        }
    }
}

/// A copy of `m`.
fn clone_message(m: &Option<String>) -> (r: Option<String>)
    ensures
        r.deep_view() == m.deep_view(),
{
    match m {
        Some(s) => Some(s.clone()),
        None => None,
    }
}

impl Command {
    /// A command that runs `command` with no arguments, no message, not
    /// elevated and not as a dry run.
    pub fn new(command: &str) -> (r: Self)
        ensures
            r@ == (CommandView {
                dry: false,
                message: None,
                command: command@,
                args: seq![],
                elevate: false,
            }),
    {
        let r = Command {
            dry: false,
            message: None,
            command: command.to_owned(),
            args: Vec::new(),
            elevate: false,
        };
        assert(r.args.deep_view() =~= seq![]);
        r
    }

    /// Whether to run the command through the elevation helper.
    pub fn elevate(self, elevate: bool) -> (r: Self)
        ensures
            r@ == (CommandView { elevate, ..self@ }),
    {
        Command { elevate, ..self }
    }

    /// Whether to compose and report the command without running it.
    pub fn dry(self, dry: bool) -> (r: Self)
        ensures
            r@ == (CommandView { dry, ..self@ }),
    {
        Command { dry, ..self }
    }

    /// Adds one argument after those already given.
    pub fn arg(self, arg: &str) -> (r: Self)
        ensures
            r@ == (CommandView { args: self@.args.push(arg@), ..self@ }),
    {
        let mut c = self;
        let ghost before = c.args.deep_view();
        c.args.push(arg.to_owned());
        assert(c.args.deep_view() =~= before.push(arg@));
        c
    }

    /// Adds `args`, in their order, after those already given.
    pub fn args(self, args: &[String]) -> (r: Self)
        ensures
            r@ == (CommandView { args: self@.args + args.deep_view(), ..self@ }),
    {
        let mut c = self;
        extend_strings(&mut c.args, args);
        c
    }

    /// Sets the progress message reported before the command runs.
    pub fn message(self, message: &str) -> (r: Self)
        ensures
            r@ == (CommandView { message: Some(message@), ..self@ }),
    {
        Command { message: Some(message.to_owned()), ..self }
    }

    /// Whether the command is to run through the elevation helper.
    pub fn is_elevated(&self) -> (r: bool)
        ensures
            r == self@.elevate,
    {
        self.elevate
    }

    /// Whether running the command asks the helper for its `--help` text on
    /// `platform` first: only for an elevated run that is not a dry run, on a
    /// platform that probes.
    pub fn needs_probe(&self, platform: Platform) -> (r: bool)
        ensures
            r == (self@.elevate && !self@.dry && platform == Platform::Darwin),
    {
        self.elevate && !self.dry && platform.probes_helper()
    }

    /// The program followed by its arguments, in the order they were given.
    pub fn command_line(&self) -> (r: Vec<String>)
        ensures
            r.deep_view() == command_line(self@),
    {
        let mut r: Vec<String> = Vec::new();
        r.push(self.command.clone());
        assert(r.deep_view() =~= seq![self.command@]);
        extend_strings(&mut r, self.args.as_slice());
        r
    }

    /// The invocation for a run whose output goes straight to the terminal:
    /// through the helper if elevation was asked for (with `elevation`'s
    /// flags), both streams inherited, and no process at all in a dry run.
    pub fn run(&self, elevation: &Elevation) -> (r: Invocation)
        ensures
            r.argv.deep_view() == run_line(self@, elevation@),
            r.message.deep_view() == self@.message,
            r.stdout == Stream::Inherit,
            r.stderr == Stream::Inherit,
            r.spawn == spawns(self@.dry),
    {
        let line = self.command_line();
        let argv = if self.elevate {
            elevation.wrap(line)
        } else {
            line
        };
        Invocation {
            message: clone_message(&self.message),
            argv,
            stdout: Stream::Inherit,
            stderr: Stream::Inherit,
            spawn: !self.dry,
        }
    }

    /// The result of `run`, from what became of the process: `None` where
    /// none was spawned. How the process exited does not matter here; only
    /// a failure to start it or to wait for it is an error, and it carries
    /// the message as context.
    pub fn finish_run(&self, outcome: Option<Result<ExitStatus, ProcessFailure>>) -> (r: Result<
        (),
        CommandError,
    >)
        ensures
            r is Ok <==> run_succeeds(outcome),
            outcome matches Some(Err(f)) ==> (r matches Err(e) && reports(e, f, self@.message)),
    {
        match outcome {
            Some(Err(f)) => Err(failure_error(f, &self.message)),
            _ => Ok(()),
        }
    }

    /// The invocation for a run that collects standard output: never
    /// elevated, standard output piped and standard error inherited, and no
    /// process at all in a dry run.
    pub fn run_capture(&self) -> (r: Invocation)
        ensures
            r.argv.deep_view() == command_line(self@),
            r.message.deep_view() == self@.message,
            r.stdout == Stream::Pipe,
            r.stderr == Stream::Inherit,
            r.spawn == spawns(self@.dry),
    {
        Invocation {
            message: clone_message(&self.message),
            argv: self.command_line(),
            stdout: Stream::Pipe,
            stderr: Stream::Inherit,
            spawn: !self.dry,
        }
    }

    /// The result of `run_capture`, from what became of the process: `None`
    /// where none was spawned gives `None` (not run, which differs from
    /// empty output); captured text is handed back exactly as it came.
    pub fn finish_capture(&self, outcome: Option<Result<String, ProcessFailure>>) -> (r: Result<
        Option<String>,
        CommandError,
    >)
        ensures
            r is Ok <==> !(outcome matches Some(Err(_))),
            r matches Ok(t) ==> t.deep_view() == captured(outcome),
            outcome matches Some(Err(f)) ==> (r matches Err(e) && reports(e, f, self@.message)),
    {
        match outcome {
            None => Ok(None),
            Some(Ok(text)) => Ok(Some(text)),
            Some(Err(f)) => Err(failure_error(f, &self.message)),
        }
    }
}

} // verus!

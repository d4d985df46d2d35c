use vstd::prelude::*;

use crate::elevation::{elevated, Elevation, Platform};
use crate::installable::Installable;
use crate::text::extend_strings;
use crate::process::{
    build_succeeds, classify_exit, failure_error, is_clean_exit, reports, spawns, CommandError, ExitStatus, Invocation,
    ProcessFailure, Stream,
};

verus! {

/// The build tool's binary: the alternate frontend or the plain one.
pub open spec fn build_program(nom: bool) -> Seq<char> {
    if nom {
        "nom"@
    } else {
        "nix"@
    }
}

/// The build command line before any elevation: the program, `build`, the
/// reference's arguments, then the extra arguments.
pub open spec fn build_line(
    nom: bool,
    reference_args: Seq<Seq<char>>,
    extra_args: Seq<Seq<char>>,
) -> Seq<Seq<char>> {
    seq![build_program(nom)] + (seq!["build"@] + reference_args + extra_args)
}

/// A build of a package reference under construction.
#[derive(Debug)]
pub struct Build {
    message: Option<String>,
    installable: Installable,
    extra_args: Vec<String>,
    nom: bool,
    dry: bool,
}

impl Build {
    /// The progress message, if any.
    pub closed spec fn message_view(&self) -> Option<Seq<char>> {
        self.message.deep_view()
    }

    /// The package reference to build.
    pub closed spec fn installable_view(&self) -> &Installable {
        &self.installable
    }

    /// The arguments added after the reference's own.
    pub closed spec fn extra_args_view(&self) -> Seq<Seq<char>> {
        self.extra_args.deep_view()
    }

    /// Whether the alternate frontend is used.
    pub closed spec fn nom_view(&self) -> bool {
        self.nom
    }

    /// Whether the build is only composed and reported, never run.
    pub closed spec fn dry_view(&self) -> bool {
        self.dry
    }

    /// The command line that the build runs, before any elevation.
    pub open spec fn line(&self) -> Seq<Seq<char>> {
        build_line(self.nom_view(), self.installable_view().args_view(), self.extra_args_view())
    }

    /// A build of `installable` with the plain tool, no extra arguments and
    /// no message.
    pub fn new(installable: Installable) -> (r: Self)
        ensures
            r.message_view() is None,
            *r.installable_view() == installable,
            r.extra_args_view() == Seq::<Seq<char>>::empty(),
            !r.nom_view(),
            !r.dry_view(),
    {
        let r = Build { message: None, installable, extra_args: Vec::new(), nom: false, dry: false };
        assert(r.extra_args.deep_view() =~= Seq::<Seq<char>>::empty());
        r
    }

    /// Sets the progress message reported before the build runs.
    pub fn message(self, message: &str) -> (r: Self)
        ensures
            r.message_view() == Some(message@),
            *r.installable_view() == *self.installable_view(),
            r.extra_args_view() == self.extra_args_view(),
            r.nom_view() == self.nom_view(),
            r.dry_view() == self.dry_view(),
    {
        Build { message: Some(message.to_owned()), ..self }
    }

    /// Adds one extra argument after those already given.
    pub fn extra_arg(self, arg: &str) -> (r: Self)
        ensures
            r.extra_args_view() == self.extra_args_view().push(arg@),
            r.message_view() == self.message_view(),
            *r.installable_view() == *self.installable_view(),
            r.nom_view() == self.nom_view(),
            r.dry_view() == self.dry_view(),
    {
        let mut b = self;
        let ghost before = b.extra_args.deep_view();
        b.extra_args.push(arg.to_owned());
        assert(b.extra_args.deep_view() =~= before.push(arg@));
        b
    }

    /// Whether to build with the alternate frontend.
    pub fn nom(self, yes: bool) -> (r: Self)
        ensures
            r.nom_view() == yes,
            r.message_view() == self.message_view(),
            *r.installable_view() == *self.installable_view(),
            r.extra_args_view() == self.extra_args_view(),
            r.dry_view() == self.dry_view(),
    {
        Build { nom: yes, ..self }
    }

    /// Adds `args`, in their order, after the extra arguments already given.
    pub fn extra_args(self, args: &[String]) -> (r: Self)
        ensures
            r.extra_args_view() == self.extra_args_view() + args.deep_view(),
            r.message_view() == self.message_view(),
            *r.installable_view() == *self.installable_view(),
            r.nom_view() == self.nom_view(),
            r.dry_view() == self.dry_view(),
    {
        let mut b = self;
        extend_strings(&mut b.extra_args, args);
        b
    }

    /// Whether to compose and report the build without running it.
    pub fn dry(self, dry: bool) -> (r: Self)
        ensures
            r.dry_view() == dry,
            r.message_view() == self.message_view(),
            *r.installable_view() == *self.installable_view(),
            r.extra_args_view() == self.extra_args_view(),
            r.nom_view() == self.nom_view(),
    {
        Build { dry, ..self }
    }

    /// Whether the build must run through the elevation helper: the
    /// reference lies under the package store.
    pub fn needs_elevation(&self) -> (r: bool)
        ensures
            r == self.installable_view().store_backed(),
    {
        self.installable.is_store_backed()
    }

    /// Whether running the build asks the helper for its `--help` text on
    /// `platform` first: only for a store-backed reference, not in a dry
    /// run, on a platform that probes.
    pub fn needs_probe(&self, platform: Platform) -> (r: bool)
        ensures
            r == (self.installable_view().store_backed() && !self.dry_view() && platform
                == Platform::Darwin),
    {
        self.needs_elevation() && !self.dry && platform.probes_helper()
    }

    /// The command line of the build before any elevation.
    pub fn command_line(&self) -> (r: Vec<String>)
        ensures
            r.deep_view() == self.line(),
    {
        let mut r: Vec<String> = Vec::new();
        let program = if self.nom {
            "nom".to_owned()
        } else {
            "nix".to_owned()
        };
        r.push(program);
        r.push("build".to_owned());
        assert(r.deep_view() =~= seq![build_program(self.nom), "build"@]);
        let reference_args = self.installable.to_args();
        extend_strings(&mut r, reference_args.as_slice());
        extend_strings(&mut r, self.extra_args.as_slice());
        assert(r.deep_view() =~= self.line());
        r
    }

    /// The invocation for the build: through the helper with `elevation`'s
    /// flags where the reference lies under the store, standard output
    /// inherited with standard error merged into it, and no process at all
    /// in a dry run.
    pub fn run(&self, elevation: &Elevation) -> (r: Invocation)
        ensures
            r.argv.deep_view() == (if self.installable_view().store_backed() {
                elevated(elevation@, self.line())
            } else {
                self.line()
            }),
            r.message.deep_view() == self.message_view(),
            r.stdout == Stream::Inherit,
            r.stderr == Stream::Merge,
            r.spawn == spawns(self.dry_view()),
    {
        let line = self.command_line();
        let argv = if self.needs_elevation() {
            elevation.wrap(line)
        } else {
            line
        };
        let message = match &self.message {
            Some(m) => Some(m.clone()),
            None => None,
        };
        Invocation { message, argv, stdout: Stream::Inherit, stderr: Stream::Merge, spawn: !self.dry }
    }

    /// The result of the build, from what became of the process: `None`
    /// where none was spawned. Only a clean exit succeeds; any other status
    /// is an [`crate::process::ExitError`] that carries it, and a failure to
    /// start or wait for the tool carries the message as context.
    pub fn finish(&self, outcome: Option<Result<ExitStatus, ProcessFailure>>) -> (r: Result<
        (),
        CommandError,
    >)
        ensures
            r is Ok <==> build_succeeds(outcome),
            match outcome {
                None => r is Ok,
                Some(Ok(s)) => if is_clean_exit(s) {
                    r is Ok
                } else {
                    (r matches Err(CommandError::Exit(e)) && e.0 == s)
                },
                Some(Err(f)) => (r matches Err(e) && reports(e, f, self.message_view())),
            },
    {
        match outcome {
            None => Ok(()),
            Some(Ok(status)) => match classify_exit(status) {
                Ok(()) => Ok(()),
                Err(e) => Err(CommandError::Exit(e)),
            },
            Some(Err(f)) => Err(failure_error(f, &self.message)),
        }
    }
}

} // verus!

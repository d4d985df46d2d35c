use vstd::prelude::*;
use vstd::string::*;

use crate::process::{classify_exit, is_clean_exit, ExitStatus};
use crate::text::{contains_bytes, contains_slice, extend_strings};

verus! {

/// Name of the system helper that runs a command with elevated privileges.
pub const HELPER: &'static str = "sudo";

/// Platform families, which differ in how the elevation helper is invoked.
#[derive(Clone, Copy, Debug, PartialEq, Eq, Structural)]
pub enum Platform {
    /// The helper may accept `--preserve-env`; its `--help` text tells.
    Darwin,
    /// The helper is invoked with no extra flags.
    Other,
}

/// The text that the helper's `--help` output holds where it supports
/// preserving selected environment variables.
pub open spec fn preserve_env_marker() -> Seq<u8> {
    "--preserve-env".spec_bytes()
}

/// Whether the probe's outcome shows support for preserving variables. The
/// outcome is the helper's `--help` output, or `None` where running it failed
/// in any way.
pub open spec fn probe_supports(probe: Option<Seq<u8>>) -> bool {
    match probe {
        Some(text) => contains_bytes(text, preserve_env_marker()),
        None => false,
    }
}

/// The flags placed between the helper and the command.
pub open spec fn flags_for(platform: Platform, probe: Option<Seq<u8>>) -> Seq<Seq<char>> {
    match platform {
        Platform::Darwin => if probe_supports(probe) {
            seq!["--set-home"@, "--preserve-env=PATH"@, "env"@]
        } else {
            seq!["--set-home"@]
        },
        Platform::Other => seq![],
    }
}

/// What wrapping puts in front of a command line: the helper, then `flags`.
pub open spec fn helper_prefix(flags: Seq<Seq<char>>) -> Seq<Seq<char>> {
    seq![HELPER@] + flags
}

/// The command line `argv` run through the helper with `flags`.
pub open spec fn elevated(flags: Seq<Seq<char>>, argv: Seq<Seq<char>>) -> Seq<Seq<char>> {
    helper_prefix(flags) + argv
}

impl Platform {
    /// Whether elevation on this platform first asks the helper for its `--help` text.
    pub fn probes_helper(&self) -> (r: bool)
        ensures
            r == (*self == Platform::Darwin),
    {
        match self {
            Platform::Darwin => true,
            Platform::Other => false,
        }
    }
}

/// The outcome of the `--help` probe as `resolve` takes it: the output of a
/// probe that exited cleanly, and `None` for any other exit, which counts as
/// no support.
pub fn probe_outcome(status: ExitStatus, stdout: Vec<u8>) -> (r: Option<Vec<u8>>)
    ensures
        r is Some <==> is_clean_exit(status),
        r matches Some(out) ==> out@ == stdout@,
{
    match classify_exit(status) {
        Ok(()) => Some(stdout),
        Err(_) => None,
    }
}

/// Whether the helper's `--help` output announces `--preserve-env`.
pub fn supports_preserve_env(help: &[u8]) -> (r: bool)
    ensures
        r == contains_bytes(help@, preserve_env_marker()),
{
    contains_slice(help, "--preserve-env".as_bytes())
}

/// How commands are run through the elevation helper: the flags that go
/// between the helper and the command.
pub struct Elevation {
    flags: Vec<String>,
}

impl View for Elevation {
    type V = Seq<Seq<char>>;

    closed spec fn view(&self) -> Seq<Seq<char>> {
        self.flags.deep_view()
    }
}

impl Elevation {
    /// Settles the helper's flags for `platform` from the outcome of its
    /// `--help` probe; a probe that failed counts as no support.
    pub fn resolve(platform: Platform, probe: &Option<Vec<u8>>) -> (r: Self)
        ensures
            r@ == flags_for(platform, probe.deep_view()),
    {
        let mut flags: Vec<String> = Vec::new();
        match platform {
            Platform::Darwin => {
                flags.push("--set-home".to_owned());
                assert(flags.deep_view() =~= seq!["--set-home"@]);
                let supported = match probe {
                    Some(text) => {
                        assert(text.deep_view() =~= text@);
                        supports_preserve_env(text.as_slice())
                    },
                    None => false,
                };
                if supported {
                    flags.push("--preserve-env=PATH".to_owned());
                    flags.push("env".to_owned());
                    assert(flags.deep_view() =~= seq!["--set-home"@, "--preserve-env=PATH"@, "env"@]);
                }
            },
            Platform::Other => {},
        }
        let r = Elevation { flags };
        assert(r@ =~= flags_for(platform, probe.deep_view()));
        r
    }

    /// Runs the command line `argv` through the helper with these flags.
    pub fn wrap(&self, argv: Vec<String>) -> (r: Vec<String>)
        ensures
            r.deep_view() == elevated(self@, argv.deep_view()),
    {
        let mut r: Vec<String> = Vec::new();
        r.push(HELPER.to_owned());
        assert(r.deep_view() =~= seq![HELPER@]);
        extend_strings(&mut r, self.flags.as_slice());
        extend_strings(&mut r, argv.as_slice());
        r
    }
}

/// A wrapped line is the helper, then the flags, then the command line
/// itself, unchanged and in order.
pub proof fn lemma_wrapped_line(flags: Seq<Seq<char>>, argv: Seq<Seq<char>>)
    ensures
        elevated(flags, argv)[0] == HELPER@,
        elevated(flags, argv).len() == 1 + flags.len() + argv.len(),
        elevated(flags, argv).subrange(1, 1 + flags.len() as int) == flags,
        elevated(flags, argv).subrange(1 + flags.len() as int, elevated(flags, argv).len() as int)
            == argv,
{
    let w = elevated(flags, argv);
    assert(w.subrange(1, 1 + flags.len() as int) =~= flags);
    assert(w.subrange(1 + flags.len() as int, w.len() as int) =~= argv);
}

/// The helper invoked on `command`, with `elevation`'s flags in between; the
/// caller appends the command's own arguments.
pub fn sudo(elevation: &Elevation, command: &str) -> (r: Vec<String>)
    ensures
        r.deep_view() == elevated(elevation@, seq![command@]),
{
    let mut argv: Vec<String> = Vec::new();
    argv.push(command.to_owned());
    proof {
        assert(argv.deep_view() =~= seq![command@]);
    }
    elevation.wrap(argv)
}

} // verus!

use nh::elevation::{probe_outcome, sudo, supports_preserve_env, Elevation, Platform};
use nh::process::ExitStatus;
use nh::text::contains_slice;

fn strings(v: &[&str]) -> Vec<String> {
    v.iter().map(|s| s.to_string()).collect()
}

const HELP_WITH: &str = "usage: sudo -h | -K | -k | -V\n  -E, --preserve-env  preserve user environment\n  -H, --set-home  set HOME\n";
const HELP_WITHOUT: &str = "usage: sudo -h | -K | -k | -V\n  -E  preserve user environment\n  -H, --set-home  set HOME\n";

#[test]
fn probe_with_marker_preserves_environment() {
    let e = Elevation::resolve(Platform::Darwin, &Some(HELP_WITH.as_bytes().to_vec()));
    assert_eq!(
        sudo(&e, "ls"),
        strings(&["sudo", "--set-home", "--preserve-env=PATH", "env", "ls"])
    );
}

#[test]
fn probe_without_marker_sets_home_only() {
    let e = Elevation::resolve(Platform::Darwin, &Some(HELP_WITHOUT.as_bytes().to_vec()));
    assert_eq!(sudo(&e, "ls"), strings(&["sudo", "--set-home", "ls"]));
}

#[test]
fn failed_probe_sets_home_only() {
    let e = Elevation::resolve(Platform::Darwin, &None);
    assert_eq!(sudo(&e, "ls"), strings(&["sudo", "--set-home", "ls"]));
}

#[test]
fn other_platform_adds_no_flags() {
    let e = Elevation::resolve(Platform::Other, &Some(HELP_WITH.as_bytes().to_vec()));
    assert_eq!(sudo(&e, "ls"), strings(&["sudo", "ls"]));
    assert!(!Platform::Other.probes_helper());
    assert!(Platform::Darwin.probes_helper());
}

#[test]
fn wrap_always_prepends_helper() {
    let e = Elevation::resolve(Platform::Darwin, &None);
    let once = e.wrap(strings(&["nix", "build", ".#a"]));
    assert_eq!(once, strings(&["sudo", "--set-home", "nix", "build", ".#a"]));
    assert_eq!(
        e.wrap(once),
        strings(&["sudo", "--set-home", "sudo", "--set-home", "nix", "build", ".#a"])
    );
    let plain = Elevation::resolve(Platform::Other, &None);
    assert_eq!(sudo(&plain, "sudo"), strings(&["sudo", "sudo"]));
}

#[test]
fn wrap_keeps_arguments_in_order() {
    let e = Elevation::resolve(Platform::Other, &None);
    assert_eq!(
        e.wrap(strings(&["cp", "b", "a", "b"])),
        strings(&["sudo", "cp", "b", "a", "b"])
    );
}

#[test]
fn substring_search_edges() {
    assert!(contains_slice(b"abc", b""));
    assert!(contains_slice(b"", b""));
    assert!(!contains_slice(b"", b"a"));
    assert!(!contains_slice(b"ab", b"abc"));
    assert!(contains_slice(b"xxabc", b"abc"));
    assert!(contains_slice(b"abcxx", b"abc"));
    assert!(!contains_slice(b"abxabyc", b"abc"));
    assert!(supports_preserve_env(b"--preserve-env"));
    assert!(!supports_preserve_env(b"--preserve-en"));
    assert!(!supports_preserve_env(b"--PRESERVE-ENV"));
}

#[test]
fn helper_named_command_is_still_wrapped() {
    let with = Elevation::resolve(Platform::Darwin, &Some(HELP_WITH.as_bytes().to_vec()));
    assert_eq!(
        sudo(&with, "sudo"),
        strings(&["sudo", "--set-home", "--preserve-env=PATH", "env", "sudo"])
    );
    let without = Elevation::resolve(Platform::Darwin, &None);
    assert_eq!(sudo(&without, "sudo"), strings(&["sudo", "--set-home", "sudo"]));
}

#[test]
fn wrap_prepends_before_a_leading_helper() {
    let e = Elevation::resolve(Platform::Darwin, &None);
    assert_eq!(
        e.wrap(strings(&["sudo", "ls"])),
        strings(&["sudo", "--set-home", "sudo", "ls"])
    );
}

#[test]
fn probe_outcome_keeps_only_clean_exits() {
    let out = HELP_WITH.as_bytes().to_vec();
    assert_eq!(probe_outcome(ExitStatus::Exited(0), out.clone()), Some(out.clone()));
    assert_eq!(probe_outcome(ExitStatus::Exited(1), out.clone()), None);
    assert_eq!(probe_outcome(ExitStatus::Signaled(15), out.clone()), None);
    let failed = probe_outcome(ExitStatus::Exited(1), out);
    let e = Elevation::resolve(Platform::Darwin, &failed);
    assert_eq!(sudo(&e, "ls"), strings(&["sudo", "--set-home", "ls"]));
}

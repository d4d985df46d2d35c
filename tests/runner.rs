use nh::command::Command;
use nh::elevation::{Elevation, Platform};
use nh::process::{CommandError, ExitStatus, ProcessFailure, Stream};

fn strings(v: &[&str]) -> Vec<String> {
    v.iter().map(|s| s.to_string()).collect()
}

#[test]
fn arguments_keep_insertion_order() {
    let c = Command::new("echo")
        .arg("b")
        .args(&strings(&["a", "b", "a"]))
        .arg("c");
    assert_eq!(c.command_line(), strings(&["echo", "b", "a", "b", "a", "c"]));
}

#[test]
fn new_command_has_no_arguments() {
    let c = Command::new("true");
    assert_eq!(c.command_line(), strings(&["true"]));
    assert!(!c.is_elevated());
    let inv = c.run(&Elevation::resolve(Platform::Other, &None));
    assert!(inv.spawn);
    assert!(inv.message.is_none());
}

#[test]
fn run_inherits_both_streams() {
    let c = Command::new("ls").arg("-l").message("Listing");
    let inv = c.run(&Elevation::resolve(Platform::Other, &None));
    assert_eq!(inv.argv, strings(&["ls", "-l"]));
    assert_eq!(inv.stdout, Stream::Inherit);
    assert_eq!(inv.stderr, Stream::Inherit);
    assert_eq!(inv.message.as_deref(), Some("Listing"));
    assert!(inv.spawn);
}

#[test]
fn elevated_run_goes_through_helper() {
    let c = Command::new("ln").args(&strings(&["-s", "a", "b"])).elevate(true);
    assert!(c.is_elevated());
    let inv = c.run(&Elevation::resolve(Platform::Darwin, &None));
    assert_eq!(inv.argv, strings(&["sudo", "--set-home", "ln", "-s", "a", "b"]));
}

#[test]
fn dry_run_spawns_nothing_and_succeeds() {
    let c = Command::new("rm").arg("x").dry(true).elevate(true);
    let inv = c.run(&Elevation::resolve(Platform::Other, &None));
    assert!(!inv.spawn);
    assert_eq!(inv.argv, strings(&["sudo", "rm", "x"]));
    assert!(c.finish_run(None).is_ok());
}

#[test]
fn dry_capture_gives_no_output() {
    let c = Command::new("echo").arg("hello").dry(true);
    let inv = c.run_capture();
    assert!(!inv.spawn);
    assert_eq!(c.finish_capture(None).unwrap(), None);
}

#[test]
fn capture_returns_text_verbatim() {
    let c = Command::new("echo").arg("hello");
    let inv = c.run_capture();
    assert!(inv.spawn);
    assert_eq!(inv.stdout, Stream::Pipe);
    assert_eq!(inv.stderr, Stream::Inherit);
    let out = c.finish_capture(Some(Ok("hello\n".to_string()))).unwrap();
    assert_eq!(out, Some("hello\n".to_string()));
}

#[test]
fn capture_of_empty_output_is_not_none() {
    let c = Command::new("true");
    assert_eq!(c.finish_capture(Some(Ok(String::new()))).unwrap(), Some(String::new()));
}

#[test]
fn capture_is_never_elevated() {
    let c = Command::new("whoami").elevate(true);
    assert_eq!(c.run_capture().argv, strings(&["whoami"]));
}

#[test]
fn nonzero_exit_is_swallowed_by_plain_run() {
    let c = Command::new("false");
    assert!(c.finish_run(Some(Ok(ExitStatus::Exited(1)))).is_ok());
    assert!(c.finish_run(Some(Ok(ExitStatus::Signaled(9)))).is_ok());
}

#[test]
fn spawn_failure_carries_message() {
    let c = Command::new("no-such-program").message("Doing things");
    match c.finish_run(Some(Err(ProcessFailure::Spawn("not found".to_string())))) {
        Err(CommandError::Spawn { context, detail }) => {
            assert_eq!(context.as_deref(), Some("Doing things"));
            assert_eq!(detail, "not found");
        }
        other => panic!("unexpected {:?}", other),
    }
}

#[test]
fn capture_wait_failure_is_capture_error() {
    let c = Command::new("cat");
    match c.finish_capture(Some(Err(ProcessFailure::Wait("broken pipe".to_string())))) {
        Err(CommandError::Capture { context, detail }) => {
            assert_eq!(context, None);
            assert_eq!(detail, "broken pipe");
        }
        other => panic!("unexpected {:?}", other),
    }
}

#[test]
fn probe_only_for_real_elevated_runs_on_darwin() {
    let c = Command::new("ls").elevate(true);
    assert!(c.needs_probe(Platform::Darwin));
    assert!(!c.needs_probe(Platform::Other));
    let dry = Command::new("ls").elevate(true).dry(true);
    assert!(!dry.needs_probe(Platform::Darwin));
    assert!(!Command::new("ls").needs_probe(Platform::Darwin));
}

#[test]
fn elevating_twice_wraps_once() {
    let e = Elevation::resolve(Platform::Darwin, &None);
    let once = Command::new("ls").arg("-l").elevate(true).run(&e).argv;
    let twice = Command::new("ls").arg("-l").elevate(true).elevate(true).run(&e).argv;
    assert_eq!(once, strings(&["sudo", "--set-home", "ls", "-l"]));
    assert_eq!(twice, once);
    assert_eq!(twice.iter().filter(|t| t.as_str() == "sudo").count(), 1);
}

#[test]
fn elevated_helper_named_command_matches_sudo() {
    let e = Elevation::resolve(Platform::Darwin, &None);
    let argv = Command::new("sudo").arg("--set-home").elevate(true).run(&e).argv;
    let mut expected = nh::elevation::sudo(&e, "sudo");
    expected.push("--set-home".to_string());
    assert_eq!(argv, expected);
    assert_eq!(argv, strings(&["sudo", "--set-home", "sudo", "--set-home"]));
}

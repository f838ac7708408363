use build_wrap::command::{cargo_build, which_command, which_path};
use build_wrap::exec::{exec, exit_status, Spawned};
use build_wrap::model::{CommandSpec, Output, WrapError};
use build_wrap::shim::{shim_command, split_ascii_words};
use build_wrap::text::ToUtf8;

fn spec(program: &str) -> CommandSpec {
    CommandSpec { program: program.as_bytes().to_vec(), args: vec![] }
}

fn output(code: Option<i32>, stdout: &str, stderr: &str) -> Output {
    Output { code, stdout: stdout.as_bytes().to_vec(), stderr: stderr.as_bytes().to_vec() }
}

#[test]
fn spawn_failure_is_reported() {
    let r = exec(spec("/nonexistent/program"), Spawned::Failed, true);
    assert!(matches!(r, Err(WrapError::SpawnFailed)));
    assert_eq!(exit_status(&r), 1);
}

#[test]
fn failed_helper_status_and_stderr_propagate() {
    let r = exec(spec("helper"), Spawned::Finished(output(Some(7), "", "oops")), true);
    match &r {
        Err(WrapError::CommandFailed(command, o)) => {
            assert_eq!(command.program, b"helper".to_vec());
            assert_eq!(o.stderr, b"oops".to_vec());
        }
        _ => panic!("expected a command failure"),
    }
    assert_eq!(exit_status(&r), 7);
}

#[test]
fn failure_not_required_to_succeed_is_ok() {
    let r = exec(spec("helper"), Spawned::Finished(output(Some(3), "out", "")), false);
    assert_eq!(r.as_ref().unwrap().stdout, b"out".to_vec());
    assert_eq!(exit_status(&r), 3);
}

#[test]
fn signal_ends_required_command_with_failure() {
    let r = exec(spec("helper"), Spawned::Finished(output(None, "", "")), true);
    assert!(matches!(r, Err(WrapError::CommandFailed(_, _))));
    assert_eq!(exit_status(&r), 1);
}

#[test]
fn success_is_ok() {
    let r = exec(spec("helper"), Spawned::Finished(output(Some(0), "cargo:rerun-if-changed=x", "")), true);
    assert!(r.is_ok());
    assert_eq!(exit_status(&r), 0);
}

#[test]
fn words_split_at_ascii_white_space() {
    let words = split_ascii_words(b"  bwrap\t--ro-bind / /\n  ");
    assert_eq!(words, vec![b"bwrap".to_vec(), b"--ro-bind".to_vec(), b"/".to_vec(), b"/".to_vec()]);
    assert!(split_ascii_words(b" \r\n\x0c\t").is_empty());
    assert!(split_ascii_words(b"").is_empty());
}

#[test]
fn shim_command_appends_unpacked_path() {
    let cmd = shim_command(Some(b"sandbox -q  --net=none"), b"/tmp/.tmpAbc").unwrap();
    assert_eq!(cmd.program, b"sandbox".to_vec());
    assert_eq!(cmd.args, vec![b"-q".to_vec(), b"--net=none".to_vec(), b"/tmp/.tmpAbc".to_vec()]);
}

#[test]
fn shim_command_needs_configuration() {
    assert!(matches!(shim_command(None, b"/tmp/x"), Err(WrapError::MissingConfig)));
    assert!(matches!(shim_command(Some(b"   "), b"/tmp/x"), Err(WrapError::EmptyCommand)));
}

#[test]
fn cargo_build_command() {
    let default = cargo_build(None);
    assert_eq!(default.program, b"cargo".to_vec());
    assert_eq!(default.args, vec![b"build".to_vec(), b"-vv".to_vec()]);
    let chosen = cargo_build(Some(b"/opt/cargo".to_vec()));
    assert_eq!(chosen.program, b"/opt/cargo".to_vec());
}

#[test]
fn which_path_trims_output() {
    let command = which_command("cc");
    assert_eq!(command.program, b"which".to_vec());
    assert_eq!(command.args, vec![b"cc".to_vec()]);
    let path = which_path(command, output(Some(0), "/usr/bin/cc \n", "")).unwrap();
    assert_eq!(path, "/usr/bin/cc");
}

#[test]
fn which_path_failures() {
    let r = which_path(which_command("nope"), output(Some(1), "", "nope not found"));
    assert!(matches!(r, Err(WrapError::CommandFailed(_, _))));
    let bad = Output { code: Some(0), stdout: vec![0xff, 0xfe], stderr: vec![] };
    assert!(matches!(which_path(which_command("cc"), bad), Err(WrapError::InvalidPath)));
}

#[test]
fn to_utf8_reads_valid_paths_only() {
    let good: Vec<u8> = "/tmp/caf\u{e9}".as_bytes().to_vec();
    assert_eq!(good.to_utf8().unwrap(), "/tmp/caf\u{e9}");
    let bad: Vec<u8> = vec![b'/', 0xc3, b'x'];
    assert!(matches!(bad.to_utf8(), Err(WrapError::InvalidPath)));
}

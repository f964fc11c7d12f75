//! Invoking a test binary as a child process, and the argument conventions
//! of the binary introspection protocol (list mode and single-test mode).

use vstd::prelude::*;

verus! {

/// What came back from one child process that ran to completion: the exit
/// code when the platform reported one (a signal death reports none), and
/// the captured output streams decoded as text.
pub struct CapturedRun {
    pub exit_code: Option<i32>,
    pub stdout: String,
    pub stderr: String,
}

/// Relies on duct::cmd and duct::Expression::run (with stdout_capture,
/// stderr_capture, dir and unchecked): spawns `program` with `args` in
/// `cwd` (the caller's directory when None), waits for it to exit, and
/// captures both streams. With `unchecked`, a nonzero exit is an Ok result
/// carrying the code; Err is a launch failure. The result depends on the
/// machine and the binary, so nothing is promised of it.
#[verifier::external_body]
pub(crate) fn run_command_captured(program: &String, args: &Vec<String>, cwd: &Option<
    String,
>) -> Result<CapturedRun, String> {
    let expr = duct::cmd(program.as_str(), args);
    let expr = match cwd {
        Some(d) => expr.dir(d.as_str()),
        None => expr,
    };
    match expr.stdout_capture().stderr_capture().unchecked().run() {
        Ok(o) => Ok(
            CapturedRun {
                exit_code: o.status.code(),
                stdout: String::from_utf8_lossy(&o.stdout).into_owned(),
                stderr: String::from_utf8_lossy(&o.stderr).into_owned(),
            },
        ),
        Err(e) => Err(e.to_string()),
    }
}

/// Relies on std::time::SystemTime::now, converted to milliseconds since
/// the Unix epoch: reads the clock, for wall-clock durations. What it
/// returns depends on the moment of the call, so nothing is promised of it.
#[verifier::external_body]
pub(crate) fn now_millis() -> u64 {
    match std::time::SystemTime::now().duration_since(std::time::UNIX_EPOCH) {
        Ok(d) => d.as_millis() as u64,
        Err(_) => 0,
    }
}

/// The arguments that put a binary into list mode; with `ignored`, it lists
/// its ignored tests instead of the default set.
pub fn list_args(ignored: bool) -> (v: Vec<String>)
    ensures
        v@.len() == (if ignored {
            4int
        } else {
            3int
        }),
        v.deep_view()[0] == "--list"@,
        v.deep_view()[1] == "--format"@,
        v.deep_view()[2] == "terse"@,
        ignored ==> v.deep_view()[3] == "--ignored"@,
{
    let mut v: Vec<String> = Vec::new();
    v.push(String::from_str("--list"));
    v.push(String::from_str("--format"));
    v.push(String::from_str("terse"));
    if ignored {
        v.push(String::from_str("--ignored"));
    }
    v
}

/// The arguments that run exactly one named test inside a binary; an
/// ignored test additionally needs the ignored flag to run at all.
pub fn single_test_args(name: &String, ignored: bool) -> (v: Vec<String>)
    ensures
        v@.len() == (if ignored {
            3int
        } else {
            2int
        }),
        v.deep_view()[0] == "--exact"@,
        v.deep_view()[1] == name@,
        ignored ==> v.deep_view()[2] == "--ignored"@,
{
    let mut v: Vec<String> = Vec::new();
    v.push(String::from_str("--exact"));
    v.push(name.clone());
    if ignored {
        v.push(String::from_str("--ignored"));
    }
    v
}

} // verus!

//! Running a command line through the system shell and classifying the
//! outcome.
use vstd::prelude::*;
use crate::error::ErrorKind;
use crate::error::ShellError;

verus! {

/// Relies on shells::execute_with: runs the command line with `sh -c`, blocks
/// until the process exits, and returns its exit code and the captured
/// standard output and standard error, decoded as text. On a spawn failure it
/// returns code 126 with the operating-system error text as standard error,
/// so it never panics. The outcome depends on the host, so nothing is assumed
/// of the returned values.
#[verifier::external_body]
fn run_shell(cmd: &String) -> (i32, String, String) {
    shells::execute_with("sh", cmd)
}

/// Classifies a finished command: exit code zero yields the captured standard
/// output unchanged; any other exit code yields a `ShellError` carrying the
/// command line, the exit code, both captured streams, and the tracking
/// identifier.
pub fn classify_output(
    cmd: &str,
    error_id: &str,
    code: i32,
    stdout: String,
    stderr: String,
) -> (r: Result<String, ShellError>)
    ensures
        code == 0 ==> (r matches Ok(out) && out@ == stdout@),
        code != 0 ==> (r matches Err(e) && e.command@ == cmd@ && e.exit_code == code && e.stderr@
            == stderr@ && e.stdout@ == stdout@ && e.error_id@ == error_id@ && e.kind
            == ErrorKind::NonZeroExit),
{
    if code == 0 {
        Ok(stdout)
    } else {
        Err(ShellError::new(String::from_str(cmd), code, stderr, stdout, error_id))
    }
}

/// Runs a fully formatted command line through the system shell. The command
/// is handed to the shell verbatim: no parsing, quoting or escaping happens
/// here. Success returns the captured standard output exactly as emitted;
/// failure returns a `ShellError` that names this command line and tracking
/// identifier and carries the non-zero exit code.
pub fn execute_command(cmd: &str, error_id: &str) -> (r: Result<String, ShellError>)
    ensures
        r matches Err(e) ==> e.command@ == cmd@ && e.error_id@ == error_id@ && e.exit_code != 0
            && e.kind == ErrorKind::NonZeroExit,
{
    let command = String::from_str(cmd);
    let (code, stdout, stderr) = run_shell(&command);
    classify_output(cmd, error_id, code, stdout, stderr)
}

} // verus!

//! Classifying the outcome of a deadline-bounded command run. The racing of
//! the process against the deadline happens at the program edge; it hands the
//! outcome in as a plain value.
use vstd::prelude::*;
use crate::error::ErrorKind;
use crate::error::ShellError;
use crate::exec::classify_output;

verus! {

/// Exit code reported for a run that was terminated at its deadline, by the
/// shell convention for killed-by-timeout commands.
pub const TIMEOUT_EXIT_CODE: i32 = 124;

/// What a deadline-bounded run produced: either the process finished first,
/// with its exit code and captured streams, or the deadline elapsed first and
/// the process was terminated.
pub enum TimedOutcome {
    Finished { exit_code: i32, stdout: String, stderr: String },
    TimedOut,
}

/// Classifies a deadline-bounded run. A finished process is classified
/// exactly as an untimed one: exit code zero yields its standard output,
/// anything else a `NonZeroExit` error. An elapsed deadline never yields
/// success: it gives a `ShellError` of the distinct kind `Timeout`, carrying
/// the configured limit, the command line, the tracking identifier, the
/// timeout sentinel exit code, and empty streams (partial output is
/// discarded).
pub fn classify_timed_outcome(
    cmd: &str,
    error_id: &str,
    limit_ms: u64,
    outcome: TimedOutcome,
) -> (r: Result<String, ShellError>)
    ensures
        outcome matches TimedOutcome::Finished { exit_code, stdout, stderr } ==> {
            &&& exit_code == 0 ==> (r matches Ok(out) && out@ == stdout@)
            &&& exit_code != 0 ==> (r matches Err(e) && e.command@ == cmd@ && e.exit_code
                == exit_code && e.stderr@ == stderr@ && e.stdout@ == stdout@ && e.error_id@
                == error_id@ && e.kind == ErrorKind::NonZeroExit)
        },
        outcome is TimedOut ==> (r matches Err(e) && e.command@ == cmd@ && e.error_id@ == error_id@
            && e.exit_code == TIMEOUT_EXIT_CODE && e.stdout@.len() == 0 && e.stderr@.len() == 0
            && e.kind == (ErrorKind::Timeout { limit_ms })),
{
    match outcome {
        TimedOutcome::Finished { exit_code, stdout, stderr } => classify_output(
            cmd,
            error_id,
            exit_code,
            stdout,
            stderr,
        ),
        TimedOutcome::TimedOut => Err(
            ShellError {
                command: String::from_str(cmd),
                exit_code: TIMEOUT_EXIT_CODE,
                stderr: String::new(),
                stdout: String::new(),
                error_id: String::from_str(error_id),
                kind: ErrorKind::Timeout { limit_ms },
            },
        ),
    }
}

/// A timed run that hit its deadline is never reported as a normal
/// completion: its error kind is `Timeout`, which no finished process, fast
/// or failing, ever carries.
pub proof fn lemma_timeout_is_distinct(limit_ms: u64)
    ensures
        (ErrorKind::Timeout { limit_ms }) != ErrorKind::NonZeroExit,
        (ErrorKind::Timeout { limit_ms }) != ErrorKind::MissingEnv,
{
}

} // verus!

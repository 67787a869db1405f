//! Classifying an environment-variable lookup: the lookup itself happens at
//! the program edge, which hands its result in as a plain `Option`.
use vstd::prelude::*;
use crate::error::ErrorKind;
use crate::error::ShellError;

verus! {

/// Turns the result of looking up an environment variable into the library's
/// result shape. A present value is returned unchanged. A missing variable
/// yields a `ShellError` of kind `MissingEnv` whose exit code is the sentinel
/// zero (no process ran), whose standard output is empty, and whose standard
/// error names the variable.
pub fn get_env(name: &str, error_id: &str, value: Option<String>) -> (r: Result<String, ShellError>)
    ensures
        value matches Some(v) ==> (r matches Ok(out) && out@ == v@),
        value is None ==> (r matches Err(e) && e.command@ == "shell-exec: get_env("@ + name@ + ")"@
            && e.exit_code == 0 && e.stdout@.len() == 0 && e.stderr@
            == "Environment variable '"@ + name@ + "' is not defined."@ && e.error_id@ == error_id@
            && e.kind == ErrorKind::MissingEnv),
{
    match value {
        Some(v) => Ok(v),
        None => {
            let mut command = String::from_str("shell-exec: get_env(");
            command.append(name);
            command.append(")");
            let mut stderr = String::from_str("Environment variable '");
            stderr.append(name);
            stderr.append("' is not defined.");
            Err(
                ShellError {
                    command,
                    exit_code: 0,
                    stderr,
                    stdout: String::new(),
                    error_id: String::from_str(error_id),
                    kind: ErrorKind::MissingEnv,
                },
            )
        },
    }
}

} // verus!

//! Structured error for a failed shell command, with a deterministic
//! human-readable rendering.
use vstd::prelude::*;
use crate::digits::dec_digits;
use crate::digits::int_str;
use crate::digits::i32_to_string;
use crate::digits::u64_to_string;

verus! {

/// Which failure produced a `ShellError`: a command that exited non-zero, a
/// timed run that hit its deadline (carrying the configured limit in
/// milliseconds), or an environment variable that was not set.
#[derive(Debug, Clone, PartialEq, Eq, Structural)]
pub enum ErrorKind {
    NonZeroExit,
    Timeout { limit_ms: u64 },
    MissingEnv,
}

/// Error describing a failed shell command: the command line that ran, its
/// exit code, the captured standard streams, a caller-supplied tracking
/// identifier that correlates the failure with its call site, and the failure
/// kind.
#[derive(Debug, Clone)]
pub struct ShellError {
    pub command: String,
    pub exit_code: i32,
    pub stderr: String,
    pub stdout: String,
    pub error_id: String,
    pub kind: ErrorKind,
}

/// The deadline line of the rendering: present only for a timeout failure.
pub open spec fn spec_timeout_line(e: ShellError) -> Seq<char> {
    match e.kind {
        ErrorKind::Timeout { limit_ms } => "sh_exec Timeout:   "@ + dec_digits(
            limit_ms as nat,
        ) + " ms\n"@,
        _ => Seq::<char>::empty(),
    }
}

/// The fixed part of the rendering: failure marker, command text, exit code,
/// tracking identifier, and the deadline line for a timeout.
pub open spec fn spec_head(e: ShellError) -> Seq<char> {
    "Command failed: '"@ + e.command@ + "'\nsh_exec Exit code: "@ + int_str(
        e.exit_code as int,
    ) + "\nsh_exec Error ID:  "@ + e.error_id@ + "\n"@ + spec_timeout_line(e)
}

/// The captured-standard-output section: empty when nothing was captured.
pub open spec fn spec_stdout_block(e: ShellError) -> Seq<char> {
    if e.stdout@.len() == 0 {
        Seq::<char>::empty()
    } else {
        "Standard output:\n"@ + e.stdout@ + "\n"@
    }
}

/// The captured-standard-error section: empty when nothing was captured.
pub open spec fn spec_stderr_block(e: ShellError) -> Seq<char> {
    if e.stderr@.len() == 0 {
        Seq::<char>::empty()
    } else {
        "Standard error:\n"@ + e.stderr@ + "\n"@
    }
}

/// The complete rendering: head, then the stream sections, each omitted when
/// its stream is empty.
pub open spec fn spec_render(e: ShellError) -> Seq<char> {
    spec_head(e) + spec_stdout_block(e) + spec_stderr_block(e)
}

impl ShellError {
    /// Creates an error for a command that exited with a non-zero code.
    pub fn new(
        command: String,
        exit_code: i32,
        stderr: String,
        stdout: String,
        error_id: &str,
    ) -> (r: ShellError)
        ensures
            r.command@ == command@,
            r.exit_code == exit_code,
            r.stderr@ == stderr@,
            r.stdout@ == stdout@,
            r.error_id@ == error_id@,
            r.kind == ErrorKind::NonZeroExit,
    {
        ShellError {
            command,
            exit_code,
            stderr,
            stdout,
            error_id: String::from_str(error_id),
            kind: ErrorKind::NonZeroExit,
        }
    }

    /// Renders the error as deterministic multi-line text.
    pub fn render(&self) -> (r: String)
        ensures
            r@ == spec_render(*self),
    {
        let mut out = String::from_str("Command failed: '");
        out.append(self.command.as_str());
        out.append("'\nsh_exec Exit code: ");
        out.append(i32_to_string(self.exit_code).as_str());
        out.append("\nsh_exec Error ID:  ");
        out.append(self.error_id.as_str());
        out.append("\n");
        match &self.kind {
            ErrorKind::Timeout { limit_ms } => {
                out.append("sh_exec Timeout:   ");
                out.append(u64_to_string(*limit_ms).as_str());
                out.append(" ms\n");
            },
            _ => {},
        }
        proof {
            assert(out@ =~= spec_head(*self));
        }
        if !self.stdout.as_str().is_empty() {
            out.append("Standard output:\n");
            out.append(self.stdout.as_str());
            out.append("\n");
        }
        proof {
            assert(out@ =~= spec_head(*self) + spec_stdout_block(*self));
        }
        if !self.stderr.as_str().is_empty() {
            out.append("Standard error:\n");
            out.append(self.stderr.as_str());
            out.append("\n");
        }
        proof {
            assert(out@ =~= spec_render(*self));
        }
        out
    }
}

/// The tracking identifier round-trips into the rendered text: the rendering
/// contains it whole, as a contiguous slice.
pub proof fn lemma_tracking_id_in_render(e: ShellError)
    ensures
        exists|i: int|
            0 <= i && i + e.error_id@.len() <= spec_render(e).len() && #[trigger] spec_render(
                e,
            ).subrange(i, i + e.error_id@.len() as int) == e.error_id@,
{
    let prefix = "Command failed: '"@ + e.command@ + "'\nsh_exec Exit code: "@ + int_str(
        e.exit_code as int,
    ) + "\nsh_exec Error ID:  "@;
    let i = prefix.len() as int;
    assert(spec_render(e).subrange(i, i + e.error_id@.len() as int) =~= e.error_id@);
}

/// Rendering is idempotent: the text is a function of the error value alone,
/// so rendering the same value twice yields identical text.
pub proof fn lemma_render_deterministic(e1: ShellError, e2: ShellError)
    requires
        e1 == e2,
    ensures
        spec_render(e1) == spec_render(e2),
{
}

/// When the captured standard output is empty, the rendering omits the
/// standard-output section entirely.
pub proof fn lemma_render_omits_empty_stdout(e: ShellError)
    requires
        e.stdout@.len() == 0,
    ensures
        spec_render(e) == spec_head(e) + spec_stderr_block(e),
{
    assert(spec_render(e) =~= spec_head(e) + spec_stderr_block(e));
}

/// When the captured standard error is empty, the rendering omits the
/// standard-error section entirely.
pub proof fn lemma_render_omits_empty_stderr(e: ShellError)
    requires
        e.stderr@.len() == 0,
    ensures
        spec_render(e) == spec_head(e) + spec_stdout_block(e),
{
    assert(spec_render(e) =~= spec_head(e) + spec_stdout_block(e));
}

} // verus!

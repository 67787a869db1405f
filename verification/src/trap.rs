//! Decision logic for the top-level guard of a command-line program: which
//! process exit code each outcome of the guarded body earns, and the
//! diagnostic text printed on the failure paths. Catching the unwind and
//! terminating the process happen at the program edge.
use vstd::prelude::*;

verus! {

/// Process exit code for a body that returned an application error.
pub const ERROR_EXIT_CODE: i32 = 1;

/// Process exit code for a body that was caught unwinding.
pub const PANIC_EXIT_CODE: i32 = 101;

/// How the guarded body ended: it returned a value, it returned an
/// application error, or it unwound and was caught.
#[derive(Debug, Clone, PartialEq, Eq, Structural)]
pub enum BodyOutcome {
    Completed,
    Failed,
    Panicked,
}

/// The process exit code owed to an outcome: none for a completed body (the
/// value is returned and the process goes on), a distinct non-zero code for
/// each of the two failure classes.
pub open spec fn spec_trap_exit_code(o: BodyOutcome) -> Option<int> {
    match o {
        BodyOutcome::Completed => None,
        BodyOutcome::Failed => Some(ERROR_EXIT_CODE as int),
        BodyOutcome::Panicked => Some(PANIC_EXIT_CODE as int),
    }
}

/// Maps an outcome of the guarded body to the process exit code it owes;
/// `None` means the process is not terminated.
pub fn trap_exit_code(o: &BodyOutcome) -> (r: Option<i32>)
    ensures
        match r {
            Some(c) => spec_trap_exit_code(*o) == Some(c as int),
            None => spec_trap_exit_code(*o) is None,
        },
        *o is Completed <==> r is None,
{
    match o {
        BodyOutcome::Completed => None,
        BodyOutcome::Failed => Some(ERROR_EXIT_CODE),
        BodyOutcome::Panicked => Some(PANIC_EXIT_CODE),
    }
}

/// The two failure classes stay distinguishable: a reported application
/// error and a trapped panic terminate the process with different, and both
/// non-zero, exit codes, and a completed body terminates it with neither.
pub proof fn lemma_failure_codes_distinct()
    ensures
        spec_trap_exit_code(BodyOutcome::Failed) != spec_trap_exit_code(BodyOutcome::Panicked),
        spec_trap_exit_code(BodyOutcome::Failed) != Some(0int),
        spec_trap_exit_code(BodyOutcome::Panicked) != Some(0int),
        spec_trap_exit_code(BodyOutcome::Completed) is None,
{
}

/// Read-only program metadata gathered once at program entry from build-time
/// package information, and injected into the diagnostic rendering.
#[derive(Debug, Clone)]
pub struct ProgramInfo {
    pub name: String,
    pub version: String,
    pub authors: String,
    pub description: String,
    pub homepage: String,
    pub repository: String,
}

/// The diagnostic block naming the program, printed before a reported
/// application error.
pub open spec fn spec_info_block(info: ProgramInfo) -> Seq<char> {
    "Version: "@ + info.version@ + "\nName: "@ + info.name@ + "\nAuthors: "@ + info.authors@
        + "\nDescription: "@ + info.description@ + "\nHomepage: "@ + info.homepage@
        + "\nRepository: "@ + info.repository@ + "\n"@
}

/// The report printed when the guarded body returns an application error:
/// the program metadata block followed by the error's own text.
pub open spec fn spec_failure_report(info: ProgramInfo, error_text: Seq<char>) -> Seq<char> {
    spec_info_block(info) + error_text + "\n"@
}

/// The report printed when the guarded body unwinds: it names the tracking
/// identifier and a fixed secondary code, so the failure can be correlated
/// with its call site.
pub open spec fn spec_panic_report(tracking_id: Seq<char>) -> Seq<char> {
    "Error id: "@ + tracking_id + ", 31963-28837-7387. Error: Application panicked!\n"@
}

impl ProgramInfo {
    /// Gathers the six metadata fields into one value.
    pub fn new(
        name: String,
        version: String,
        authors: String,
        description: String,
        homepage: String,
        repository: String,
    ) -> (r: ProgramInfo)
        ensures
            r.name@ == name@,
            r.version@ == version@,
            r.authors@ == authors@,
            r.description@ == description@,
            r.homepage@ == homepage@,
            r.repository@ == repository@,
    {
        ProgramInfo { name, version, authors, description, homepage, repository }
    }
}

/// Builds the report for a reported application error.
pub fn failure_report(info: &ProgramInfo, error_text: &str) -> (r: String)
    ensures
        r@ == spec_failure_report(*info, error_text@),
{
    let mut out = String::from_str("Version: ");
    out.append(info.version.as_str());
    out.append("\nName: ");
    out.append(info.name.as_str());
    out.append("\nAuthors: ");
    out.append(info.authors.as_str());
    out.append("\nDescription: ");
    out.append(info.description.as_str());
    out.append("\nHomepage: ");
    out.append(info.homepage.as_str());
    out.append("\nRepository: ");
    out.append(info.repository.as_str());
    out.append("\n");
    out.append(error_text);
    out.append("\n");
    proof {
        assert(out@ =~= spec_failure_report(*info, error_text@));
    }
    out
}

/// Builds the report for a trapped panic.
pub fn panic_report(tracking_id: &str) -> (r: String)
    ensures
        r@ == spec_panic_report(tracking_id@),
{
    let mut out = String::from_str("Error id: ");
    out.append(tracking_id);
    out.append(", 31963-28837-7387. Error: Application panicked!\n");
    proof {
        assert(out@ =~= spec_panic_report(tracking_id@));
    }
    out
}

} // verus!

//! Shell-command execution helpers: run a command line through the system
//! shell, capture its exit code and output streams, turn failures into
//! structured errors tagged with a caller-supplied tracking identifier, and
//! classify the outcomes of timed runs and guarded program bodies.
pub mod digits;
pub mod envvar;
pub mod error;
pub mod exec;
pub mod template;
pub mod timed;
pub mod trap;

pub use envvar::get_env;
pub use error::ErrorKind;
pub use error::ShellError;
pub use exec::classify_output;
pub use exec::execute_command;
pub use template::format_command;
pub use timed::TimedOutcome;
pub use timed::classify_timed_outcome;
pub use trap::BodyOutcome;
pub use trap::ProgramInfo;
pub use trap::failure_report;
pub use trap::panic_report;
pub use trap::trap_exit_code;

use sh_exec::execute_command;
use sh_exec::format_command;
use sh_exec::ErrorKind;

#[test]
fn test_successful_command() {
    let output = execute_command("echo Hello World", "8923-2323-2323").unwrap();
    assert_eq!(output.trim(), "Hello World");
}

#[test]
fn test_successful_fmt() {
    let cmd = format_command("echo Hello World", &Vec::new(), &Vec::new()).unwrap();
    let output = execute_command(&cmd, "8923-2323-2323").unwrap();
    assert_eq!(output.trim(), "Hello World");
}

#[test]
fn test_successful_fmt2() {
    let cmd = format_command("echo {}", &vec!["Hello World".to_string()], &Vec::new()).unwrap();
    let output = execute_command(&cmd, "21236-28986-4446").unwrap();
    assert_eq!(output.trim(), "Hello World");
}

#[test]
fn test_failing_command() {
    let result = execute_command("nonexistent_command", "8923-2323-3289");
    assert!(result.is_err());
    let error = result.unwrap_err();
    assert_eq!(error.exit_code, 127);
    assert!(!error.stderr.is_empty());
}

#[test]
fn success_returns_stdout_exactly() {
    let output = execute_command("echo Hello World", "id-1").unwrap();
    assert_eq!(output, "Hello World\n");
}

#[test]
fn success_keeps_trailing_whitespace() {
    let output = execute_command("printf 'a \\n\\n'", "id-5").unwrap();
    assert_eq!(output, "a \n\n");
}

#[test]
fn missing_program_gives_127_and_stderr() {
    let result = execute_command("nonexistent_command_xyz", "id-2");
    let error = result.unwrap_err();
    assert_eq!(error.exit_code, 127);
    assert!(!error.stderr.is_empty());
    assert_eq!(error.command, "nonexistent_command_xyz");
    assert_eq!(error.error_id, "id-2");
    assert_eq!(error.kind, ErrorKind::NonZeroExit);
}

#[test]
fn failure_carries_real_exit_code_and_streams() {
    let error = execute_command("echo out; echo err 1>&2; exit 3", "id-6").unwrap_err();
    assert_eq!(error.exit_code, 3);
    assert_eq!(error.stdout, "out\n");
    assert_eq!(error.stderr, "err\n");
    assert_eq!(error.kind, ErrorKind::NonZeroExit);
}

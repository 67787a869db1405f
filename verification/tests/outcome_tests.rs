use sh_exec::classify_output;
use sh_exec::classify_timed_outcome;
use sh_exec::get_env;
use sh_exec::trap_exit_code;
use sh_exec::BodyOutcome;
use sh_exec::ErrorKind;
use sh_exec::TimedOutcome;

#[test]
fn classify_zero_exit_is_ok() {
    let r = classify_output("true", "id-c1", 0, "payload".to_string(), "noise".to_string());
    assert_eq!(r.unwrap(), "payload");
}

#[test]
fn classify_nonzero_exit_keeps_all_fields() {
    let r = classify_output("false", "id-c2", 2, "so".to_string(), "se".to_string());
    let e = r.unwrap_err();
    assert_eq!(e.command, "false");
    assert_eq!(e.exit_code, 2);
    assert_eq!(e.stdout, "so");
    assert_eq!(e.stderr, "se");
    assert_eq!(e.error_id, "id-c2");
    assert_eq!(e.kind, ErrorKind::NonZeroExit);
}

#[test]
fn timed_out_run_is_a_timeout_not_a_completion() {
    let r = classify_timed_outcome("sleep 5", "id-3", 1000, TimedOutcome::TimedOut);
    let e = r.unwrap_err();
    assert_eq!(e.kind, ErrorKind::Timeout { limit_ms: 1000 });
    assert_eq!(e.exit_code, 124);
    assert_eq!(e.command, "sleep 5");
    assert_eq!(e.error_id, "id-3");
    assert_eq!(e.stdout, "");
    assert_eq!(e.stderr, "");
}

#[test]
fn timed_finished_run_matches_untimed_classification() {
    let done = TimedOutcome::Finished {
        exit_code: 0,
        stdout: "fast\n".to_string(),
        stderr: String::new(),
    };
    let r = classify_timed_outcome("echo fast", "id-t1", 1000, done);
    assert_eq!(r.unwrap(), "fast\n");

    let failed = TimedOutcome::Finished {
        exit_code: 7,
        stdout: String::new(),
        stderr: "bad\n".to_string(),
    };
    let e = classify_timed_outcome("exit 7", "id-t2", 1000, failed).unwrap_err();
    assert_eq!(e.exit_code, 7);
    assert_eq!(e.kind, ErrorKind::NonZeroExit);
}

#[test]
fn get_env_present_returns_value_unchanged() {
    let r = get_env("SOME_VAR", "id-e1", Some("value ".to_string()));
    assert_eq!(r.unwrap(), "value ");
}

#[test]
fn get_env_missing_names_the_variable() {
    let e = get_env("DEFINITELY_UNSET_VAR", "id-4", None).unwrap_err();
    assert_eq!(e.stdout, "");
    assert_eq!(e.exit_code, 0);
    assert_eq!(e.error_id, "id-4");
    assert_eq!(e.kind, ErrorKind::MissingEnv);
    assert!(e.stderr.contains("DEFINITELY_UNSET_VAR"));
    assert_eq!(e.stderr, "Environment variable 'DEFINITELY_UNSET_VAR' is not defined.");
    assert_eq!(e.command, "shell-exec: get_env(DEFINITELY_UNSET_VAR)");
}

#[test]
fn trap_codes_distinguish_the_failure_classes() {
    assert_eq!(trap_exit_code(&BodyOutcome::Completed), None);
    assert_eq!(trap_exit_code(&BodyOutcome::Failed), Some(1));
    assert_eq!(trap_exit_code(&BodyOutcome::Panicked), Some(101));
    assert_ne!(
        trap_exit_code(&BodyOutcome::Failed),
        trap_exit_code(&BodyOutcome::Panicked)
    );
}

use script_race::config::{parse_worker_count, Config, StartupError, FAILURE_EXIT_STATUS};
use script_race::decimal::push_decimal;
use script_race::paths::{script_path, script_paths};
use script_race::script::{script_body, OWNER_EXECUTE, SCRIPT_MODE};
use script_race::worker::{
    advance, create_and_execute_script, fatal_report, Failure, Phase, WorkerError, TEXT_FILE_BUSY,
};

fn args(items: &[&str]) -> Vec<Vec<u8>> {
    items.iter().map(|s| s.as_bytes().to_vec()).collect()
}

fn failure(code: Option<i32>, text: &str) -> Failure {
    Failure { code, description: text.as_bytes().to_vec() }
}

fn decimal_of(n: usize) -> Vec<u8> {
    let mut out = Vec::new();
    push_decimal(&mut out, n);
    out
}

#[test]
fn decimal_notation_of_small_and_large_numbers() {
    assert_eq!(decimal_of(0), b"0".to_vec());
    assert_eq!(decimal_of(9), b"9".to_vec());
    assert_eq!(decimal_of(10), b"10".to_vec());
    assert_eq!(decimal_of(12345), b"12345".to_vec());
    assert_eq!(decimal_of(usize::MAX), usize::MAX.to_string().into_bytes());
}

#[test]
fn decimal_notation_appends_to_existing_bytes() {
    let mut out = b"x".to_vec();
    push_decimal(&mut out, 407);
    assert_eq!(out, b"x407".to_vec());
}

#[test]
fn worker_count_accepts_positive_decimals() {
    assert_eq!(parse_worker_count(&b"4".to_vec()), Ok(4));
    assert_eq!(parse_worker_count(&b"1".to_vec()), Ok(1));
    assert_eq!(parse_worker_count(&b"007".to_vec()), Ok(7));
    assert_eq!(parse_worker_count(&usize::MAX.to_string().into_bytes()), Ok(usize::MAX));
}

#[test]
fn worker_count_rejects_zero() {
    assert_eq!(parse_worker_count(&b"0".to_vec()), Err(StartupError::InvalidArgument));
    assert_eq!(parse_worker_count(&b"000".to_vec()), Err(StartupError::InvalidArgument));
}

#[test]
fn worker_count_rejects_non_numeric_text() {
    for text in ["", "abc", "3x", "x3", "-1", "+3", " 3", "3 ", "1_000", "2.5"] {
        assert_eq!(
            parse_worker_count(&text.as_bytes().to_vec()),
            Err(StartupError::InvalidArgument),
            "{text:?}"
        );
    }
}

#[test]
fn worker_count_rejects_overflow() {
    let mut too_big = usize::MAX.to_string().into_bytes();
    let last = too_big.len() - 1;
    too_big[last] += 1;
    assert_eq!(parse_worker_count(&too_big), Err(StartupError::InvalidArgument));
    let mut longer = usize::MAX.to_string().into_bytes();
    longer.push(b'0');
    assert_eq!(parse_worker_count(&longer), Err(StartupError::InvalidArgument));
}

#[test]
fn config_from_two_arguments() {
    let config = Config::from_args(&args(&["/tmp/race", "3"])).unwrap();
    assert_eq!(config.base_directory(), &b"/tmp/race".to_vec());
    assert_eq!(config.worker_count(), 3);
}

#[test]
fn config_ignores_further_arguments() {
    let config = Config::from_args(&args(&["/tmp/race", "2", "extra"])).unwrap();
    assert_eq!(config.worker_count(), 2);
}

#[test]
fn config_missing_arguments_is_invalid() {
    assert_eq!(Config::from_args(&args(&[])).err(), Some(StartupError::InvalidArgument));
    assert_eq!(Config::from_args(&args(&["/tmp/race"])).err(), Some(StartupError::InvalidArgument));
}

#[test]
fn config_zero_or_non_numeric_count_exits_with_one_and_no_paths() {
    for count in ["0", "many"] {
        let error = Config::from_args(&args(&["/tmp/race", count])).err().unwrap();
        assert_eq!(error, StartupError::InvalidArgument);
        assert_eq!(error.exit_status(), 1);
    }
    assert_eq!(FAILURE_EXIT_STATUS, 1);
}

#[test]
fn script_path_joins_directory_and_index() {
    assert_eq!(script_path(&b"/tmp/race".to_vec(), 0), b"/tmp/race/0".to_vec());
    assert_eq!(script_path(&b"/tmp/race/".to_vec(), 7), b"/tmp/race/7".to_vec());
    assert_eq!(script_path(&b"".to_vec(), 3), b"3".to_vec());
    assert_eq!(script_path(&b"dir".to_vec(), 10), b"dir/10".to_vec());
}

#[test]
fn config_script_paths_are_zero_to_count_minus_one() {
    let config = Config::from_args(&args(&["/tmp/race", "3"])).unwrap();
    assert_eq!(
        config.script_paths(),
        vec![b"/tmp/race/0".to_vec(), b"/tmp/race/1".to_vec(), b"/tmp/race/2".to_vec()]
    );
}

#[test]
fn script_paths_are_distinct() {
    let paths = script_paths(&b"d".to_vec(), 120);
    assert_eq!(paths.len(), 120);
    for i in 0..paths.len() {
        for j in 0..paths.len() {
            if i != j {
                assert_ne!(paths[i], paths[j]);
            }
        }
    }
    assert_eq!(paths[11], b"d/11".to_vec());
    assert_eq!(paths[101], b"d/101".to_vec());
}

#[test]
fn script_body_is_a_shell_shebang() {
    assert_eq!(script_body(), b"#!/bin/bash".to_vec());
}

#[test]
fn script_mode_is_owner_rwx() {
    assert_eq!(SCRIPT_MODE, 0o700);
    assert_eq!(SCRIPT_MODE & OWNER_EXECUTE, OWNER_EXECUTE);
    assert_eq!(SCRIPT_MODE & 0o077, 0);
}

#[test]
fn iteration_succeeds_when_both_steps_succeed() {
    assert!(create_and_execute_script(Ok(()), Some(Ok(()))).is_ok());
}

#[test]
fn iteration_reports_failed_creation() {
    let result = create_and_execute_script(Err(failure(Some(2), "No such file or directory")), None);
    match result {
        Err(WorkerError::ScriptCreationFailed { cause }) => {
            assert_eq!(cause.code, Some(2));
            assert_eq!(cause.description, b"No such file or directory".to_vec());
        }
        other => panic!("unexpected {other:?}"),
    }
}

#[test]
fn iteration_reports_busy_execution() {
    let busy = failure(Some(TEXT_FILE_BUSY), "Text file busy (os error 26)");
    let error = create_and_execute_script(Ok(()), Some(Err(busy))).err().unwrap();
    assert!(matches!(error, WorkerError::ExecutionFailed { .. }));
    assert!(error.is_resource_busy());
    assert_eq!(error.exit_status(), 1);
    assert_eq!(error.cause().code, Some(26));
}

#[test]
fn other_execution_failures_are_not_busy() {
    let denied = failure(Some(13), "Permission denied (os error 13)");
    let error = create_and_execute_script(Ok(()), Some(Err(denied))).err().unwrap();
    assert!(matches!(error, WorkerError::ExecutionFailed { .. }));
    assert!(!error.is_resource_busy());
    let no_code = create_and_execute_script(Ok(()), Some(Err(failure(None, "gone")))).err().unwrap();
    assert!(!no_code.is_resource_busy());
}

#[test]
fn busy_creation_failure_is_not_the_race() {
    let error =
        create_and_execute_script(Err(failure(Some(TEXT_FILE_BUSY), "busy")), None).err().unwrap();
    assert!(!error.is_resource_busy());
}

#[test]
fn phases_alternate_while_steps_succeed() {
    let mut phase = Phase::Writing;
    for step in 0..1000 {
        phase = advance(phase, Ok(()));
        if step % 2 == 0 {
            assert!(matches!(phase, Phase::Executing));
        } else {
            assert!(matches!(phase, Phase::Writing));
        }
    }
}

#[test]
fn failure_terminates_at_once_and_for_good() {
    let phase = advance(Phase::Writing, Ok(()));
    let phase = advance(phase, Ok(()));
    let phase = advance(phase, Err(failure(Some(2), "No such file or directory")));
    assert!(matches!(phase, Phase::Terminated(WorkerError::ScriptCreationFailed { .. })));
    let phase = advance(phase, Ok(()));
    let phase = advance(phase, Err(failure(Some(26), "busy")));
    match phase {
        Phase::Terminated(WorkerError::ScriptCreationFailed { cause }) => {
            assert_eq!(cause.code, Some(2));
        }
        other => panic!("unexpected {other:?}"),
    }
}

#[test]
fn execution_failure_terminates_from_executing() {
    let phase = advance(Phase::Executing, Err(failure(Some(26), "busy")));
    assert!(matches!(phase, Phase::Terminated(WorkerError::ExecutionFailed { .. })));
}

#[test]
fn fatal_report_names_path_and_cause() {
    let error = create_and_execute_script(
        Ok(()),
        Some(Err(failure(Some(26), "Text file busy (os error 26)"))),
    )
    .err()
    .unwrap();
    assert_eq!(
        fatal_report(&b"/tmp/race/1".to_vec(), &error),
        b"/tmp/race/1: Text file busy (os error 26)".to_vec()
    );
}

#[test]
fn fatal_report_for_removed_directory() {
    let error = create_and_execute_script(
        Err(failure(Some(2), "File creation failed: No such file or directory (os error 2)")),
        None,
    )
    .err()
    .unwrap();
    assert_eq!(
        fatal_report(&b"/tmp/gone/0".to_vec(), &error),
        b"/tmp/gone/0: File creation failed: No such file or directory (os error 2)".to_vec()
    );
}

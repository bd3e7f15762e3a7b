use artifact_builder::build::resolve_exit_status;
use artifact_builder::build::shell_command;
use artifact_builder::build::CommandError;

#[test]
fn exit_zero_succeeds() {
    assert_eq!(resolve_exit_status(Some(0)), Ok(()));
}

#[test]
fn nonzero_exit_carries_exact_code() {
    assert_eq!(resolve_exit_status(Some(2)), Err(CommandError::NonZeroExit(2)));
    assert_eq!(resolve_exit_status(Some(1)), Err(CommandError::NonZeroExit(1)));
    assert_eq!(resolve_exit_status(Some(127)), Err(CommandError::NonZeroExit(127)));
    assert_eq!(resolve_exit_status(Some(-9)), Err(CommandError::NonZeroExit(-9)));
}

#[test]
fn missing_status_is_a_distinct_error() {
    assert_eq!(resolve_exit_status(None), Err(CommandError::NoExitStatus));
}

#[test]
fn shell_command_runs_the_line_under_sh() {
    let c = shell_command("make -j8");
    assert_eq!(c.program, "sh");
    assert_eq!(c.args, vec!["-c".to_string(), "make -j8".to_string()]);
    assert!(c.envs.is_empty());
}

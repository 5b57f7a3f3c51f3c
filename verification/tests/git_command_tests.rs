use repo_metadata::git_command::{
    decimal, git_command_args, git_command_line, git_command_outcome, GitCommandError, GIT_COMMAND_TIMEOUT_SECS,
};

#[test]
fn arguments_start_with_fixed_options() {
    assert_eq!(
        git_command_args(&["diff", "--numstat"]),
        vec!["-c", "diff.autoRefreshIndex=false", "diff", "--numstat"]
    );
    assert_eq!(git_command_args(&[]), vec!["-c", "diff.autoRefreshIndex=false"]);
}

#[test]
fn command_line_joins_with_spaces() {
    assert_eq!(git_command_line(&["status", "--porcelain"]), "status --porcelain");
    assert_eq!(git_command_line(&["status"]), "status");
    assert_eq!(git_command_line(&[]), "");
}

#[test]
fn success_answers_with_stdout() {
    assert_eq!(git_command_outcome(true, Some(0), "out".to_string(), "".to_string()), Ok("out".to_string()));
    assert_eq!(git_command_outcome(true, None, "".to_string(), "".to_string()), Ok("".to_string()));
}

#[test]
fn diff_with_differences_is_success() {
    assert_eq!(git_command_outcome(false, Some(1), "d".to_string(), "".to_string()), Ok("d".to_string()));
}

#[test]
fn failures_carry_both_outputs() {
    let e = git_command_outcome(false, Some(1), "".to_string(), "bad".to_string()).unwrap_err();
    assert_eq!(e, GitCommandError::Failed { stderr: "bad".to_string(), stdout: "".to_string() });
    assert_eq!(e.message(), "Git command failed: bad, ");
    let e = git_command_outcome(false, Some(128), "x".to_string(), "fatal".to_string()).unwrap_err();
    assert_eq!(e.message(), "Git command failed: fatal, x");
    assert!(git_command_outcome(false, None, "x".to_string(), "".to_string()).is_err());
}

#[test]
fn timeout_and_spawn_messages() {
    let e = GitCommandError::timed_out(&["fetch", "origin"]);
    assert_eq!(e.message(), "git command timed out after 60s: git fetch origin");
    assert_eq!(GIT_COMMAND_TIMEOUT_SECS, 60);
    let e = GitCommandError::Spawn("not found".to_string());
    assert_eq!(e.message(), "Failed to execute git command: not found");
}

#[test]
fn decimal_digits() {
    assert_eq!(decimal(0), "0");
    assert_eq!(decimal(7), "7");
    assert_eq!(decimal(60), "60");
    assert_eq!(decimal(u64::MAX), u64::MAX.to_string());
}

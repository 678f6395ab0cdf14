use pyc::shell::proc::{ShellError, ShellState};

#[test]
fn test_proc_fmt_shell_error() {
    assert_eq!(
        ShellError::CouldNotStartProcess.message(),
        String::from("Could not start process")
    );
    assert_eq!(
        ShellError::InvalidData.message(),
        String::from("Invalid data from process")
    );
    assert_eq!(ShellError::IoTimeout.message(), String::from("I/O timeout"));
    assert_eq!(
        ShellError::PipeError(13).message(),
        format!("Pipe error: {}", 13)
    );
}

#[test]
fn test_proc_pipe_error_negative_errno() {
    assert_eq!(ShellError::PipeError(-1).message(), String::from("Pipe error: -1"));
}

#[test]
fn test_shell_states() {
    let state = ShellState::Idle;
    assert_ne!(state, ShellState::SubprocessRunning);
    assert_eq!(ShellState::Terminated, ShellState::Terminated);
}

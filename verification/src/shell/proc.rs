//! States and errors of a supervised shell process.

use vstd::prelude::*;
use vstd::string::StringExecFns;
use crate::textops::{dec_str_i, i32_to_dec};

verus! {

/// The state of one command session: waiting for a command, supervising a
/// running child process, or finished.
#[derive(Copy, Clone, PartialEq, Eq, Structural, Debug)]
pub enum ShellState {
    Idle,
    SubprocessRunning,
    Terminated,
}

/// An error of the process layer. `PipeError` carries the raw OS errno of
/// the failed channel operation.
#[derive(Copy, Clone, PartialEq, Eq, Structural, Debug)]
pub enum ShellError {
    CouldNotStartProcess,
    InvalidData,
    IoTimeout,
    PipeError(i32),
}

/// The message text of a `ShellError`.
pub open spec fn shell_error_message(e: ShellError) -> Seq<char> {
    match e {
        ShellError::CouldNotStartProcess => "Could not start process"@,
        ShellError::InvalidData => "Invalid data from process"@,
        ShellError::IoTimeout => "I/O timeout"@,
        ShellError::PipeError(errno) => "Pipe error: "@ + dec_str_i(errno as int),
    }
}

impl ShellError {
    /// Human-readable description of the error.
    pub fn message(&self) -> (r: String)
        ensures
            r@ == shell_error_message(*self),
    {
        match self {
            ShellError::CouldNotStartProcess => String::from_str("Could not start process"),
            ShellError::InvalidData => String::from_str("Invalid data from process"),
            ShellError::IoTimeout => String::from_str("I/O timeout"),
            ShellError::PipeError(errno) => {
                let mut s = String::from_str("Pipe error: ");
                let num = i32_to_dec(*errno);
                s.append(num.as_str());
                s
            },
        }
    }
}

} // verus!

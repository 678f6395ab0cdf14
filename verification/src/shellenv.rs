//! Supervision of a spawned child process: piped standard streams, polled
//! liveness with a cached exit status, signal delivery and forced
//! termination.
//!
//! The child itself lives in the `subprocess` crate and signals travel
//! through the `nix` crate; every call into them stands behind a trusted
//! wrapper, and everything decided about their results is verified here.

pub mod prompt;

use vstd::prelude::*;
use vstd::utf8::{decode_utf8, valid_utf8};
use crate::shell::proc::ShellError;
use crate::textops::{chars_vec, from_chars, trim_nul_chars, trim_nul_spec};

use std::io::Read;
use std::io::Write;

verus! {

#[verifier::external_type_specification]
#[verifier::external_body]
pub struct ExPopen(subprocess::Popen);

#[verifier::external_type_specification]
#[verifier::external_body]
pub struct ExExitStatus(subprocess::ExitStatus);

#[verifier::external_type_specification]
#[verifier::external_body]
pub struct ExSignal(nix::sys::signal::Signal);

/// How a child process ended, one case for each report of the process
/// layer.
#[derive(Copy, Clone, PartialEq, Eq, Structural, Debug)]
pub enum ExitKind {
    Exited(u32),
    Signaled(u8),
    Other(i32),
    Undetermined,
}

/// The 8-bit exit status recorded for each way a child can end: the low 8
/// bits of a normal exit code, the signal number of a signaled death, the
/// low 8 bits of any other report, and nothing when the status is unknown.
pub open spec fn encode_exit(k: ExitKind) -> Option<u8> {
    match k {
        ExitKind::Exited(rc) => Some((rc as int % 256) as u8),
        ExitKind::Signaled(sig) => Some(sig),
        ExitKind::Other(rc) => {
            let m = rc as int % 256;
            if m < 0 {
                Some((m + 256) as u8)
            } else {
                Some(m as u8)
            }
        },
        ExitKind::Undetermined => None,
    }
}

/// Computes the recorded 8-bit exit status.
pub fn encode_exit_exec(k: ExitKind) -> (r: Option<u8>)
    ensures
        r == encode_exit(k),
{
    match k {
        ExitKind::Exited(rc) => Some((rc % 256) as u8),
        ExitKind::Signaled(sig) => Some(sig),
        ExitKind::Other(rc) => {
            let m = rc % 256;
            if m < 0 {
                Some((m + 256) as u8)
            } else {
                Some(m as u8)
            }
        },
        ExitKind::Undetermined => None,
    }
}

/// Relies on subprocess::Popen::create: starts the command with its three
/// standard streams piped; `None` means the child could not be started.
#[verifier::external_body]
fn popen_create(argv: &Vec<String>) -> (r: Option<subprocess::Popen>) {
    let config = subprocess::PopenConfig {
        stdin: subprocess::Redirection::Pipe,
        stdout: subprocess::Redirection::Pipe,
        stderr: subprocess::Redirection::Pipe,
        detached: false,
        ..Default::default()
    };
    match subprocess::Popen::create(argv.as_slice(), config) {
        Ok(p) => Some(p),
        Err(_) => None,
    }
}

/// Relies on subprocess::Popen::poll: a non-blocking liveness check;
/// `Some` carries how the child ended.
#[verifier::external_body]
fn popen_poll(p: &mut subprocess::Popen) -> (r: Option<subprocess::ExitStatus>) {
    p.poll()
}

/// Relies on subprocess::Popen::wait_timeout: waits up to `ms` milliseconds
/// for the child to end; `Ok(None)` means the timeout elapsed.
#[verifier::external_body]
fn popen_wait_timeout(p: &mut subprocess::Popen, ms: u64) -> (r: Result<
    Option<subprocess::ExitStatus>,
    (),
>) {
    match p.wait_timeout(std::time::Duration::from_millis(ms)) {
        Ok(st) => Ok(st),
        Err(_) => Err(()),
    }
}

/// Relies on subprocess::Popen::wait: blocks until the child has ended and
/// reports how.
#[verifier::external_body]
fn popen_wait(p: &mut subprocess::Popen) -> (r: Result<subprocess::ExitStatus, ()>) {
    match p.wait() {
        Ok(st) => Ok(st),
        Err(_) => Err(()),
    }
}

/// Relies on subprocess::Popen::kill: sends SIGKILL to the child.
#[verifier::external_body]
fn popen_kill_raw(p: &mut subprocess::Popen) -> (r: Result<(), ()>) {
    match p.kill() {
        Ok(()) => Ok(()),
        Err(_) => Err(()),
    }
}

/// Relies on subprocess::Popen::pid: the child's pid while it has not been
/// reaped.
#[verifier::external_body]
fn popen_pid(p: &subprocess::Popen) -> (r: Option<u32>) {
    p.pid()
}

/// Relies on subprocess::ExitStatus: names its four variants one for one.
#[verifier::external_body]
fn exit_kind_of(st: subprocess::ExitStatus) -> (r: ExitKind) {
    match st {
        subprocess::ExitStatus::Exited(rc) => ExitKind::Exited(rc),
        subprocess::ExitStatus::Signaled(sig) => ExitKind::Signaled(sig),
        subprocess::ExitStatus::Other(rc) => ExitKind::Other(rc),
        subprocess::ExitStatus::Undetermined => ExitKind::Undetermined,
    }
}

/// Relies on std::io::Read::read on the child's stdout pipe: one read of at
/// most 8192 bytes into a zeroed buffer, handed back whole; the error is
/// the raw OS errno (-1 where there is none).
#[verifier::external_body]
fn read_stdout_chunk(p: &mut subprocess::Popen) -> (r: Result<Vec<u8>, i32>)
    ensures
        r matches Ok(v) ==> v@.len() == 8192,
{
    let mut buf: Vec<u8> = vec![0u8; 8192];
    match p.stdout.as_ref() {
        Some(mut f) => match f.read(buf.as_mut_slice()) {
            Ok(_) => Ok(buf),
            Err(e) => Err(e.raw_os_error().unwrap_or(-1)),
        },
        None => Err(-1),
    }
}

/// Relies on nix::fcntl::fcntl with F_SETFL(O_NONBLOCK): marks the child's
/// stderr pipe non-blocking, best effort, so that reading it can never
/// stall the session loop on a silent stream.
#[verifier::external_body]
fn stderr_set_nonblocking(p: &subprocess::Popen) {
    if let Some(f) = p.stderr.as_ref() {
        let _ = nix::fcntl::fcntl(f, nix::fcntl::FcntlArg::F_SETFL(nix::fcntl::OFlag::O_NONBLOCK));
    }
}

/// Relies on std::io::Read::read on the child's non-blocking stderr pipe:
/// one read of at most 8192 bytes into a zeroed buffer, handed back whole;
/// `Ok(None)` when no data is pending (or the stream is absent), and the
/// raw OS errno on any other failure.
#[verifier::external_body]
fn read_stderr_chunk(p: &mut subprocess::Popen) -> (r: Result<Option<Vec<u8>>, i32>)
    ensures
        r matches Ok(chunk) ==> (chunk matches Some(v) ==> v@.len() == 8192),
{
    let mut buf: Vec<u8> = vec![0u8; 8192];
    match p.stderr.as_ref() {
        Some(mut f) => match f.read(buf.as_mut_slice()) {
            Ok(_) => Ok(Some(buf)),
            Err(e) if e.kind() == std::io::ErrorKind::WouldBlock => Ok(None),
            Err(e) => Err(e.raw_os_error().unwrap_or(-1)),
        },
        None => Ok(None),
    }
}

/// Relies on std::io::Write::write_all on the child's stdin pipe: writes
/// the whole text; the error is the raw OS errno (-1 where there is none,
/// also when the channel is closed).
#[verifier::external_body]
fn write_stdin(p: &mut subprocess::Popen, input: &String) -> (r: Result<(), i32>) {
    match p.stdin.as_ref() {
        Some(mut f) => match f.write_all(input.as_bytes()) {
            Ok(()) => Ok(()),
            Err(e) => Err(e.raw_os_error().unwrap_or(-1)),
        },
        None => Err(-1),
    }
}

/// Relies on nix::sys::signal::kill: delivers `sig` to the process with the
/// given pid; an error means delivery itself failed.
#[verifier::external_body]
fn signal_kill(pid: u32, sig: nix::sys::signal::Signal) -> (r: Result<(), ()>) {
    match nix::sys::signal::kill(nix::unistd::Pid::from_raw(pid as i32), sig) {
        Ok(()) => Ok(()),
        Err(_) => Err(()),
    }
}

/// Relies on core::str::from_utf8: succeeds exactly on valid UTF-8 and
/// decodes it.
#[verifier::external_body]
pub(crate) fn utf8_to_string(bytes: &Vec<u8>) -> (r: Option<String>)
    ensures
        (r is Some) <==> valid_utf8(bytes@),
        r matches Some(s) ==> s@ == decode_utf8(bytes@),
{
    match std::str::from_utf8(bytes.as_slice()) {
        Ok(s) => Some(String::from(s)),
        Err(_) => None,
    }
}

/// A supervised child process: the command and arguments it was started
/// with, the exit status once it has been observed, and the child's handle.
///
/// Once `exit_status` holds a value it never changes again, and
/// `is_running` never again reports true: every method below preserves a
/// cached status.
pub struct ShellProcess {
    pub command: String,
    pub args: Vec<String>,
    pub exit_status: Option<u8>,
    /// The raw child handle; opaque, touched only through the wrappers.
    pub process: subprocess::Popen,
}

impl ShellProcess {
    /// Starts a new child process. Fails on an empty argv and when the
    /// executable cannot be started; nothing more can be promised of the
    /// attempt, since starting depends on the machine.
    pub fn exec(argv: Vec<String>) -> (r: Result<ShellProcess, ShellError>)
        ensures
            argv@.len() == 0 ==> r is Err,
            match r {
                Ok(p) => argv@.len() > 0 && p.command@ == argv.deep_view()[0]
                    && p.args.deep_view() == argv.deep_view().subrange(
                    1,
                    argv.deep_view().len() as int,
                ) && p.exit_status is None,
                Err(e) => e == ShellError::CouldNotStartProcess,
            },
    {
        if argv.len() == 0 {
            return Err(ShellError::CouldNotStartProcess);
        }
        match popen_create(&argv) {
            Some(process) => {
                stderr_set_nonblocking(&process);
                let command: String = argv[0].clone();
                let mut args: Vec<String> = Vec::new();
                let mut i: usize = 1;
                while i < argv.len()
                    invariant
                        1 <= i <= argv@.len(),
                        args@.len() == i - 1,
                        forall|j: int| 0 <= j < i - 1 ==> args@[j] == argv@[j + 1],
                    decreases argv@.len() - i,
                {
                    args.push(argv[i].clone());
                    i = i + 1;
                }
                proof {
                    assert forall|j: int|
                        0 <= j < args.deep_view().len() implies args.deep_view()[j]
                        == argv.deep_view().subrange(1, argv.deep_view().len() as int)[j] by {
                        assert(args@[j] == argv@[j + 1]);
                    }
                    assert(args.deep_view() =~= argv.deep_view().subrange(
                        1,
                        argv.deep_view().len() as int,
                    ));
                }
                Ok(ShellProcess { command, args, exit_status: None, process })
            },
            None => Err(ShellError::CouldNotStartProcess),
        }
    }

    /// One read attempt per stream: a blocking read of the child's standard
    /// output (the session loop uses it as its pacing point), then a
    /// non-blocking read of its standard error. Each successful chunk of at
    /// most 8192 bytes is decoded as UTF-8 and its zero padding trimmed; a
    /// stream with nothing left reads back as `None`. Invalid UTF-8 is
    /// `InvalidData`, a failed read is `PipeError`.
    pub fn read(&mut self) -> (r: Result<(Option<String>, Option<String>), ShellError>)
        ensures
            final(self).command == old(self).command,
            final(self).args == old(self).args,
            final(self).exit_status == old(self).exit_status,
            match r {
                Ok((out, err)) => (match out {
                    Some(s) => s@.len() > 0 && exists|bytes: Seq<u8>|
                        #[trigger] valid_utf8(bytes) && bytes.len() == 8192 && s@ == trim_nul_spec(
                            decode_utf8(bytes),
                        ),
                    None => true,
                }) && (match err {
                    Some(s) => s@.len() > 0 && exists|bytes: Seq<u8>|
                        #[trigger] valid_utf8(bytes) && bytes.len() == 8192 && s@ == trim_nul_spec(
                            decode_utf8(bytes),
                        ),
                    None => true,
                }),
                Err(e) => e == ShellError::InvalidData || e matches ShellError::PipeError(_),
            },
    {
        let out: Option<String> = match read_stdout_chunk(&mut self.process) {
            Err(errno) => {
                return Err(ShellError::PipeError(errno));
            },
            Ok(buf) => {
                match utf8_to_string(&buf) {
                    None => {
                        return Err(ShellError::InvalidData);
                    },
                    Some(raw) => {
                        let v = chars_vec(raw.as_str());
                        let trimmed = trim_nul_chars(&v);
                        if trimmed.len() == 0 {
                            None
                        } else {
                            let output = from_chars(&trimmed);
                            proof {
                                assert(valid_utf8(buf@) && buf@.len() == 8192 && output@
                                    == trim_nul_spec(decode_utf8(buf@)));
                            }
                            Some(output)
                        }
                    },
                }
            },
        };
        let err: Option<String> = match read_stderr_chunk(&mut self.process) {
            Err(errno) => {
                return Err(ShellError::PipeError(errno));
            },
            Ok(None) => None,
            Ok(Some(buf)) => {
                match utf8_to_string(&buf) {
                    None => {
                        return Err(ShellError::InvalidData);
                    },
                    Some(raw) => {
                        let v = chars_vec(raw.as_str());
                        let trimmed = trim_nul_chars(&v);
                        if trimmed.len() == 0 {
                            None
                        } else {
                            let output = from_chars(&trimmed);
                            proof {
                                assert(valid_utf8(buf@) && buf@.len() == 8192 && output@
                                    == trim_nul_spec(decode_utf8(buf@)));
                            }
                            Some(output)
                        }
                    },
                }
            },
        };
        Ok((out, err))
    }

    /// Writes the text to the child's standard input; fails with
    /// `PipeError` when the channel is closed or the write fails.
    pub fn write(&mut self, input: String) -> (r: Result<(), ShellError>)
        ensures
            final(self).command == old(self).command,
            final(self).args == old(self).args,
            final(self).exit_status == old(self).exit_status,
            match r {
                Ok(()) => true,
                Err(e) => e matches ShellError::PipeError(_),
            },
    {
        match write_stdin(&mut self.process, &input) {
            Ok(()) => Ok(()),
            Err(errno) => Err(ShellError::PipeError(errno)),
        }
    }

    /// Polls whether the child is still running, without blocking. The
    /// first time termination is observed the exit status is recorded; a
    /// recorded status is never queried nor changed again, and the call
    /// then always reports not running.
    pub fn is_running(&mut self) -> (running: bool)
        ensures
            final(self).command == old(self).command,
            final(self).args == old(self).args,
            old(self).exit_status is Some ==> running == false && final(self).exit_status == old(
                self,
            ).exit_status,
            running == true ==> final(self).exit_status is None && old(self).exit_status is None,
    {
        if self.exit_status.is_some() {
            return false;
        }
        match popen_poll(&mut self.process) {
            None => true,
            Some(st) => {
                let k = exit_kind_of(st);
                self.exit_status = encode_exit_exec(k);
                false
            },
        }
    }

    /// Sends a signal to the child and waits briefly (100 ms) for a
    /// reaction, recording the exit status if one is observed and none was
    /// recorded yet. An error means delivery itself failed (for example,
    /// the process is already gone) and leaves the recorded status exactly
    /// as it was; a recorded status never changes.
    pub fn raise(&mut self, signal: nix::sys::signal::Signal) -> (r: Result<(), ()>)
        ensures
            final(self).command == old(self).command,
            final(self).args == old(self).args,
            old(self).exit_status is Some ==> final(self).exit_status == old(self).exit_status,
            r is Err ==> final(self).exit_status == old(self).exit_status,
    {
        match popen_pid(&self.process) {
            Some(pid) => {
                match signal_kill(pid, signal) {
                    Ok(()) => {
                        match popen_wait_timeout(&mut self.process, 100) {
                            Ok(Some(st)) => {
                                if self.exit_status.is_none() {
                                    let k = exit_kind_of(st);
                                    self.exit_status = encode_exit_exec(k);
                                }
                                Ok(())
                            },
                            Ok(None) => Ok(()),
                            Err(()) => Err(()),
                        }
                    },
                    Err(()) => Err(()),
                }
            },
            None => Err(()),
        }
    }

    /// Forcefully terminates the child with SIGKILL and blocks until it has
    /// exited, recording the exit status if none was recorded yet. An error
    /// leaves the recorded status exactly as it was; a recorded status
    /// never changes.
    pub fn kill(&mut self) -> (r: Result<(), ()>)
        ensures
            final(self).command == old(self).command,
            final(self).args == old(self).args,
            old(self).exit_status is Some ==> final(self).exit_status == old(self).exit_status,
            r is Err ==> final(self).exit_status == old(self).exit_status,
    {
        match popen_kill_raw(&mut self.process) {
            Ok(()) => {
                match popen_wait(&mut self.process) {
                    Ok(st) => {
                        if self.exit_status.is_none() {
                            let k = exit_kind_of(st);
                            self.exit_status = encode_exit_exec(k);
                        }
                        Ok(())
                    },
                    Err(()) => Err(()),
                }
            },
            Err(()) => Err(()),
        }
    }
}

} // verus!

//! A transliterating shell wrapper library: commands typed in a Cyrillic
//! ("host") script are converted to the Latin ("target") script the system
//! shell understands, executed as a real child process, and the child's
//! output is converted back for display.

pub mod config;
pub mod runtime;
pub mod shell;
pub mod shellenv;
pub mod textops;
pub mod translator;

use vstd::prelude::*;

verus! {

/// Exit code reserved for failures: empty command, syntax error, unknown
/// command, missing directory, and "exit status never observed".
pub const RESERVED_EXIT_CODE: u8 = 255;

} // verus!

//! Shell-side components: session state, process-layer errors and the
//! decorated prompt.

pub mod proc;
pub mod prompt;

use vstd::prelude::*;

verus! {

/// A snapshot of the values the prompt renders. The git fields carry the
/// branch and full commit of the repository around the working directory,
/// already looked up by the caller (repository discovery reads the disk and
/// cannot stand here); `None` where there is no repository.
pub struct ShellProps {
    pub hostname: String,
    pub username: String,
    pub elapsed_ms: u64,
    pub exit_status: u8,
    pub wrkdir: String,
    pub git_branch: Option<String>,
    pub git_commit: Option<String>,
}

} // verus!

//! Plain configuration values consumed by the library. Reading them from a
//! configuration file is the caller's business; the library only interprets
//! them.

use vstd::prelude::*;
use vstd::string::StringExecFns;

verus! {

/// Configuration of the shell prompt: the format line with its `${...}`
/// keys, and the options of the optional modules.
pub struct PromptConfig {
    /// The prompt format line; `${KEY}` occurrences are substituted.
    pub prompt_line: String,
    /// Whether the rendered prompt is translated to the host script.
    pub translate: bool,
    /// Whether the prompt breaks onto a second line.
    pub break_enabled: bool,
    /// What the second line starts with when the break is enabled.
    pub break_str: String,
    /// Smallest command duration, in milliseconds, that `${CMD_TIME}` shows.
    pub min_duration: usize,
    /// What `${RC}` shows after a successful command.
    pub rc_ok: String,
    /// What `${RC}` shows after a failed command.
    pub rc_err: String,
    /// Prefix put before the branch name by `${GIT_BRANCH}`.
    pub git_branch: String,
    /// How many characters of the commit hash `${GIT_COMMIT}` shows.
    pub git_commit_ref: usize,
}

impl Default for PromptConfig {
    /// The stock prompt: `user@host:wrkdir$`, no translation, no break,
    /// check/cross marks for the return code, eight commit characters.
    fn default() -> (r: PromptConfig)
        ensures
            r.prompt_line@ == "${USER}@${HOSTNAME}:${WRKDIR}$"@,
            r.translate == false,
            r.break_enabled == false,
            r.break_str@ == "❯"@,
            r.min_duration == 2000,
            r.rc_ok@ == "✔"@,
            r.rc_err@ == "✖"@,
            r.git_branch@ == "on "@,
            r.git_commit_ref == 8,
    {
        PromptConfig {
            prompt_line: String::from_str("${USER}@${HOSTNAME}:${WRKDIR}$"),
            translate: false,
            break_enabled: false,
            break_str: String::from_str("❯"),
            min_duration: 2000,
            rc_ok: String::from_str("✔"),
            rc_err: String::from_str("✖"),
            git_branch: String::from_str("on "),
            git_commit_ref: 8,
        }
    }
}

} // verus!

//! A reduced shell prompt configuration for callers that carry the session
//! language as a plain tag: the same option modules as
//! `crate::shell::prompt`, assembled from the configuration but not
//! rendered here.

use vstd::prelude::*;
use crate::config::PromptConfig;
use crate::textops::{contains_seq, string_contains};

verus! {

/// Second prompt line configuration.
pub struct BreakOptions {
    pub break_with: String,
}

impl BreakOptions {
    /// Instantiate a new `BreakOptions` with the provided parameters.
    pub fn new(break_with: &String) -> (r: BreakOptions)
        ensures
            r.break_with@ == break_with@,
    {
        BreakOptions { break_with: break_with.clone() }
    }
}

/// Command duration display configuration.
pub struct DurationOptions {
    pub minimum_ms: u64,
}

impl DurationOptions {
    /// Whether the duration module should be enabled for this prompt line.
    pub fn should_enable(prompt_line: &String) -> (r: bool)
        ensures
            r == contains_seq(prompt_line@, "${CMD_TIME}"@),
    {
        string_contains(prompt_line.as_str(), "${CMD_TIME}")
    }

    /// Instantiate a new `DurationOptions` with the provided parameters.
    pub fn new(min_duration: usize) -> (r: DurationOptions)
        ensures
            r.minimum_ms == min_duration as u64,
    {
        DurationOptions { minimum_ms: min_duration as u64 }
    }
}

/// Return code display configuration.
pub struct RcOptions {
    pub ok: String,
    pub err: String,
}

impl RcOptions {
    /// Whether the return code module should be enabled for this prompt
    /// line.
    pub fn should_enable(prompt_line: &String) -> (r: bool)
        ensures
            r == contains_seq(prompt_line@, "${RC}"@),
    {
        string_contains(prompt_line.as_str(), "${RC}")
    }

    /// Instantiate a new `RcOptions` with the provided parameters.
    pub fn new(ok_str: &String, err_str: &String) -> (r: RcOptions)
        ensures
            r.ok@ == ok_str@,
            r.err@ == err_str@,
    {
        RcOptions { ok: ok_str.clone(), err: err_str.clone() }
    }
}

/// Git module configuration.
pub struct GitOptions {
    pub branch: String,
    pub commit_ref_len: usize,
}

impl GitOptions {
    /// Whether the git module should be enabled for this prompt line.
    pub fn should_enable(prompt_line: &String) -> (r: bool)
        ensures
            r == (contains_seq(prompt_line@, "${GIT_BRANCH}"@) || contains_seq(
                prompt_line@,
                "${GIT_COMMIT}"@,
            )),
    {
        string_contains(prompt_line.as_str(), "${GIT_BRANCH}") || string_contains(
            prompt_line.as_str(),
            "${GIT_COMMIT}",
        )
    }

    /// Instantiate a new `GitOptions` with the provided parameters.
    pub fn new(branch: &String, commit: usize) -> (r: GitOptions)
        ensures
            r.branch@ == branch@,
            r.commit_ref_len == commit,
    {
        GitOptions { branch: branch.clone(), commit_ref_len: commit }
    }
}

/// The current shell prompt configuration, with the session language tag.
pub struct ShellPrompt {
    pub prompt_line: String,
    pub language: String,
    pub translate: bool,
    pub break_opt: Option<BreakOptions>,
    pub duration_opt: Option<DurationOptions>,
    pub rc_opt: Option<RcOptions>,
    pub git_opt: Option<GitOptions>,
}

impl ShellPrompt {
    /// Instantiate a new `ShellPrompt` with the provided parameters.
    pub fn new(language: &String, prompt_opt: &PromptConfig) -> (r: ShellPrompt)
        ensures
            r.prompt_line@ == prompt_opt.prompt_line@,
            r.language@ == language@,
            r.translate == prompt_opt.translate,
            match r.break_opt {
                Some(b) => prompt_opt.break_enabled && b.break_with@ == prompt_opt.break_str@,
                None => !prompt_opt.break_enabled,
            },
            match r.duration_opt {
                Some(d) => contains_seq(prompt_opt.prompt_line@, "${CMD_TIME}"@) && d.minimum_ms
                    == prompt_opt.min_duration as u64,
                None => !contains_seq(prompt_opt.prompt_line@, "${CMD_TIME}"@),
            },
            match r.rc_opt {
                Some(o) => contains_seq(prompt_opt.prompt_line@, "${RC}"@) && o.ok@
                    == prompt_opt.rc_ok@ && o.err@ == prompt_opt.rc_err@,
                None => !contains_seq(prompt_opt.prompt_line@, "${RC}"@),
            },
            match r.git_opt {
                Some(g) => (contains_seq(prompt_opt.prompt_line@, "${GIT_BRANCH}"@) || contains_seq(
                    prompt_opt.prompt_line@,
                    "${GIT_COMMIT}"@,
                )) && g.branch@ == prompt_opt.git_branch@ && g.commit_ref_len
                    == prompt_opt.git_commit_ref,
                None => !(contains_seq(prompt_opt.prompt_line@, "${GIT_BRANCH}"@) || contains_seq(
                    prompt_opt.prompt_line@,
                    "${GIT_COMMIT}"@,
                )),
            },
    {
        let break_opt: Option<BreakOptions> = if prompt_opt.break_enabled {
            Some(BreakOptions::new(&prompt_opt.break_str))
        } else {
            None
        };
        let duration_opt: Option<DurationOptions> = if DurationOptions::should_enable(
            &prompt_opt.prompt_line,
        ) {
            Some(DurationOptions::new(prompt_opt.min_duration))
        } else {
            None
        };
        let rc_opt: Option<RcOptions> = if RcOptions::should_enable(&prompt_opt.prompt_line) {
            Some(RcOptions::new(&prompt_opt.rc_ok, &prompt_opt.rc_err))
        } else {
            None
        };
        let git_opt: Option<GitOptions> = if GitOptions::should_enable(&prompt_opt.prompt_line) {
            Some(GitOptions::new(&prompt_opt.git_branch, prompt_opt.git_commit_ref))
        } else {
            None
        };
        ShellPrompt {
            prompt_line: prompt_opt.prompt_line.clone(),
            language: language.clone(),
            translate: prompt_opt.translate,
            break_opt,
            duration_opt,
            rc_opt,
            git_opt,
        }
    }
}

} // verus!

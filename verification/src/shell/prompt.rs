//! The decorated shell prompt: substitution of `${KEY}` occurrences in a
//! configurable format line.
//!
//! Keys resolve to session values (user, host, working directory), ANSI
//! color codes, the command duration, the last return code, and git
//! information handed in by the caller; unknown keys stay in place.

use vstd::prelude::*;
use vstd::string::StringExecFns;
use crate::config::PromptConfig;
use crate::shell::ShellProps;
use crate::textops::{
    chars_vec,
    contains_seq,
    dec_digit,
    dec_str,
    from_chars,
    prefix_chars,
    push_char,
    string_contains,
    sub_chars,
    trim_chars,
    trim_spec,
    u64_to_dec,
};
use crate::translator::{lang_str, IOProcessor, Language, Translator};

verus! {

/// A prompt color; rendered as the matching ANSI escape code.
#[derive(Copy, Clone, PartialEq, Eq, Structural, Debug)]
pub enum PromptColor {
    Black,
    Blue,
    Cyan,
    Gray,
    Green,
    Magenta,
    Red,
    Reset,
    White,
    Yellow,
}

/// The ANSI escape sequence of each color.
pub open spec fn color_ansi(c: PromptColor) -> Seq<char> {
    match c {
        PromptColor::Black => "\u{1b}[30m"@,
        PromptColor::Blue => "\u{1b}[34m"@,
        PromptColor::Cyan => "\u{1b}[36m"@,
        PromptColor::Gray => "\u{1b}[90m"@,
        PromptColor::Green => "\u{1b}[32m"@,
        PromptColor::Magenta => "\u{1b}[35m"@,
        PromptColor::Red => "\u{1b}[31m"@,
        PromptColor::Reset => "\u{1b}[0m"@,
        PromptColor::White => "\u{1b}[37m"@,
        PromptColor::Yellow => "\u{1b}[33m"@,
    }
}

/// The color a prompt key names; any unrecognized key gives `Reset`.
pub open spec fn color_of_key(key: Seq<char>) -> PromptColor {
    if key == "${KBLK}"@ {
        PromptColor::Black
    } else if key == "${KBLU}"@ {
        PromptColor::Blue
    } else if key == "${KCYN}"@ {
        PromptColor::Cyan
    } else if key == "${KGRY}"@ {
        PromptColor::Gray
    } else if key == "${KGRN}"@ {
        PromptColor::Green
    } else if key == "${KMAG}"@ {
        PromptColor::Magenta
    } else if key == "${KRED}"@ {
        PromptColor::Red
    } else if key == "${KWHT}"@ {
        PromptColor::White
    } else if key == "${KYEL}"@ {
        PromptColor::Yellow
    } else {
        PromptColor::Reset
    }
}

/// Whether the key names one of the prompt colors.
pub open spec fn is_color_key(key: Seq<char>) -> bool {
    key == "${KBLK}"@ || key == "${KBLU}"@ || key == "${KCYN}"@ || key == "${KGRY}"@ || key
        == "${KGRN}"@ || key == "${KMAG}"@ || key == "${KRED}"@ || key == "${KWHT}"@ || key
        == "${KYEL}"@ || key == "${KRST}"@
}

impl PromptColor {
    /// The color the given prompt key names.
    pub fn from_key(key: &str) -> (r: PromptColor)
        ensures
            r == color_of_key(key@),
    {
        if crate::translator::str_eq(key, "${KBLK}") {
            PromptColor::Black
        } else if crate::translator::str_eq(key, "${KBLU}") {
            PromptColor::Blue
        } else if crate::translator::str_eq(key, "${KCYN}") {
            PromptColor::Cyan
        } else if crate::translator::str_eq(key, "${KGRY}") {
            PromptColor::Gray
        } else if crate::translator::str_eq(key, "${KGRN}") {
            PromptColor::Green
        } else if crate::translator::str_eq(key, "${KMAG}") {
            PromptColor::Magenta
        } else if crate::translator::str_eq(key, "${KRED}") {
            PromptColor::Red
        } else if crate::translator::str_eq(key, "${KWHT}") {
            PromptColor::White
        } else if crate::translator::str_eq(key, "${KYEL}") {
            PromptColor::Yellow
        } else {
            PromptColor::Reset
        }
    }

    /// The ANSI escape sequence of the color.
    pub fn to_string(&self) -> (r: String)
        ensures
            r@ == color_ansi(*self),
    {
        match self {
            PromptColor::Black => String::from_str("\u{1b}[30m"),
            PromptColor::Blue => String::from_str("\u{1b}[34m"),
            PromptColor::Cyan => String::from_str("\u{1b}[36m"),
            PromptColor::Gray => String::from_str("\u{1b}[90m"),
            PromptColor::Green => String::from_str("\u{1b}[32m"),
            PromptColor::Magenta => String::from_str("\u{1b}[35m"),
            PromptColor::Red => String::from_str("\u{1b}[31m"),
            PromptColor::Reset => String::from_str("\u{1b}[0m"),
            PromptColor::White => String::from_str("\u{1b}[37m"),
            PromptColor::Yellow => String::from_str("\u{1b}[33m"),
        }
    }
}

/// The display tag of a language, as the `${LANG}` key shows it.
pub fn language_to_str(language: Language) -> (r: String)
    ensures
        r@ == lang_str(language),
{
    language.to_string()
}

/// Second prompt line configuration.
pub struct BreakOptions {
    pub break_with: String,
}

impl BreakOptions {
    /// Instantiate a new `BreakOptions` with the provided parameters.
    pub fn new(break_with: &String) -> (r: BreakOptions)
        ensures
            r.break_with@ == break_with@,
    {
        BreakOptions { break_with: break_with.clone() }
    }
}

/// Command duration display configuration.
pub struct DurationOptions {
    pub minimum_ms: u64,
}

impl DurationOptions {
    /// Whether the duration module should be enabled for this prompt line.
    pub fn should_enable(prompt_line: &String) -> (r: bool)
        ensures
            r == contains_seq(prompt_line@, "${CMD_TIME}"@),
    {
        string_contains(prompt_line.as_str(), "${CMD_TIME}")
    }

    /// Instantiate a new `DurationOptions` with the provided parameters.
    pub fn new(min_duration: usize) -> (r: DurationOptions)
        ensures
            r.minimum_ms == min_duration as u64,
    {
        DurationOptions { minimum_ms: min_duration as u64 }
    }
}

/// Return code display configuration.
pub struct RcOptions {
    pub ok: String,
    pub err: String,
}

impl RcOptions {
    /// Whether the return code module should be enabled for this prompt
    /// line.
    pub fn should_enable(prompt_line: &String) -> (r: bool)
        ensures
            r == contains_seq(prompt_line@, "${RC}"@),
    {
        string_contains(prompt_line.as_str(), "${RC}")
    }

    /// Instantiate a new `RcOptions` with the provided parameters.
    pub fn new(ok_str: &String, err_str: &String) -> (r: RcOptions)
        ensures
            r.ok@ == ok_str@,
            r.err@ == err_str@,
    {
        RcOptions { ok: ok_str.clone(), err: err_str.clone() }
    }
}

/// Git module configuration.
pub struct GitOptions {
    pub branch: String,
    pub commit_ref_len: usize,
}

impl GitOptions {
    /// Whether the git module should be enabled for this prompt line.
    pub fn should_enable(prompt_line: &String) -> (r: bool)
        ensures
            r == (contains_seq(prompt_line@, "${GIT_BRANCH}"@) || contains_seq(
                prompt_line@,
                "${GIT_COMMIT}"@,
            )),
    {
        string_contains(prompt_line.as_str(), "${GIT_BRANCH}") || string_contains(
            prompt_line.as_str(),
            "${GIT_COMMIT}",
        )
    }

    /// Instantiate a new `GitOptions` with the provided parameters.
    pub fn new(branch: &String, commit: usize) -> (r: GitOptions)
        ensures
            r.branch@ == branch@,
            r.commit_ref_len == commit,
    {
        GitOptions { branch: branch.clone(), commit_ref_len: commit }
    }
}

/// The current shell prompt configuration.
pub struct ShellPrompt {
    pub prompt_line: String,
    pub translate: bool,
    pub break_opt: Option<BreakOptions>,
    pub duration_opt: Option<DurationOptions>,
    pub rc_opt: Option<RcOptions>,
    pub git_opt: Option<GitOptions>,
}

/// The `${CMD_TIME}` text: the duration in seconds with one decimal,
/// rounded to the nearest tenth.
pub open spec fn took_time_str(ms: u64) -> Seq<char> {
    let tenths = ms as int / 100 + (if ms as int % 100 >= 50 {
        1int
    } else {
        0int
    });
    "took "@ + dec_str((tenths / 10) as nat) + seq!['.', dec_digit(tenths % 10)] + seq!['s']
}

/// Renders the `${CMD_TIME}` text for a duration of `ms` milliseconds.
fn format_took(ms: u64) -> (r: String)
    ensures
        r@ == took_time_str(ms),
{
    let tenths: u64 = ms / 100 + (if ms % 100 >= 50 {
        1
    } else {
        0
    });
    let mut s = String::from_str("took ");
    let whole = u64_to_dec(tenths / 10);
    s.append(whole.as_str());
    push_char(&mut s, '.');
    let tenth = u64_to_dec(tenths % 10);
    s.append(tenth.as_str());
    push_char(&mut s, 's');
    proof {
        assert(dec_str((tenths % 10) as nat) =~= seq![dec_digit(tenths as int % 10)]);
        assert(s@ =~= took_time_str(ms));
    }
    s
}

/// What one `${...}` key resolves to, given the prompt configuration, the
/// session values, and the session language. An unknown key resolves to
/// itself.
pub open spec fn resolve_key_spec(
    p: ShellPrompt,
    props: ShellProps,
    lang: Language,
    key: Seq<char>,
) -> Seq<char> {
    if key == "${CMD_TIME}"@ {
        match p.duration_opt {
            Some(opt) => if props.elapsed_ms >= opt.minimum_ms {
                took_time_str(props.elapsed_ms)
            } else {
                Seq::empty()
            },
            None => Seq::empty(),
        }
    } else if key == "${GIT_BRANCH}"@ {
        match p.git_opt {
            Some(g) => match props.git_branch {
                Some(b) => g.branch@ + b@,
                None => Seq::empty(),
            },
            None => Seq::empty(),
        }
    } else if key == "${GIT_COMMIT}"@ {
        match p.git_opt {
            Some(g) => match props.git_commit {
                Some(c) => if g.commit_ref_len <= c@.len() {
                    c@.take(g.commit_ref_len as int)
                } else {
                    c@
                },
                None => Seq::empty(),
            },
            None => Seq::empty(),
        }
    } else if key == "${HOSTNAME}"@ {
        props.hostname@
    } else if is_color_key(key) {
        color_ansi(color_of_key(key))
    } else if key == "${LANG}"@ {
        lang_str(lang)
    } else if key == "${RC}"@ {
        match p.rc_opt {
            Some(o) => if props.exit_status == 0 {
                o.ok@
            } else {
                o.err@
            },
            None => Seq::empty(),
        }
    } else if key == "${USER}"@ {
        props.username@
    } else if key == "${WRKDIR}"@ {
        props.wrkdir@
    } else {
        key
    }
}

/// The position of the first `}` at or after `from`, if any.
pub open spec fn find_close(s: Seq<char>, from: int) -> Option<int>
    decreases s.len() - from,
    when 0 <= from <= s.len()
{
    if from >= s.len() {
        None
    } else if s[from] == '}' {
        Some(from)
    } else {
        find_close(s, from + 1)
    }
}

proof fn lemma_find_close_bounds(s: Seq<char>, from: int)
    requires
        0 <= from <= s.len(),
    ensures
        match find_close(s, from) {
            Some(j) => from <= j < s.len() && s[j] == '}',
            None => true,
        },
    decreases s.len() - from,
{
    if from >= s.len() {
    } else if s[from] == '}' {
    } else {
        lemma_find_close_bounds(s, from + 1);
    }
}

/// Finds the first `}` at or after `from`.
fn find_close_exec(v: &Vec<char>, from: usize) -> (r: Option<usize>)
    requires
        from <= v.len(),
    ensures
        match r {
            Some(j) => find_close(v@, from as int) == Some(j as int) && from <= j < v@.len(),
            None => find_close(v@, from as int) is None,
        },
{
    let mut cur: usize = from;
    while cur < v.len()
        invariant
            from <= cur <= v@.len(),
            find_close(v@, from as int) == find_close(v@, cur as int),
        decreases v@.len() - cur,
    {
        if v[cur] == '}' {
            return Some(cur);
        }
        cur = cur + 1;
    }
    None
}

/// Substitution of all `${...}` keys of `s` from position `i` on: each key
/// (shortest match, up to the first `}`) is replaced by what it resolves
/// to; a `${` with no closing `}` is kept verbatim to the end.
pub open spec fn subst_scan(
    p: ShellPrompt,
    props: ShellProps,
    lang: Language,
    s: Seq<char>,
    i: int,
) -> Seq<char>
    decreases s.len() - i,
    when 0 <= i <= s.len()
{
    if i >= s.len() {
        Seq::empty()
    } else if s[i] == '$' && i + 1 < s.len() && s[i + 1] == '{' {
        match find_close(s, i + 2) {
            Some(j) => {
                let jn = if i + 2 <= j && j < s.len() {
                    j + 1
                } else {
                    s.len() as int
                };
                resolve_key_spec(p, props, lang, s.subrange(i, jn)) + subst_scan(
                    p,
                    props,
                    lang,
                    s,
                    jn,
                )
            },
            None => s.subrange(i, s.len() as int),
        }
    } else {
        seq![s[i]] + subst_scan(p, props, lang, s, i + 1)
    }
}

/// The fully processed prompt line: keys substituted, the result trimmed,
/// and the break line appended when enabled.
pub open spec fn process_prompt_spec(p: ShellPrompt, props: ShellProps, lang: Language) -> Seq<
    char,
> {
    let substituted = subst_scan(p, props, lang, p.prompt_line@, 0);
    let trimmed = trim_spec(substituted);
    match p.break_opt {
        Some(b) => trimmed + seq!['\n'] + trim_spec(b.break_with@),
        None => trimmed,
    }
}

impl ShellPrompt {
    /// Instantiate a new `ShellPrompt` from the prompt configuration.
    pub fn new(prompt_opt: &PromptConfig) -> (r: ShellPrompt)
        ensures
            r.prompt_line@ == prompt_opt.prompt_line@,
            r.translate == prompt_opt.translate,
            match r.break_opt {
                Some(b) => prompt_opt.break_enabled && b.break_with@ == prompt_opt.break_str@,
                None => !prompt_opt.break_enabled,
            },
            match r.duration_opt {
                Some(d) => contains_seq(prompt_opt.prompt_line@, "${CMD_TIME}"@) && d.minimum_ms
                    == prompt_opt.min_duration as u64,
                None => !contains_seq(prompt_opt.prompt_line@, "${CMD_TIME}"@),
            },
            match r.rc_opt {
                Some(o) => contains_seq(prompt_opt.prompt_line@, "${RC}"@) && o.ok@
                    == prompt_opt.rc_ok@ && o.err@ == prompt_opt.rc_err@,
                None => !contains_seq(prompt_opt.prompt_line@, "${RC}"@),
            },
            match r.git_opt {
                Some(g) => (contains_seq(prompt_opt.prompt_line@, "${GIT_BRANCH}"@) || contains_seq(
                    prompt_opt.prompt_line@,
                    "${GIT_COMMIT}"@,
                )) && g.branch@ == prompt_opt.git_branch@ && g.commit_ref_len
                    == prompt_opt.git_commit_ref,
                None => !(contains_seq(prompt_opt.prompt_line@, "${GIT_BRANCH}"@) || contains_seq(
                    prompt_opt.prompt_line@,
                    "${GIT_COMMIT}"@,
                )),
            },
    {
        let break_opt: Option<BreakOptions> = if prompt_opt.break_enabled {
            Some(BreakOptions::new(&prompt_opt.break_str))
        } else {
            None
        };
        let duration_opt: Option<DurationOptions> = if DurationOptions::should_enable(
            &prompt_opt.prompt_line,
        ) {
            Some(DurationOptions::new(prompt_opt.min_duration))
        } else {
            None
        };
        let rc_opt: Option<RcOptions> = if RcOptions::should_enable(&prompt_opt.prompt_line) {
            Some(RcOptions::new(&prompt_opt.rc_ok, &prompt_opt.rc_err))
        } else {
            None
        };
        let git_opt: Option<GitOptions> = if GitOptions::should_enable(&prompt_opt.prompt_line) {
            Some(GitOptions::new(&prompt_opt.git_branch, prompt_opt.git_commit_ref))
        } else {
            None
        };
        ShellPrompt {
            prompt_line: prompt_opt.prompt_line.clone(),
            translate: prompt_opt.translate,
            break_opt,
            duration_opt,
            rc_opt,
            git_opt,
        }
    }

    /// The prompt line with all keys resolved; translated to the host
    /// script when translation is enabled.
    pub fn get_line(&mut self, shell_props: &ShellProps, processor: &IOProcessor) -> (r: String)
        ensures
            *final(self) == *old(self),
            ({
                let processed = process_prompt_spec(*old(self), *shell_props, processor.language);
                if old(self).translate {
                    r@ == processor.translator.cyrillic_spec(processed)
                } else {
                    r@ == processed
                }
            }),
    {
        let prompt_line: String = self.process_prompt(shell_props, processor);
        if self.translate {
            processor.text_to_cyrillic(&prompt_line)
        } else {
            prompt_line
        }
    }

    /// Resolves every `${...}` key of the prompt line, trims the result,
    /// and appends the break line when enabled.
    pub fn process_prompt(&mut self, shell_props: &ShellProps, processor: &IOProcessor) -> (r:
        String)
        ensures
            *final(self) == *old(self),
            r@ == process_prompt_spec(*old(self), *shell_props, processor.language),
    {
        let ghost p = *self;
        let ghost lang = processor.language;
        let v = chars_vec(self.prompt_line.as_str());
        let mut out: Vec<char> = Vec::new();
        let mut i: usize = 0;
        proof {
            assert(out@ + subst_scan(p, *shell_props, lang, v@, 0) =~= subst_scan(
                p,
                *shell_props,
                lang,
                v@,
                0,
            ));
        }
        while i < v.len()
            invariant
                *self == p,
                lang == processor.language,
                v@ == p.prompt_line@,
                i <= v@.len(),
                subst_scan(p, *shell_props, lang, v@, 0) == out@ + subst_scan(
                    p,
                    *shell_props,
                    lang,
                    v@,
                    i as int,
                ),
            decreases v@.len() - i,
        {
            let ghost out0 = out@;
            if v[i] == '$' && i + 1 < v.len() && v[i + 1] == '{' {
                match find_close_exec(&v, i + 2) {
                    Some(j) => {
                        proof {
                            lemma_find_close_bounds(v@, i + 2);
                        }
                        let key_chars = sub_chars(&v, i, j + 1);
                        let key = from_chars(&key_chars);
                        let resolved = self.resolve_key(shell_props, processor, &key);
                        let mut piece = chars_vec(resolved.as_str());
                        out.append(&mut piece);
                        proof {
                            assert(key@ == v@.subrange(i as int, (j + 1) as int));
                            assert(resolved@ == resolve_key_spec(p, *shell_props, lang, key@));
                            assert(out@ =~= out0 + resolve_key_spec(
                                p,
                                *shell_props,
                                lang,
                                v@.subrange(i as int, j + 1 as int),
                            ));
                            assert(out0 + (resolve_key_spec(
                                p,
                                *shell_props,
                                lang,
                                v@.subrange(i as int, j + 1 as int),
                            ) + subst_scan(p, *shell_props, lang, v@, j + 1 as int)) =~= out@
                                + subst_scan(p, *shell_props, lang, v@, j + 1 as int));
                        }
                        i = j + 1;
                    },
                    None => {
                        let mut rest = sub_chars(&v, i, v.len());
                        out.append(&mut rest);
                        proof {
                            assert(out@ + subst_scan(p, *shell_props, lang, v@, v@.len() as int)
                                =~= out@);
                        }
                        i = v.len();
                    },
                }
            } else {
                out.push(v[i]);
                proof {
                    assert(out@ =~= out0 + seq![v@[i as int]]);
                    assert(out0 + (seq![v@[i as int]] + subst_scan(
                        p,
                        *shell_props,
                        lang,
                        v@,
                        i + 1 as int,
                    )) =~= out@ + subst_scan(p, *shell_props, lang, v@, i + 1 as int));
                }
                i = i + 1;
            }
        }
        proof {
            assert(out@ + subst_scan(p, *shell_props, lang, v@, v@.len() as int) =~= out@);
        }
        let trimmed = trim_chars(&out);
        let mut line = from_chars(&trimmed);
        match &self.break_opt {
            Some(brkopt) => {
                push_char(&mut line, '\n');
                let bv = chars_vec(brkopt.break_with.as_str());
                let btrimmed = trim_chars(&bv);
                let bline = from_chars(&btrimmed);
                line.append(bline.as_str());
                proof {
                    assert(line@ =~= process_prompt_spec(p, *shell_props, lang));
                }
                line
            },
            None => line,
        }
    }

    /// Replaces one `${...}` key with its resolved value.
    fn resolve_key(
        &self,
        shell_props: &ShellProps,
        processor: &IOProcessor,
        key: &String,
    ) -> (r: String)
        ensures
            r@ == resolve_key_spec(*self, *shell_props, processor.language, key@),
    {
        let k = key.as_str();
        if crate::translator::str_eq(k, "${CMD_TIME}") {
            match &self.duration_opt {
                Some(opt) => {
                    if shell_props.elapsed_ms >= opt.minimum_ms {
                        format_took(shell_props.elapsed_ms)
                    } else {
                        String::new()
                    }
                },
                None => String::new(),
            }
        } else if crate::translator::str_eq(k, "${GIT_BRANCH}") {
            match &self.git_opt {
                Some(g) => {
                    match &shell_props.git_branch {
                        Some(b) => {
                            let mut s = g.branch.clone();
                            s.append(b.as_str());
                            s
                        },
                        None => String::new(),
                    }
                },
                None => String::new(),
            }
        } else if crate::translator::str_eq(k, "${GIT_COMMIT}") {
            match &self.git_opt {
                Some(g) => {
                    match &shell_props.git_commit {
                        Some(c) => prefix_chars(c.as_str(), g.commit_ref_len),
                        None => String::new(),
                    }
                },
                None => String::new(),
            }
        } else if crate::translator::str_eq(k, "${HOSTNAME}") {
            shell_props.hostname.clone()
        } else if is_color_key_exec(k) {
            PromptColor::from_key(k).to_string()
        } else if crate::translator::str_eq(k, "${LANG}") {
            language_to_str(processor.language)
        } else if crate::translator::str_eq(k, "${RC}") {
            match &self.rc_opt {
                Some(o) => {
                    if shell_props.exit_status == 0 {
                        o.ok.clone()
                    } else {
                        o.err.clone()
                    }
                },
                None => String::new(),
            }
        } else if crate::translator::str_eq(k, "${USER}") {
            shell_props.username.clone()
        } else if crate::translator::str_eq(k, "${WRKDIR}") {
            shell_props.wrkdir.clone()
        } else {
            key.clone()
        }
    }
}

/// Whether the key names one of the prompt colors.
fn is_color_key_exec(key: &str) -> (r: bool)
    ensures
        r == is_color_key(key@),
{
    crate::translator::str_eq(key, "${KBLK}") || crate::translator::str_eq(key, "${KBLU}")
        || crate::translator::str_eq(key, "${KCYN}") || crate::translator::str_eq(key, "${KGRY}")
        || crate::translator::str_eq(key, "${KGRN}") || crate::translator::str_eq(key, "${KMAG}")
        || crate::translator::str_eq(key, "${KRED}") || crate::translator::str_eq(key, "${KWHT}")
        || crate::translator::str_eq(key, "${KYEL}") || crate::translator::str_eq(key, "${KRST}")
}

} // verus!

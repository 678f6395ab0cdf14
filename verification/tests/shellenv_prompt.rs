use pyc::config::PromptConfig;
use pyc::shellenv::prompt::ShellPrompt;

#[test]
fn test_prompt() {

}

// The first-generation prompt assembles its modules from the configuration.
#[test]
fn test_prompt_options() {
    let mut config = PromptConfig::default();
    config.prompt_line = String::from("${USER} ${CMD_TIME} ${RC} ${GIT_BRANCH}");
    config.break_enabled = true;
    let language = String::from("рус");
    let prompt = ShellPrompt::new(&language, &config);
    assert_eq!(prompt.language, "рус");
    assert_eq!(prompt.prompt_line, config.prompt_line);
    assert!(!prompt.translate);
    assert_eq!(prompt.break_opt.unwrap().break_with, "❯");
    assert_eq!(prompt.duration_opt.unwrap().minimum_ms, 2000);
    let rc = prompt.rc_opt.unwrap();
    assert_eq!(rc.ok, "✔");
    assert_eq!(rc.err, "✖");
    let git = prompt.git_opt.unwrap();
    assert_eq!(git.branch, "on ");
    assert_eq!(git.commit_ref_len, 8);
}

// A plain prompt line enables none of the optional modules.
#[test]
fn test_prompt_options_disabled() {
    let config = PromptConfig::default();
    let language = String::from("рус");
    let prompt = ShellPrompt::new(&language, &config);
    assert!(prompt.break_opt.is_none());
    assert!(prompt.duration_opt.is_none());
    assert!(prompt.rc_opt.is_none());
    assert!(prompt.git_opt.is_none());
}

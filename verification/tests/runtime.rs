use pyc::runtime::{
    cd_exit_code, drain_input_step, plan_command, resolve_shell, session_exit_code,
    translate_input, translate_output, CommandPlan,
};
use pyc::shell::proc::ShellError;
use pyc::translator::{new_translator, IOProcessor, Language, ParserError};

fn get_ioprocessor() -> IOProcessor {
    IOProcessor::new(Language::Ukrainian, new_translator(Language::Ukrainian))
}

// A `cd` with an explicit argument plans a directory change and nothing is
// spawned; `cd` alone plans a change to the home directory.
#[test]
fn test_plan_cd() {
    let iop = get_ioprocessor();
    let argv: Vec<String> = vec![String::from("cd"), String::from("/tmp")];
    match plan_command(&iop, &argv, None) {
        CommandPlan::ChangeDir(Some(path)) => assert_eq!(path, "/tmp"),
        _ => panic!("expected a directory change"),
    }
    assert_eq!(cd_exit_code(true), 0);
    assert_eq!(cd_exit_code(false), 255);
    let argv: Vec<String> = vec![String::from("cd")];
    assert!(matches!(plan_command(&iop, &argv, None), CommandPlan::ChangeDir(None)));
}

// The `cd` built-in is recognized after translation of the host script.
#[test]
fn test_plan_cd_cyrillic() {
    let iop = get_ioprocessor();
    let argv: Vec<String> = vec![String::from("кд"), String::from("/tmp")];
    match plan_command(&iop, &argv, None) {
        CommandPlan::ChangeDir(Some(path)) => assert_eq!(path, "/tmp"),
        _ => panic!("expected a directory change"),
    }
}

#[test]
fn test_plan_empty_and_spawn() {
    let iop = get_ioprocessor();
    let argv: Vec<String> = Vec::new();
    assert!(matches!(plan_command(&iop, &argv, None), CommandPlan::Empty));
    let argv: Vec<String> = vec![String::from("лс"), String::from("-л")];
    match plan_command(&iop, &argv, None) {
        CommandPlan::Spawn(words) => {
            assert_eq!(words, vec![String::from("ls"), String::from("-l")])
        },
        _ => panic!("expected a spawn plan"),
    }
}

#[test]
fn test_plan_alias_and_syntax_error() {
    let iop = get_ioprocessor();
    let argv: Vec<String> = vec![String::from("лл")];
    match plan_command(&iop, &argv, Some(String::from("ls -l"))) {
        CommandPlan::Spawn(words) => {
            assert_eq!(words, vec![String::from("ls"), String::from("-l")])
        },
        _ => panic!("expected a spawn plan"),
    }
    let argv: Vec<String> = vec![String::from("екхо"), String::from(")")];
    assert!(matches!(
        plan_command(&iop, &argv, None),
        CommandPlan::Syntax(ParserError::MissingToken)
    ));
}

#[test]
fn test_session_exit_code() {
    assert_eq!(session_exit_code(Some(0)), 0);
    assert_eq!(session_exit_code(Some(42)), 42);
    assert_eq!(session_exit_code(None), 255);
}

#[test]
fn test_drain_input_step() {
    let mut buffer: Vec<u8> = Vec::new();
    assert_eq!(drain_input_step(&mut buffer, Some(b'h')), None);
    assert_eq!(drain_input_step(&mut buffer, Some(b'i')), None);
    assert_eq!(buffer, vec![b'h', b'i']);
    let flushed = drain_input_step(&mut buffer, None);
    assert_eq!(flushed, Some(vec![b'h', b'i']));
    assert!(buffer.is_empty());
    assert_eq!(drain_input_step(&mut buffer, None), None);
}

#[test]
fn test_translate_input() {
    let iop = get_ioprocessor();
    let bytes: Vec<u8> = String::from("лс -л\n").into_bytes();
    assert_eq!(translate_input(&iop, &bytes), Ok(String::from("ls -l\n")));
    //Text that does not convert is handed on as typed
    let bytes: Vec<u8> = String::from("екхо )\n").into_bytes();
    assert_eq!(translate_input(&iop, &bytes), Ok(String::from("екхо )\n")));
    //Invalid UTF-8 is an error
    let bytes: Vec<u8> = vec![0xff, 0xfe];
    assert_eq!(translate_input(&iop, &bytes), Err(ShellError::InvalidData));
}

#[test]
fn test_translate_output() {
    let iop = get_ioprocessor();
    let chunk = String::from("hello\n");
    assert_eq!(translate_output(&iop, true, &chunk), "хелло\n");
    assert_eq!(translate_output(&iop, false, &chunk), "hello\n");
}

#[test]
fn test_resolve_shell() {
    assert_eq!(
        resolve_shell(Some(String::from("fish")), Some(String::from("bash")), None),
        Ok(String::from("fish"))
    );
    assert_eq!(
        resolve_shell(None, Some(String::from("bash")), Some(String::from("sh"))),
        Ok(String::from("bash"))
    );
    assert_eq!(resolve_shell(None, None, Some(String::from("sh"))), Ok(String::from("sh")));
    assert_eq!(resolve_shell(None, None, None), Err(()));
}

// The overloaded exit code: empty commands, syntax errors and a never
// observed exit status all collapse onto 255.
#[test]
fn test_reserved_exit_code() {
    assert_eq!(pyc::RESERVED_EXIT_CODE, 255);
    assert_eq!(session_exit_code(None), pyc::RESERVED_EXIT_CODE);
}

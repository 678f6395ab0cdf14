//! The decisions of one command session: alias resolution, translation of
//! the submitted tokens, interception of the `cd` built-in, and the small
//! judgements the running I/O loop makes each tick.
//!
//! The loop itself — reading the terminal, pumping the child's streams,
//! forwarding signals — is I/O and lives with the caller; everything it
//! decides is computed and proved here.

use vstd::prelude::*;
use vstd::utf8::{decode_utf8, valid_utf8};
use crate::shell::proc::ShellError;
use crate::shellenv::utf8_to_string;
use crate::textops::{chars_vec, join_spaces, join_spaces_spec, split_whitespace, split_ws_spec};
use crate::translator::{str_eq, IOProcessor, ParserError, Translator};

verus! {

/// What a submitted command asks the session to do: nothing (empty
/// command), report a syntax error, change the working directory (to the
/// given path, or home when none is given), or spawn the argv.
pub enum CommandPlan {
    Empty,
    Syntax(ParserError),
    ChangeDir(Option<String>),
    Spawn(Vec<String>),
}

/// The token sequence a command submission joins and translates: the first
/// token after alias resolution, then the remaining tokens.
pub open spec fn joined_tokens(argv: Seq<Seq<char>>, alias: Option<String>) -> Seq<char> {
    let first = match alias {
        Some(a) => a@,
        None => argv[0],
    };
    join_spaces_spec(seq![first] + argv.subrange(1, argv.len() as int))
}

/// Decides what a submitted command does, without doing it.
///
/// An empty argv plans nothing. Otherwise the first token is replaced by
/// its alias when one is given, the tokens are joined with single spaces
/// and converted to the target script; a syntax error becomes the plan. The
/// converted text is split again on whitespace: nothing left plans nothing,
/// a leading `cd` plans a directory change (to the second word, or home),
/// and anything else plans spawning the words as argv.
pub fn plan_command(processor: &IOProcessor, argv: &Vec<String>, alias: Option<String>) -> (r:
    CommandPlan)
    ensures
        argv@.len() == 0 ==> r is Empty,
        argv@.len() > 0 ==> match processor.translator.latin_spec(
            joined_tokens(argv.deep_view(), alias),
        ) {
            Err(e) => r == CommandPlan::Syntax(e),
            Ok(conv) => {
                let words = split_ws_spec(conv);
                if words.len() == 0 {
                    r is Empty
                } else if words[0] == "cd"@ {
                    match r {
                        CommandPlan::ChangeDir(target) => if words.len() > 1 {
                            target matches Some(t) && t@ == words[1]
                        } else {
                            target is None
                        },
                        _ => false,
                    }
                } else {
                    match r {
                        CommandPlan::Spawn(a) => a.deep_view() == words,
                        _ => false,
                    }
                }
            },
        },
{
    if argv.len() == 0 {
        return CommandPlan::Empty;
    }
    let mut full: Vec<String> = Vec::new();
    match &alias {
        Some(a) => full.push(a.clone()),
        None => full.push(argv[0].clone()),
    }
    let mut i: usize = 1;
    while i < argv.len()
        invariant
            1 <= i <= argv@.len(),
            full@.len() == i,
            full@[0]@ == (match alias {
                Some(a) => a@,
                None => argv@[0]@,
            }),
            forall|j: int| 1 <= j < i ==> full@[j] == argv@[j],
        decreases argv@.len() - i,
    {
        full.push(argv[i].clone());
        i = i + 1;
    }
    proof {
        let first = match alias {
            Some(a) => a@,
            None => argv.deep_view()[0],
        };
        assert forall|j: int| 0 <= j < full.deep_view().len() implies full.deep_view()[j] == (
        seq![first] + argv.deep_view().subrange(1, argv.deep_view().len() as int))[j] by {
            if j >= 1 {
                assert(full@[j] == argv@[j]);
            }
        }
        assert(full.deep_view() =~= seq![first] + argv.deep_view().subrange(
            1,
            argv.deep_view().len() as int,
        ));
    }
    let joined = join_spaces(&full);
    match processor.expression_to_latin(&joined) {
        Err(e) => CommandPlan::Syntax(e),
        Ok(conv) => {
            let cv = chars_vec(conv.as_str());
            let words = split_whitespace(&cv);
            if words.len() == 0 {
                CommandPlan::Empty
            } else if str_eq(words[0].as_str(), "cd") {
                proof {
                    assert(words.deep_view()[0] == words@[0]@);
                }
                if words.len() > 1 {
                    proof {
                        assert(words.deep_view()[1] == words@[1]@);
                    }
                    CommandPlan::ChangeDir(Some(words[1].clone()))
                } else {
                    CommandPlan::ChangeDir(None)
                }
            } else {
                proof {
                    assert(words.deep_view()[0] == words@[0]@);
                }
                CommandPlan::Spawn(words)
            }
        },
    }
}

/// The session's exit code: the cached exit status, or the reserved code
/// when none was ever observed.
pub fn session_exit_code(exit_status: Option<u8>) -> (r: u8)
    ensures
        match exit_status {
            Some(code) => r == code,
            None => r == crate::RESERVED_EXIT_CODE,
        },
{
    match exit_status {
        Some(code) => code,
        None => crate::RESERVED_EXIT_CODE,
    }
}

/// The exit code of the `cd` built-in: 0 when the directory change
/// succeeded, the reserved code when it failed.
pub fn cd_exit_code(changed: bool) -> (r: u8)
    ensures
        changed ==> r == 0,
        !changed ==> r == crate::RESERVED_EXIT_CODE,
{
    if changed {
        0
    } else {
        crate::RESERVED_EXIT_CODE
    }
}

/// One step of input buffering: a polled byte joins the buffer; a poll that
/// yielded nothing flushes a non-empty buffer to the caller, who sends it
/// to the child.
pub fn drain_input_step(buffer: &mut Vec<u8>, polled: Option<u8>) -> (flushed: Option<Vec<u8>>)
    ensures
        match polled {
            Some(b) => final(buffer)@ == old(buffer)@.push(b) && flushed is None,
            None => if old(buffer)@.len() > 0 {
                final(buffer)@.len() == 0 && (flushed matches Some(bytes) && bytes@ == old(
                    buffer,
                )@)
            } else {
                final(buffer)@ == old(buffer)@ && flushed is None
            },
        },
{
    match polled {
        Some(b) => {
            buffer.push(b);
            None
        },
        None => {
            if buffer.len() > 0 {
                let mut taken: Vec<u8> = Vec::new();
                core::mem::swap(buffer, &mut taken);
                Some(taken)
            } else {
                None
            }
        },
    }
}

/// Decodes buffered user input and converts it to the target script; the
/// text is handed on unconverted when it does not convert (the child sees
/// what the user typed), and invalid UTF-8 is an error.
pub fn translate_input(processor: &IOProcessor, bytes: &Vec<u8>) -> (r: Result<String, ShellError>)
    ensures
        !valid_utf8(bytes@) ==> r == Err::<String, ShellError>(ShellError::InvalidData),
        valid_utf8(bytes@) ==> (r matches Ok(s) && (match processor.translator.latin_spec(
            decode_utf8(bytes@),
        ) {
            Ok(conv) => s@ == conv,
            Err(_) => s@ == decode_utf8(bytes@),
        })),
{
    match utf8_to_string(bytes) {
        None => Err(ShellError::InvalidData),
        Some(text) => Ok(processor.text_to_latin(&text)),
    }
}

/// Converts a chunk of child output for display: to the host script when
/// output translation is enabled, unchanged otherwise.
pub fn translate_output(processor: &IOProcessor, enabled: bool, chunk: &String) -> (r: String)
    ensures
        enabled ==> r@ == processor.translator.cyrillic_spec(chunk@),
        !enabled ==> r@ == chunk@,
{
    if enabled {
        processor.text_to_cyrillic(chunk)
    } else {
        chunk.clone()
    }
}

/// Picks the shell to run: the one asked for on the command line, else the
/// parent process's executable, else the SHELL environment value; an error
/// when none of the three is at hand.
pub fn resolve_shell(
    cli: Option<String>,
    parent_exe: Option<String>,
    env_shell: Option<String>,
) -> (r: Result<String, ()>)
    ensures
        match cli {
            Some(sh) => r == Ok::<String, ()>(sh),
            None => match parent_exe {
                Some(sh) => r == Ok::<String, ()>(sh),
                None => match env_shell {
                    Some(sh) => r == Ok::<String, ()>(sh),
                    None => r == Err::<String, ()>(()),
                },
            },
        },
{
    match cli {
        Some(sh) => Ok(sh),
        None => match parent_exe {
            Some(sh) => Ok(sh),
            None => match env_shell {
                Some(sh) => Ok(sh),
                None => Err(()),
            },
        },
    }
}

} // verus!

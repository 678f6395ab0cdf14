//! Ukrainian translator.
//!
//! The host-to-target direction runs a quote/escape/substitution state
//! machine on top of the character mapping:
//!
//! - `"` toggles the innermost frame's quoted state, unless escaped;
//! - `\` copies through and escapes the next character;
//! - `₴` immediately followed by `(` is rewritten to the shell's `$` sigil
//!   and opens a substitution frame; `)` closes the innermost frame, and an
//!   unmatched `)` is a syntax error;
//! - inside the root quote (and not inside a substitution) characters pass
//!   through unchanged; inside a substitution they are always mapped;
//! - any frame, quote or escape left open at end of input is a syntax
//!   error.
//!
//! The target-to-host direction is a plain character/digraph mapping with
//! one character of lookahead; it has no syntax awareness and never fails.

use vstd::prelude::*;
use crate::textops::{chars_vec, from_chars};
use crate::translator::{ParserError, Translator};

verus! {

/// The Ukrainian script.
pub struct Ukrainian {}

/// One conversion frame: the quoted state and the one-shot escape flag of
/// the region being scanned. The root frame is the bottom of the stack;
/// every frame above it is an open substitution block.
#[derive(Copy, Clone, PartialEq, Eq, Structural, Debug)]
pub struct Frame {
    pub in_quote: bool,
    pub pending_escape: bool,
}

/// The initial (root) frame: not quoted, no pending escape.
pub open spec fn frame0() -> Frame {
    Frame { in_quote: false, pending_escape: false }
}

/// Letters before which `К`/`к` keeps its `K` reading when followed by a
/// space.
pub open spec fn k_before_space(p: char) -> bool {
    p == 'К' || p == 'А' || p == 'И' || p == 'О' || p == 'к' || p == 'а' || p == 'и' || p == 'о'
        || p == ' '
}

/// Letters before which a final `К`/`к` keeps its `K` reading.
pub open spec fn k_before_end(p: char) -> bool {
    k_before_space(p) || p == 'У' || p == 'у'
}

/// Front vowels after which `К`/`к` always reads `K`.
pub open spec fn k_front_vowel(n: char) -> bool {
    n == 'Є' || n == 'Е' || n == 'И' || n == 'Й' || n == 'є' || n == 'е' || n == 'и' || n == 'й'
}

/// Resolution of `К` (upper case) at position `i`: the emitted letters and
/// the number of input characters consumed.
pub open spec fn uk_k_upper(s: Seq<char>, i: int) -> (Seq<char>, int) {
    if i + 1 < s.len() {
        let n = s[i + 1];
        if k_front_vowel(n) {
            (seq!['K'], 1)
        } else if n == ' ' {
            if i == 0 {
                (seq!['K'], 1)
            } else if k_before_space(s[i - 1]) {
                (seq!['K'], 1)
            } else {
                (seq!['C'], 1)
            }
        } else if n == 'Ю' || n == 'ю' {
            (seq!['Q'], 2)
        } else if n == 'с' || n == 'С' {
            (seq!['X'], 2)
        } else if n == 'ʼ' {
            (seq!['K'], 2)
        } else if n == 'ь' || n == 'Ь' {
            (seq!['C'], 2)
        } else {
            (seq!['C'], 1)
        }
    } else {
        if i == 0 {
            (seq!['K'], 1)
        } else if k_before_end(s[i - 1]) {
            (seq!['K'], 1)
        } else {
            (seq!['C'], 1)
        }
    }
}

/// Resolution of `к` (lower case), as `uk_k_upper` but emitting lower case.
pub open spec fn uk_k_lower(s: Seq<char>, i: int) -> (Seq<char>, int) {
    if i + 1 < s.len() {
        let n = s[i + 1];
        if k_front_vowel(n) {
            (seq!['k'], 1)
        } else if n == ' ' {
            if i == 0 {
                (seq!['k'], 1)
            } else if k_before_space(s[i - 1]) {
                (seq!['k'], 1)
            } else {
                (seq!['c'], 1)
            }
        } else if n == 'Ю' || n == 'ю' {
            (seq!['q'], 2)
        } else if n == 'с' || n == 'С' {
            (seq!['x'], 2)
        } else if n == 'ʼ' {
            (seq!['k'], 2)
        } else if n == 'ь' || n == 'Ь' {
            (seq!['c'], 2)
        } else {
            (seq!['c'], 1)
        }
    } else {
        if i == 0 {
            (seq!['k'], 1)
        } else if k_before_end(s[i - 1]) {
            (seq!['k'], 1)
        } else {
            (seq!['c'], 1)
        }
    }
}

/// The Latin rendering of the character at position `i` of `s`, with the
/// number of input characters consumed (a digraph absorption consumes two).
pub open spec fn uk_latin_map(s: Seq<char>, i: int) -> (Seq<char>, int) {
    let c = s[i];
    if c == 'А' {
        (seq!['A'], 1)
    } else if c == 'а' {
        (seq!['a'], 1)
    } else if c == 'Б' {
        (seq!['B'], 1)
    } else if c == 'б' {
        (seq!['b'], 1)
    } else if c == 'В' {
        if i + 1 < s.len() && (s[i + 1] == 'ь' || s[i + 1] == 'Ь') {
            (seq!['W'], 2)
        } else {
            (seq!['V'], 1)
        }
    } else if c == 'в' {
        if i + 1 < s.len() && (s[i + 1] == 'ь' || s[i + 1] == 'Ь') {
            (seq!['w'], 2)
        } else {
            (seq!['v'], 1)
        }
    } else if c == 'Г' || c == 'Ґ' {
        (seq!['G'], 1)
    } else if c == 'г' || c == 'ґ' {
        (seq!['g'], 1)
    } else if c == 'Д' {
        (seq!['D'], 1)
    } else if c == 'д' {
        (seq!['d'], 1)
    } else if c == 'Е' {
        (seq!['E'], 1)
    } else if c == 'е' {
        (seq!['e'], 1)
    } else if c == 'Є' {
        (seq!['Y', 'E'], 1)
    } else if c == 'є' {
        (seq!['y', 'e'], 1)
    } else if c == 'Ж' {
        (seq!['J'], 1)
    } else if c == 'ж' {
        (seq!['j'], 1)
    } else if c == 'З' {
        (seq!['Z'], 1)
    } else if c == 'з' {
        (seq!['z'], 1)
    } else if c == 'И' || c == 'І' {
        (seq!['I'], 1)
    } else if c == 'и' || c == 'і' {
        (seq!['i'], 1)
    } else if c == 'Ї' {
        (seq!['Y', 'I'], 1)
    } else if c == 'ї' {
        (seq!['y', 'i'], 1)
    } else if c == 'К' {
        uk_k_upper(s, i)
    } else if c == 'к' {
        uk_k_lower(s, i)
    } else if c == 'Л' {
        (seq!['L'], 1)
    } else if c == 'л' {
        (seq!['l'], 1)
    } else if c == 'М' {
        (seq!['M'], 1)
    } else if c == 'м' {
        (seq!['m'], 1)
    } else if c == 'Н' {
        (seq!['N'], 1)
    } else if c == 'н' {
        (seq!['n'], 1)
    } else if c == 'О' {
        (seq!['O'], 1)
    } else if c == 'о' {
        (seq!['o'], 1)
    } else if c == 'П' {
        (seq!['P'], 1)
    } else if c == 'п' {
        (seq!['p'], 1)
    } else if c == 'Р' {
        (seq!['R'], 1)
    } else if c == 'р' {
        (seq!['r'], 1)
    } else if c == 'С' {
        (seq!['S'], 1)
    } else if c == 'с' {
        (seq!['s'], 1)
    } else if c == 'Т' {
        (seq!['T'], 1)
    } else if c == 'т' {
        (seq!['t'], 1)
    } else if c == 'У' {
        (seq!['U'], 1)
    } else if c == 'у' {
        (seq!['u'], 1)
    } else if c == 'Ф' {
        (seq!['F'], 1)
    } else if c == 'ф' {
        (seq!['f'], 1)
    } else if c == 'Х' {
        (seq!['H'], 1)
    } else if c == 'х' {
        (seq!['h'], 1)
    } else if c == 'Ч' {
        (seq!['C', 'H'], 1)
    } else if c == 'ч' {
        (seq!['c', 'h'], 1)
    } else if c == 'Ш' {
        (seq!['S', 'H'], 1)
    } else if c == 'ш' {
        (seq!['s', 'h'], 1)
    } else if c == 'Щ' {
        (seq!['S', 'H', 'H'], 1)
    } else if c == 'щ' {
        (seq!['s', 'h', 'h'], 1)
    } else if c == 'ʼ' {
        (seq!['\''], 1)
    } else if c == 'Й' {
        (seq!['Y'], 1)
    } else if c == 'й' {
        (seq!['y'], 1)
    } else if c == 'Ь' || c == 'ь' {
        (seq!['`'], 1)
    } else if c == 'Ю' {
        (seq!['Y', 'U'], 1)
    } else if c == 'ю' {
        (seq!['y', 'u'], 1)
    } else if c == 'Я' {
        (seq!['Y', 'A'], 1)
    } else if c == 'я' {
        (seq!['y', 'a'], 1)
    } else if c == 'Ц' {
        (seq!['Z'], 1)
    } else if c == 'ц' {
        (seq!['z'], 1)
    } else if c == '№' {
        (seq!['#'], 1)
    } else {
        (seq![c], 1)
    }
}

/// Appends the Latin rendering of the character at `i` to `out` and
/// returns how many input characters it consumed.
fn uk_latin_step(s: &Vec<char>, i: usize, out: &mut Vec<char>) -> (k: usize)
    requires
        i < s.len(),
    ensures
        1 <= k,
        i + k <= s@.len(),
        final(out)@ == old(out)@ + uk_latin_map(s@, i as int).0,
        k as int == uk_latin_map(s@, i as int).1,
{
    let c = s[i];
    let k: usize = match c {
        'А' => {
            out.push('A');
            1
        },
        'а' => {
            out.push('a');
            1
        },
        'Б' => {
            out.push('B');
            1
        },
        'б' => {
            out.push('b');
            1
        },
        'В' => {
            if i + 1 < s.len() && (s[i + 1] == 'ь' || s[i + 1] == 'Ь') {
                out.push('W');
                2
            } else {
                out.push('V');
                1
            }
        },
        'в' => {
            if i + 1 < s.len() && (s[i + 1] == 'ь' || s[i + 1] == 'Ь') {
                out.push('w');
                2
            } else {
                out.push('v');
                1
            }
        },
        'Г' | 'Ґ' => {
            out.push('G');
            1
        },
        'г' | 'ґ' => {
            out.push('g');
            1
        },
        'Д' => {
            out.push('D');
            1
        },
        'д' => {
            out.push('d');
            1
        },
        'Е' => {
            out.push('E');
            1
        },
        'е' => {
            out.push('e');
            1
        },
        'Є' => {
            out.push('Y');
            out.push('E');
            1
        },
        'є' => {
            out.push('y');
            out.push('e');
            1
        },
        'Ж' => {
            out.push('J');
            1
        },
        'ж' => {
            out.push('j');
            1
        },
        'З' => {
            out.push('Z');
            1
        },
        'з' => {
            out.push('z');
            1
        },
        'И' | 'І' => {
            out.push('I');
            1
        },
        'и' | 'і' => {
            out.push('i');
            1
        },
        'Ї' => {
            out.push('Y');
            out.push('I');
            1
        },
        'ї' => {
            out.push('y');
            out.push('i');
            1
        },
        'К' => uk_k_step_upper(s, i, out),
        'к' => uk_k_step_lower(s, i, out),
        'Л' => {
            out.push('L');
            1
        },
        'л' => {
            out.push('l');
            1
        },
        'М' => {
            out.push('M');
            1
        },
        'м' => {
            out.push('m');
            1
        },
        'Н' => {
            out.push('N');
            1
        },
        'н' => {
            out.push('n');
            1
        },
        'О' => {
            out.push('O');
            1
        },
        'о' => {
            out.push('o');
            1
        },
        'П' => {
            out.push('P');
            1
        },
        'п' => {
            out.push('p');
            1
        },
        'Р' => {
            out.push('R');
            1
        },
        'р' => {
            out.push('r');
            1
        },
        'С' => {
            out.push('S');
            1
        },
        'с' => {
            out.push('s');
            1
        },
        'Т' => {
            out.push('T');
            1
        },
        'т' => {
            out.push('t');
            1
        },
        'У' => {
            out.push('U');
            1
        },
        'у' => {
            out.push('u');
            1
        },
        'Ф' => {
            out.push('F');
            1
        },
        'ф' => {
            out.push('f');
            1
        },
        'Х' => {
            out.push('H');
            1
        },
        'х' => {
            out.push('h');
            1
        },
        'Ч' => {
            out.push('C');
            out.push('H');
            1
        },
        'ч' => {
            out.push('c');
            out.push('h');
            1
        },
        'Ш' => {
            out.push('S');
            out.push('H');
            1
        },
        'ш' => {
            out.push('s');
            out.push('h');
            1
        },
        'Щ' => {
            out.push('S');
            out.push('H');
            out.push('H');
            1
        },
        'щ' => {
            out.push('s');
            out.push('h');
            out.push('h');
            1
        },
        'ʼ' => {
            out.push('\'');
            1
        },
        'Й' => {
            out.push('Y');
            1
        },
        'й' => {
            out.push('y');
            1
        },
        'Ь' | 'ь' => {
            out.push('`');
            1
        },
        'Ю' => {
            out.push('Y');
            out.push('U');
            1
        },
        'ю' => {
            out.push('y');
            out.push('u');
            1
        },
        'Я' => {
            out.push('Y');
            out.push('A');
            1
        },
        'я' => {
            out.push('y');
            out.push('a');
            1
        },
        'Ц' => {
            out.push('Z');
            1
        },
        'ц' => {
            out.push('z');
            1
        },
        '№' => {
            out.push('#');
            1
        },
        _ => {
            out.push(c);
            1
        },
    };
    proof {
        assert(out@ =~= old(out)@ + uk_latin_map(s@, i as int).0);
    }
    k
}

/// The `К` rules, executable, upper case.
fn uk_k_step_upper(s: &Vec<char>, i: usize, out: &mut Vec<char>) -> (k: usize)
    requires
        i < s.len(),
        s@[i as int] == 'К',
    ensures
        1 <= k,
        i + k <= s@.len(),
        final(out)@ == old(out)@ + uk_k_upper(s@, i as int).0,
        k as int == uk_k_upper(s@, i as int).1,
{
    let k: usize = if i + 1 < s.len() {
        let n = s[i + 1];
        match n {
            'Є' | 'Е' | 'И' | 'Й' | 'є' | 'е' | 'и' | 'й' => {
                out.push('K');
                1
            },
            ' ' => {
                if i == 0 {
                    out.push('K');
                    1
                } else {
                    match s[i - 1] {
                        'К' | 'А' | 'И' | 'О' | 'к' | 'а' | 'и' | 'о' | ' ' => {
                            out.push('K');
                            1
                        },
                        _ => {
                            out.push('C');
                            1
                        },
                    }
                }
            },
            'Ю' | 'ю' => {
                out.push('Q');
                2
            },
            'с' | 'С' => {
                out.push('X');
                2
            },
            'ʼ' => {
                out.push('K');
                2
            },
            'ь' | 'Ь' => {
                out.push('C');
                2
            },
            _ => {
                out.push('C');
                1
            },
        }
    } else {
        if i == 0 {
            out.push('K');
            1
        } else {
            match s[i - 1] {
                'К' | 'А' | 'И' | 'О' | 'У' | 'к' | 'а' | 'и' | 'о' | 'у' | ' ' => {
                    out.push('K');
                    1
                },
                _ => {
                    out.push('C');
                    1
                },
            }
        }
    };
    proof {
        assert(out@ =~= old(out)@ + uk_k_upper(s@, i as int).0);
    }
    k
}

/// The `к` rules, executable, lower case.
fn uk_k_step_lower(s: &Vec<char>, i: usize, out: &mut Vec<char>) -> (k: usize)
    requires
        i < s.len(),
        s@[i as int] == 'к',
    ensures
        1 <= k,
        i + k <= s@.len(),
        final(out)@ == old(out)@ + uk_k_lower(s@, i as int).0,
        k as int == uk_k_lower(s@, i as int).1,
{
    let k: usize = if i + 1 < s.len() {
        let n = s[i + 1];
        match n {
            'Є' | 'Е' | 'И' | 'Й' | 'є' | 'е' | 'и' | 'й' => {
                out.push('k');
                1
            },
            ' ' => {
                if i == 0 {
                    out.push('k');
                    1
                } else {
                    match s[i - 1] {
                        'К' | 'А' | 'И' | 'О' | 'к' | 'а' | 'и' | 'о' | ' ' => {
                            out.push('k');
                            1
                        },
                        _ => {
                            out.push('c');
                            1
                        },
                    }
                }
            },
            'Ю' | 'ю' => {
                out.push('q');
                2
            },
            'с' | 'С' => {
                out.push('x');
                2
            },
            'ʼ' => {
                out.push('k');
                2
            },
            'ь' | 'Ь' => {
                out.push('c');
                2
            },
            _ => {
                out.push('c');
                1
            },
        }
    } else {
        if i == 0 {
            out.push('k');
            1
        } else {
            match s[i - 1] {
                'К' | 'А' | 'И' | 'О' | 'У' | 'к' | 'а' | 'и' | 'о' | 'у' | ' ' => {
                    out.push('k');
                    1
                },
                _ => {
                    out.push('c');
                    1
                },
            }
        }
    };
    proof {
        assert(out@ =~= old(out)@ + uk_k_lower(s@, i as int).0);
    }
    k
}

/// Prefixes the text of a successful scan; an error passes through.
pub open spec fn scan_prepend(prefix: Seq<char>, r: Result<Seq<char>, ParserError>) -> Result<
    Seq<char>,
    ParserError,
> {
    match r {
        Ok(rest) => Ok(prefix + rest),
        Err(e) => Err(e),
    }
}

proof fn lemma_scan_prepend_assoc(a: Seq<char>, t: Seq<char>, r: Result<Seq<char>, ParserError>)
    ensures
        scan_prepend(a, scan_prepend(t, r)) == scan_prepend(a + t, r),
{
    match r {
        Ok(rest) => {
            assert(a + (t + rest) =~= (a + t) + rest);
        },
        Err(_) => {},
    }
}

/// The host-to-target machine, scanning `s` from position `i` with the
/// given frame stack. Returns the converted remainder, or the syntax error.
pub open spec fn uk_scan(s: Seq<char>, i: int, frames: Seq<Frame>) -> Result<
    Seq<char>,
    ParserError,
>
    decreases s.len() - i,
    when 0 <= i <= s.len() && frames.len() >= 1
{
    if i >= s.len() {
        if frames.len() > 1 || frames.last().in_quote || frames.last().pending_escape {
            Err(ParserError::MissingToken)
        } else {
            Ok(Seq::empty())
        }
    } else {
        let c = s[i];
        let f = frames.last();
        if c == '\\' {
            let fr = frames.update(
                frames.len() - 1,
                Frame { in_quote: f.in_quote, pending_escape: true },
            );
            scan_prepend(seq!['\\'], uk_scan(s, i + 1, fr))
        } else if f.pending_escape {
            let fr = frames.update(
                frames.len() - 1,
                Frame { in_quote: f.in_quote, pending_escape: false },
            );
            if f.in_quote && frames.len() == 1 {
                scan_prepend(seq![c], uk_scan(s, i + 1, fr))
            } else {
                let m = uk_latin_map(s, i);
                let step = if 1 <= m.1 {
                    m.1
                } else {
                    1
                };
                let j = if i + step <= s.len() {
                    i + step
                } else {
                    s.len() as int
                };
                scan_prepend(m.0, uk_scan(s, j, fr))
            }
        } else if c == '"' {
            let fr = frames.update(
                frames.len() - 1,
                Frame { in_quote: !f.in_quote, pending_escape: false },
            );
            scan_prepend(seq!['"'], uk_scan(s, i + 1, fr))
        } else if c == '₴' && i + 1 < s.len() && s[i + 1] == '(' {
            scan_prepend(seq!['$'], uk_scan(s, i + 1, frames.push(frame0())))
        } else if c == ')' {
            if frames.len() > 1 {
                scan_prepend(seq![')'], uk_scan(s, i + 1, frames.drop_last()))
            } else {
                Err(ParserError::MissingToken)
            }
        } else if f.in_quote && frames.len() == 1 {
            scan_prepend(seq![c], uk_scan(s, i + 1, frames))
        } else {
            let m = uk_latin_map(s, i);
            let step = if 1 <= m.1 {
                m.1
            } else {
                1
            };
            let j = if i + step <= s.len() {
                i + step
            } else {
                s.len() as int
            };
            scan_prepend(m.0, uk_scan(s, j, frames))
        }
    }
}

/// What Ukrainian host-to-target conversion returns on `s`.
pub open spec fn uk_to_latin_spec(s: Seq<char>) -> Result<Seq<char>, ParserError> {
    uk_scan(s, 0, seq![frame0()])
}

/// The target-to-host rendering of the character at position `i` of `s`,
/// with the number of input characters consumed.
pub open spec fn uk_cyr_map(s: Seq<char>, i: int) -> (Seq<char>, int) {
    let c = s[i];
    let n_ex = i + 1 < s.len();
    if c == 'A' {
        (seq!['А'], 1)
    } else if c == 'a' {
        (seq!['а'], 1)
    } else if c == 'B' {
        (seq!['Б'], 1)
    } else if c == 'b' {
        (seq!['б'], 1)
    } else if c == 'C' {
        if n_ex && (s[i + 1] == 'h' || s[i + 1] == 'H') {
            (seq!['Ч'], 2)
        } else {
            (seq!['К'], 1)
        }
    } else if c == 'c' {
        if n_ex && (s[i + 1] == 'h' || s[i + 1] == 'H') {
            (seq!['ч'], 2)
        } else {
            (seq!['к'], 1)
        }
    } else if c == 'D' {
        (seq!['Д'], 1)
    } else if c == 'd' {
        (seq!['д'], 1)
    } else if c == 'E' {
        (seq!['Е'], 1)
    } else if c == 'e' {
        (seq!['е'], 1)
    } else if c == 'F' {
        (seq!['Ф'], 1)
    } else if c == 'f' {
        (seq!['ф'], 1)
    } else if c == 'G' {
        if n_ex && (s[i + 1] == 'y' || s[i + 1] == 'Y' || s[i + 1] == 'e' || s[i + 1] == 'E' || s[i
            + 1] == 'i' || s[i + 1] == 'I') {
            (seq!['Д', 'Ж'], 1)
        } else {
            (seq!['Г'], 1)
        }
    } else if c == 'g' {
        if n_ex && (s[i + 1] == 'y' || s[i + 1] == 'Y' || s[i + 1] == 'e' || s[i + 1] == 'E' || s[i
            + 1] == 'i' || s[i + 1] == 'I') {
            (seq!['д', 'ж'], 1)
        } else {
            (seq!['г'], 1)
        }
    } else if c == 'H' {
        (seq!['Х'], 1)
    } else if c == 'h' {
        (seq!['х'], 1)
    } else if c == 'I' {
        if n_ex && (s[i + 1] == 'u' || s[i + 1] == 'U') {
            (seq!['Ю'], 2)
        } else if n_ex && (s[i + 1] == 'a' || s[i + 1] == 'A') {
            (seq!['Я'], 2)
        } else {
            (seq!['И'], 1)
        }
    } else if c == 'i' {
        if n_ex && (s[i + 1] == 'u' || s[i + 1] == 'U') {
            (seq!['ю'], 2)
        } else if n_ex && (s[i + 1] == 'a' || s[i + 1] == 'A') {
            (seq!['я'], 2)
        } else {
            (seq!['и'], 1)
        }
    } else if c == 'J' {
        (seq!['Ж'], 1)
    } else if c == 'j' {
        (seq!['ж'], 1)
    } else if c == 'K' {
        (seq!['К'], 1)
    } else if c == 'k' {
        (seq!['к'], 1)
    } else if c == 'L' {
        (seq!['Л'], 1)
    } else if c == 'l' {
        (seq!['л'], 1)
    } else if c == 'M' {
        (seq!['М'], 1)
    } else if c == 'm' {
        (seq!['м'], 1)
    } else if c == 'N' {
        (seq!['Н'], 1)
    } else if c == 'n' {
        (seq!['н'], 1)
    } else if c == 'O' {
        (seq!['О'], 1)
    } else if c == 'o' {
        (seq!['о'], 1)
    } else if c == 'P' {
        (seq!['П'], 1)
    } else if c == 'p' {
        (seq!['п'], 1)
    } else if c == 'Q' {
        (seq!['К', 'Ю'], 1)
    } else if c == 'q' {
        (seq!['к', 'ю'], 1)
    } else if c == 'R' {
        (seq!['Р'], 1)
    } else if c == 'r' {
        (seq!['р'], 1)
    } else if c == 'S' {
        if n_ex && (s[i + 1] == 'h' || s[i + 1] == 'H') {
            (seq!['Ш'], 2)
        } else {
            (seq!['С'], 1)
        }
    } else if c == 's' {
        if n_ex && (s[i + 1] == 'h' || s[i + 1] == 'H') {
            (seq!['ш'], 2)
        } else {
            (seq!['с'], 1)
        }
    } else if c == 'T' {
        if n_ex && (s[i + 1] == 's' || s[i + 1] == 'S') {
            (seq!['Ц'], 2)
        } else {
            (seq!['Т'], 1)
        }
    } else if c == 't' {
        if n_ex && (s[i + 1] == 's' || s[i + 1] == 'S') {
            (seq!['ц'], 2)
        } else {
            (seq!['т'], 1)
        }
    } else if c == 'U' {
        (seq!['У'], 1)
    } else if c == 'u' {
        (seq!['у'], 1)
    } else if c == 'V' {
        (seq!['В'], 1)
    } else if c == 'v' {
        (seq!['в'], 1)
    } else if c == 'W' {
        (seq!['У'], 1)
    } else if c == 'w' {
        (seq!['у'], 1)
    } else if c == 'X' {
        (seq!['К', 'С'], 1)
    } else if c == 'x' {
        (seq!['к', 'с'], 1)
    } else if c == 'Y' {
        if n_ex && (s[i + 1] == 'e' || s[i + 1] == 'E') {
            (seq!['Є'], 2)
        } else {
            (seq!['Й'], 1)
        }
    } else if c == 'y' {
        if n_ex && (s[i + 1] == 'e' || s[i + 1] == 'E') {
            (seq!['є'], 2)
        } else {
            (seq!['й'], 1)
        }
    } else if c == 'Z' {
        (seq!['З'], 1)
    } else if c == 'z' {
        (seq!['з'], 1)
    } else {
        (seq![c], 1)
    }
}

/// Appends the Cyrillic rendering of the character at `i` to `out` and
/// returns how many input characters it consumed.
fn uk_cyr_step(s: &Vec<char>, i: usize, out: &mut Vec<char>) -> (k: usize)
    requires
        i < s.len(),
    ensures
        1 <= k,
        i + k <= s@.len(),
        final(out)@ == old(out)@ + uk_cyr_map(s@, i as int).0,
        k as int == uk_cyr_map(s@, i as int).1,
{
    let c = s[i];
    let k: usize = match c {
        'A' => {
            out.push('А');
            1
        },
        'a' => {
            out.push('а');
            1
        },
        'B' => {
            out.push('Б');
            1
        },
        'b' => {
            out.push('б');
            1
        },
        'C' => {
            if i + 1 < s.len() && (s[i + 1] == 'h' || s[i + 1] == 'H') {
                out.push('Ч');
                2
            } else {
                out.push('К');
                1
            }
        },
        'c' => {
            if i + 1 < s.len() && (s[i + 1] == 'h' || s[i + 1] == 'H') {
                out.push('ч');
                2
            } else {
                out.push('к');
                1
            }
        },
        'D' => {
            out.push('Д');
            1
        },
        'd' => {
            out.push('д');
            1
        },
        'E' => {
            out.push('Е');
            1
        },
        'e' => {
            out.push('е');
            1
        },
        'F' => {
            out.push('Ф');
            1
        },
        'f' => {
            out.push('ф');
            1
        },
        'G' => {
            if i + 1 < s.len() && (s[i + 1] == 'y' || s[i + 1] == 'Y' || s[i + 1] == 'e' || s[i + 1]
                == 'E' || s[i + 1] == 'i' || s[i + 1] == 'I') {
                out.push('Д');
                out.push('Ж');
                1
            } else {
                out.push('Г');
                1
            }
        },
        'g' => {
            if i + 1 < s.len() && (s[i + 1] == 'y' || s[i + 1] == 'Y' || s[i + 1] == 'e' || s[i + 1]
                == 'E' || s[i + 1] == 'i' || s[i + 1] == 'I') {
                out.push('д');
                out.push('ж');
                1
            } else {
                out.push('г');
                1
            }
        },
        'H' => {
            out.push('Х');
            1
        },
        'h' => {
            out.push('х');
            1
        },
        'I' => {
            if i + 1 < s.len() && (s[i + 1] == 'u' || s[i + 1] == 'U') {
                out.push('Ю');
                2
            } else if i + 1 < s.len() && (s[i + 1] == 'a' || s[i + 1] == 'A') {
                out.push('Я');
                2
            } else {
                out.push('И');
                1
            }
        },
        'i' => {
            if i + 1 < s.len() && (s[i + 1] == 'u' || s[i + 1] == 'U') {
                out.push('ю');
                2
            } else if i + 1 < s.len() && (s[i + 1] == 'a' || s[i + 1] == 'A') {
                out.push('я');
                2
            } else {
                out.push('и');
                1
            }
        },
        'J' => {
            out.push('Ж');
            1
        },
        'j' => {
            out.push('ж');
            1
        },
        'K' => {
            out.push('К');
            1
        },
        'k' => {
            out.push('к');
            1
        },
        'L' => {
            out.push('Л');
            1
        },
        'l' => {
            out.push('л');
            1
        },
        'M' => {
            out.push('М');
            1
        },
        'm' => {
            out.push('м');
            1
        },
        'N' => {
            out.push('Н');
            1
        },
        'n' => {
            out.push('н');
            1
        },
        'O' => {
            out.push('О');
            1
        },
        'o' => {
            out.push('о');
            1
        },
        'P' => {
            out.push('П');
            1
        },
        'p' => {
            out.push('п');
            1
        },
        'Q' => {
            out.push('К');
            out.push('Ю');
            1
        },
        'q' => {
            out.push('к');
            out.push('ю');
            1
        },
        'R' => {
            out.push('Р');
            1
        },
        'r' => {
            out.push('р');
            1
        },
        'S' => {
            if i + 1 < s.len() && (s[i + 1] == 'h' || s[i + 1] == 'H') {
                out.push('Ш');
                2
            } else {
                out.push('С');
                1
            }
        },
        's' => {
            if i + 1 < s.len() && (s[i + 1] == 'h' || s[i + 1] == 'H') {
                out.push('ш');
                2
            } else {
                out.push('с');
                1
            }
        },
        'T' => {
            if i + 1 < s.len() && (s[i + 1] == 's' || s[i + 1] == 'S') {
                out.push('Ц');
                2
            } else {
                out.push('Т');
                1
            }
        },
        't' => {
            if i + 1 < s.len() && (s[i + 1] == 's' || s[i + 1] == 'S') {
                out.push('ц');
                2
            } else {
                out.push('т');
                1
            }
        },
        'U' => {
            out.push('У');
            1
        },
        'u' => {
            out.push('у');
            1
        },
        'V' => {
            out.push('В');
            1
        },
        'v' => {
            out.push('в');
            1
        },
        'W' => {
            out.push('У');
            1
        },
        'w' => {
            out.push('у');
            1
        },
        'X' => {
            out.push('К');
            out.push('С');
            1
        },
        'x' => {
            out.push('к');
            out.push('с');
            1
        },
        'Y' => {
            if i + 1 < s.len() && (s[i + 1] == 'e' || s[i + 1] == 'E') {
                out.push('Є');
                2
            } else {
                out.push('Й');
                1
            }
        },
        'y' => {
            if i + 1 < s.len() && (s[i + 1] == 'e' || s[i + 1] == 'E') {
                out.push('є');
                2
            } else {
                out.push('й');
                1
            }
        },
        'Z' => {
            out.push('З');
            1
        },
        'z' => {
            out.push('з');
            1
        },
        _ => {
            out.push(c);
            1
        },
    };
    proof {
        assert(out@ =~= old(out)@ + uk_cyr_map(s@, i as int).0);
    }
    k
}

/// The target-to-host conversion of `s` from position `i` on.
pub open spec fn uk_cyr_scan(s: Seq<char>, i: int) -> Seq<char>
    decreases s.len() - i,
    when 0 <= i <= s.len()
{
    if i >= s.len() {
        Seq::empty()
    } else {
        let m = uk_cyr_map(s, i);
        let step = if 1 <= m.1 {
            m.1
        } else {
            1
        };
        let j = if i + step <= s.len() {
            i + step
        } else {
            s.len() as int
        };
        m.0 + uk_cyr_scan(s, j)
    }
}

/// What Ukrainian target-to-host conversion returns on `s`.
pub open spec fn uk_to_cyrillic_spec(s: Seq<char>) -> Seq<char> {
    uk_cyr_scan(s, 0)
}

/// Replaces the last frame of the stack.
fn set_last_frame(frames: &mut Vec<Frame>, fr: Frame)
    requires
        old(frames)@.len() >= 1,
    ensures
        final(frames)@ == old(frames)@.update(old(frames)@.len() - 1, fr),
{
    let _ = frames.pop();
    frames.push(fr);
    proof {
        assert(frames@ =~= old(frames)@.update(old(frames)@.len() - 1, fr));
    }
}

impl Translator for Ukrainian {
    open spec fn latin_spec(&self, s: Seq<char>) -> Result<Seq<char>, ParserError> {
        uk_to_latin_spec(s)
    }

    open spec fn cyrillic_spec(&self, s: Seq<char>) -> Seq<char> {
        uk_to_cyrillic_spec(s)
    }

    fn to_latin(&self, input: &String) -> (r: Result<String, ParserError>) {
        let v = chars_vec(input.as_str());
        let mut out: Vec<char> = Vec::new();
        let mut frames: Vec<Frame> = Vec::new();
        frames.push(Frame { in_quote: false, pending_escape: false });
        let mut i: usize = 0;
        proof {
            assert(frames@ =~= seq![frame0()]);
        }
        loop
            invariant
                v@ == input@,
                frames@.len() >= 1,
                i <= v@.len(),
                uk_to_latin_spec(input@) == scan_prepend(out@, uk_scan(v@, i as int, frames@)),
            decreases v@.len() - i,
        {
            if i >= v.len() {
                let f = frames[frames.len() - 1];
                if frames.len() > 1 || f.in_quote || f.pending_escape {
                    return Err(ParserError::MissingToken);
                } else {
                    proof {
                        assert(out@ + Seq::<char>::empty() =~= out@);
                    }
                    return Ok(from_chars(&out));
                }
            }
            let ghost out0 = out@;
            let ghost frames0 = frames@;
            let c = v[i];
            let f = frames[frames.len() - 1];
            if c == '\\' {
                out.push('\\');
                set_last_frame(&mut frames, Frame { in_quote: f.in_quote, pending_escape: true });
                proof {
                    lemma_scan_prepend_assoc(out0, seq!['\\'], uk_scan(v@, i + 1, frames@));
                    assert(out@ =~= out0 + seq!['\\']);
                }
                i = i + 1;
            } else if f.pending_escape {
                set_last_frame(&mut frames, Frame { in_quote: f.in_quote, pending_escape: false });
                if f.in_quote && frames.len() == 1 {
                    out.push(c);
                    proof {
                        lemma_scan_prepend_assoc(out0, seq![c], uk_scan(v@, i + 1, frames@));
                        assert(out@ =~= out0 + seq![c]);
                    }
                    i = i + 1;
                } else {
                    let k = uk_latin_step(&v, i, &mut out);
                    proof {
                        lemma_scan_prepend_assoc(
                            out0,
                            uk_latin_map(v@, i as int).0,
                            uk_scan(v@, i + k, frames@),
                        );
                    }
                    i = i + k;
                }
            } else if c == '"' {
                out.push('"');
                set_last_frame(&mut frames, Frame { in_quote: !f.in_quote, pending_escape: false });
                proof {
                    lemma_scan_prepend_assoc(out0, seq!['"'], uk_scan(v@, i + 1, frames@));
                    assert(out@ =~= out0 + seq!['"']);
                }
                i = i + 1;
            } else if c == '₴' && i + 1 < v.len() && v[i + 1] == '(' {
                out.push('$');
                frames.push(Frame { in_quote: false, pending_escape: false });
                proof {
                    assert(frames@ =~= frames0.push(frame0()));
                    lemma_scan_prepend_assoc(out0, seq!['$'], uk_scan(v@, i + 1, frames@));
                    assert(out@ =~= out0 + seq!['$']);
                }
                i = i + 1;
            } else if c == ')' {
                if frames.len() > 1 {
                    out.push(')');
                    let _ = frames.pop();
                    proof {
                        assert(frames@ =~= frames0.drop_last());
                        lemma_scan_prepend_assoc(out0, seq![')'], uk_scan(v@, i + 1, frames@));
                        assert(out@ =~= out0 + seq![')']);
                    }
                    i = i + 1;
                } else {
                    return Err(ParserError::MissingToken);
                }
            } else if f.in_quote && frames.len() == 1 {
                out.push(c);
                proof {
                    lemma_scan_prepend_assoc(out0, seq![c], uk_scan(v@, i + 1, frames@));
                    assert(out@ =~= out0 + seq![c]);
                }
                i = i + 1;
            } else {
                let k = uk_latin_step(&v, i, &mut out);
                proof {
                    lemma_scan_prepend_assoc(
                        out0,
                        uk_latin_map(v@, i as int).0,
                        uk_scan(v@, i + k, frames@),
                    );
                }
                i = i + k;
            }
        }
    }

    fn to_cyrillic(&self, input: &String) -> (r: String) {
        let v = chars_vec(input.as_str());
        let mut out: Vec<char> = Vec::new();
        let mut i: usize = 0;
        while i < v.len()
            invariant
                v@ == input@,
                i <= v@.len(),
                uk_to_cyrillic_spec(input@) == out@ + uk_cyr_scan(v@, i as int),
            decreases v@.len() - i,
        {
            let ghost out0 = out@;
            let k = uk_cyr_step(&v, i, &mut out);
            proof {
                assert(out0 + (uk_cyr_map(v@, i as int).0 + uk_cyr_scan(v@, i + k)) =~= out@
                    + uk_cyr_scan(v@, i + k));
            }
            i = i + k;
        }
        proof {
            assert(out@ + Seq::<char>::empty() =~= out@);
        }
        from_chars(&out)
    }
}

/// The machine's control scan alone: whether scanning `s` from `i` with the
/// given frame stack reaches end of input with every construct closed. This
/// tracks only the syntax state; no text is produced.
pub open spec fn uk_syntax_ok(s: Seq<char>, i: int, frames: Seq<Frame>) -> bool
    decreases s.len() - i,
    when 0 <= i <= s.len() && frames.len() >= 1
{
    if i >= s.len() {
        !(frames.len() > 1 || frames.last().in_quote || frames.last().pending_escape)
    } else {
        let c = s[i];
        let f = frames.last();
        if c == '\\' {
            uk_syntax_ok(
                s,
                i + 1,
                frames.update(frames.len() - 1, Frame { in_quote: f.in_quote, pending_escape: true }),
            )
        } else if f.pending_escape {
            let fr = frames.update(
                frames.len() - 1,
                Frame { in_quote: f.in_quote, pending_escape: false },
            );
            if f.in_quote && frames.len() == 1 {
                uk_syntax_ok(s, i + 1, fr)
            } else {
                let m = uk_latin_map(s, i);
                let step = if 1 <= m.1 {
                    m.1
                } else {
                    1
                };
                let j = if i + step <= s.len() {
                    i + step
                } else {
                    s.len() as int
                };
                uk_syntax_ok(s, j, fr)
            }
        } else if c == '"' {
            uk_syntax_ok(
                s,
                i + 1,
                frames.update(
                    frames.len() - 1,
                    Frame { in_quote: !f.in_quote, pending_escape: false },
                ),
            )
        } else if c == '₴' && i + 1 < s.len() && s[i + 1] == '(' {
            uk_syntax_ok(s, i + 1, frames.push(frame0()))
        } else if c == ')' {
            if frames.len() > 1 {
                uk_syntax_ok(s, i + 1, frames.drop_last())
            } else {
                false
            }
        } else if f.in_quote && frames.len() == 1 {
            uk_syntax_ok(s, i + 1, frames)
        } else {
            let m = uk_latin_map(s, i);
            let step = if 1 <= m.1 {
                m.1
            } else {
                1
            };
            let j = if i + step <= s.len() {
                i + step
            } else {
                s.len() as int
            };
            uk_syntax_ok(s, j, frames)
        }
    }
}

/// An input is balanced when its quotes, escapes and substitution
/// parentheses all close before end of input and no `)` appears with no
/// block open.
pub open spec fn balanced(s: Seq<char>) -> bool {
    uk_syntax_ok(s, 0, seq![frame0()])
}

proof fn lemma_scan_ok_iff_syntax_ok(s: Seq<char>, i: int, frames: Seq<Frame>)
    requires
        0 <= i <= s.len(),
        frames.len() >= 1,
    ensures
        (uk_scan(s, i, frames) is Ok) == uk_syntax_ok(s, i, frames),
    decreases s.len() - i,
{
    if i >= s.len() {
    } else {
        let c = s[i];
        let f = frames.last();
        if c == '\\' {
            lemma_scan_ok_iff_syntax_ok(
                s,
                i + 1,
                frames.update(frames.len() - 1, Frame { in_quote: f.in_quote, pending_escape: true }),
            );
        } else if f.pending_escape {
            let fr = frames.update(
                frames.len() - 1,
                Frame { in_quote: f.in_quote, pending_escape: false },
            );
            if f.in_quote && frames.len() == 1 {
                lemma_scan_ok_iff_syntax_ok(s, i + 1, fr);
            } else {
                let m = uk_latin_map(s, i);
                let step = if 1 <= m.1 {
                    m.1
                } else {
                    1
                };
                let j = if i + step <= s.len() {
                    i + step
                } else {
                    s.len() as int
                };
                lemma_scan_ok_iff_syntax_ok(s, j, fr);
            }
        } else if c == '"' {
            lemma_scan_ok_iff_syntax_ok(
                s,
                i + 1,
                frames.update(
                    frames.len() - 1,
                    Frame { in_quote: !f.in_quote, pending_escape: false },
                ),
            );
        } else if c == '₴' && i + 1 < s.len() && s[i + 1] == '(' {
            lemma_scan_ok_iff_syntax_ok(s, i + 1, frames.push(frame0()));
        } else if c == ')' {
            if frames.len() > 1 {
                lemma_scan_ok_iff_syntax_ok(s, i + 1, frames.drop_last());
            }
        } else if f.in_quote && frames.len() == 1 {
            lemma_scan_ok_iff_syntax_ok(s, i + 1, frames);
        } else {
            let m = uk_latin_map(s, i);
            let step = if 1 <= m.1 {
                m.1
            } else {
                1
            };
            let j = if i + step <= s.len() {
                i + step
            } else {
                s.len() as int
            };
            lemma_scan_ok_iff_syntax_ok(s, j, frames);
        }
    }
}

/// Law: every balanced input converts successfully, and only balanced
/// inputs do.
pub proof fn lemma_balanced_converts(s: Seq<char>)
    ensures
        balanced(s) <==> (uk_to_latin_spec(s) is Ok),
{
    lemma_scan_ok_iff_syntax_ok(s, 0, seq![frame0()]);
}

/// Law: an input with an unmatched `)`, or with a quote, escape or
/// substitution block left open at end of input, fails with `MissingToken`.
pub proof fn lemma_unbalanced_fails(s: Seq<char>)
    ensures
        !balanced(s) ==> uk_to_latin_spec(s) == Err::<Seq<char>, ParserError>(
            ParserError::MissingToken,
        ),
{
    lemma_scan_ok_iff_syntax_ok(s, 0, seq![frame0()]);
    if !balanced(s) {
        match uk_to_latin_spec(s) {
            Ok(_) => {
                assert(false);
            },
            Err(e) => {
            },
        }
    }
}

} // verus!

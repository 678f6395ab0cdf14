//! Russian translator: a plain, symmetric letter-for-letter mapping.
//!
//! Only the letters with a one-to-one Latin counterpart are mapped; every
//! other character passes through unchanged, in both directions. This
//! script defines no quoting or substitution syntax, so the host-to-target
//! direction always succeeds.

use vstd::prelude::*;
use crate::textops::{chars_vec, from_chars};
use crate::translator::{ParserError, Translator};

verus! {

/// The Russian script.
pub struct Russian {}

/// The Latin counterpart of one Russian letter; characters without one map
/// to themselves.
pub open spec fn ru_latin_char(c: char) -> char {
    if c == 'а' {
        'a'
    } else if c == 'б' {
        'b'
    } else if c == 'в' {
        'v'
    } else if c == 'г' {
        'g'
    } else if c == 'д' {
        'd'
    } else if c == 'е' {
        'e'
    } else if c == 'ж' {
        'j'
    } else if c == 'з' {
        'z'
    } else if c == 'и' {
        'i'
    } else if c == 'й' {
        'y'
    } else if c == 'к' {
        'k'
    } else if c == 'л' {
        'l'
    } else if c == 'м' {
        'm'
    } else if c == 'н' {
        'n'
    } else if c == 'о' {
        'o'
    } else if c == 'п' {
        'p'
    } else if c == 'р' {
        'r'
    } else if c == 'с' {
        's'
    } else if c == 'т' {
        't'
    } else if c == 'у' {
        'u'
    } else if c == 'ф' {
        'f'
    } else if c == 'х' {
        'h'
    } else if c == 'ц' {
        'c'
    } else if c == 'А' {
        'A'
    } else if c == 'Б' {
        'B'
    } else if c == 'В' {
        'V'
    } else if c == 'Г' {
        'G'
    } else if c == 'Д' {
        'D'
    } else if c == 'Е' {
        'E'
    } else if c == 'Ж' {
        'J'
    } else if c == 'З' {
        'Z'
    } else if c == 'И' {
        'I'
    } else if c == 'Й' {
        'Y'
    } else if c == 'К' {
        'K'
    } else if c == 'Л' {
        'L'
    } else if c == 'М' {
        'M'
    } else if c == 'Н' {
        'N'
    } else if c == 'О' {
        'O'
    } else if c == 'П' {
        'P'
    } else if c == 'Р' {
        'R'
    } else if c == 'С' {
        'S'
    } else if c == 'Т' {
        'T'
    } else if c == 'У' {
        'U'
    } else if c == 'Ф' {
        'F'
    } else if c == 'Х' {
        'H'
    } else if c == 'Ц' {
        'C'
    } else {
        c
    }
}

/// The Russian counterpart of one Latin letter: the inverse of
/// `ru_latin_char` on the mapped letters.
pub open spec fn ru_cyrillic_char(c: char) -> char {
    if c == 'a' {
        'а'
    } else if c == 'b' {
        'б'
    } else if c == 'v' {
        'в'
    } else if c == 'g' {
        'г'
    } else if c == 'd' {
        'д'
    } else if c == 'e' {
        'е'
    } else if c == 'j' {
        'ж'
    } else if c == 'z' {
        'з'
    } else if c == 'i' {
        'и'
    } else if c == 'y' {
        'й'
    } else if c == 'k' {
        'к'
    } else if c == 'l' {
        'л'
    } else if c == 'm' {
        'м'
    } else if c == 'n' {
        'н'
    } else if c == 'o' {
        'о'
    } else if c == 'p' {
        'п'
    } else if c == 'r' {
        'р'
    } else if c == 's' {
        'с'
    } else if c == 't' {
        'т'
    } else if c == 'u' {
        'у'
    } else if c == 'f' {
        'ф'
    } else if c == 'h' {
        'х'
    } else if c == 'c' {
        'ц'
    } else if c == 'A' {
        'А'
    } else if c == 'B' {
        'Б'
    } else if c == 'V' {
        'В'
    } else if c == 'G' {
        'Г'
    } else if c == 'D' {
        'Д'
    } else if c == 'E' {
        'Е'
    } else if c == 'J' {
        'Ж'
    } else if c == 'Z' {
        'З'
    } else if c == 'I' {
        'И'
    } else if c == 'Y' {
        'Й'
    } else if c == 'K' {
        'К'
    } else if c == 'L' {
        'Л'
    } else if c == 'M' {
        'М'
    } else if c == 'N' {
        'Н'
    } else if c == 'O' {
        'О'
    } else if c == 'P' {
        'П'
    } else if c == 'R' {
        'Р'
    } else if c == 'S' {
        'С'
    } else if c == 'T' {
        'Т'
    } else if c == 'U' {
        'У'
    } else if c == 'F' {
        'Ф'
    } else if c == 'H' {
        'Х'
    } else if c == 'C' {
        'Ц'
    } else {
        c
    }
}

fn ru_latin_char_exec(c: char) -> (r: char)
    ensures
        r == ru_latin_char(c),
{
    match c {
        'а' => 'a',
        'б' => 'b',
        'в' => 'v',
        'г' => 'g',
        'д' => 'd',
        'е' => 'e',
        'ж' => 'j',
        'з' => 'z',
        'и' => 'i',
        'й' => 'y',
        'к' => 'k',
        'л' => 'l',
        'м' => 'm',
        'н' => 'n',
        'о' => 'o',
        'п' => 'p',
        'р' => 'r',
        'с' => 's',
        'т' => 't',
        'у' => 'u',
        'ф' => 'f',
        'х' => 'h',
        'ц' => 'c',
        'А' => 'A',
        'Б' => 'B',
        'В' => 'V',
        'Г' => 'G',
        'Д' => 'D',
        'Е' => 'E',
        'Ж' => 'J',
        'З' => 'Z',
        'И' => 'I',
        'Й' => 'Y',
        'К' => 'K',
        'Л' => 'L',
        'М' => 'M',
        'Н' => 'N',
        'О' => 'O',
        'П' => 'P',
        'Р' => 'R',
        'С' => 'S',
        'Т' => 'T',
        'У' => 'U',
        'Ф' => 'F',
        'Х' => 'H',
        'Ц' => 'C',
        _ => c,
    }
}

fn ru_cyrillic_char_exec(c: char) -> (r: char)
    ensures
        r == ru_cyrillic_char(c),
{
    match c {
        'a' => 'а',
        'b' => 'б',
        'v' => 'в',
        'g' => 'г',
        'd' => 'д',
        'e' => 'е',
        'j' => 'ж',
        'z' => 'з',
        'i' => 'и',
        'y' => 'й',
        'k' => 'к',
        'l' => 'л',
        'm' => 'м',
        'n' => 'н',
        'o' => 'о',
        'p' => 'п',
        'r' => 'р',
        's' => 'с',
        't' => 'т',
        'u' => 'у',
        'f' => 'ф',
        'h' => 'х',
        'c' => 'ц',
        'A' => 'А',
        'B' => 'Б',
        'V' => 'В',
        'G' => 'Г',
        'D' => 'Д',
        'E' => 'Е',
        'J' => 'Ж',
        'Z' => 'З',
        'I' => 'И',
        'Y' => 'Й',
        'K' => 'К',
        'L' => 'Л',
        'M' => 'М',
        'N' => 'Н',
        'O' => 'О',
        'P' => 'П',
        'R' => 'Р',
        'S' => 'С',
        'T' => 'Т',
        'U' => 'У',
        'F' => 'Ф',
        'H' => 'Х',
        'C' => 'Ц',
        _ => c,
    }
}

impl Translator for Russian {
    open spec fn latin_spec(&self, s: Seq<char>) -> Result<Seq<char>, ParserError> {
        Ok(s.map_values(|c: char| ru_latin_char(c)))
    }

    open spec fn cyrillic_spec(&self, s: Seq<char>) -> Seq<char> {
        s.map_values(|c: char| ru_cyrillic_char(c))
    }

    fn to_latin(&self, input: &String) -> (r: Result<String, ParserError>) {
        let v = chars_vec(input.as_str());
        let mut out: Vec<char> = Vec::new();
        let mut i: usize = 0;
        while i < v.len()
            invariant
                v@ == input@,
                i <= v@.len(),
                out@ == v@.subrange(0, i as int).map_values(|c: char| ru_latin_char(c)),
            decreases v.len() - i,
        {
            out.push(ru_latin_char_exec(v[i]));
            proof {
                assert(out@ =~= v@.subrange(0, i + 1 as int).map_values(
                    |c: char| ru_latin_char(c),
                ));
            }
            i = i + 1;
        }
        proof {
            assert(v@.subrange(0, v@.len() as int) =~= v@);
        }
        Ok(from_chars(&out))
    }

    fn to_cyrillic(&self, input: &String) -> (r: String) {
        let v = chars_vec(input.as_str());
        let mut out: Vec<char> = Vec::new();
        let mut i: usize = 0;
        while i < v.len()
            invariant
                v@ == input@,
                i <= v@.len(),
                out@ == v@.subrange(0, i as int).map_values(|c: char| ru_cyrillic_char(c)),
            decreases v.len() - i,
        {
            out.push(ru_cyrillic_char_exec(v[i]));
            proof {
                assert(out@ =~= v@.subrange(0, i + 1 as int).map_values(
                    |c: char| ru_cyrillic_char(c),
                ));
            }
            i = i + 1;
        }
        proof {
            assert(v@.subrange(0, v@.len() as int) =~= v@);
        }
        from_chars(&out)
    }
}

} // verus!

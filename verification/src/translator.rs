//! Conversion between a Cyrillic host script and the Latin target script.
//!
//! Each supported script provides a [`Translator`] implementation; the
//! host-to-target direction additionally understands quoting, backslash
//! escapes and command-substitution blocks, and is the only direction that
//! can fail.

pub mod russian;
pub mod ukrainian;

use vstd::prelude::*;
use vstd::string::StringExecFns;
use crate::textops::chars_vec;

verus! {

/// A supported Cyrillic script.
#[derive(Copy, Clone, PartialEq, Eq, Structural, Debug)]
pub enum Language {
    Russian,
    Ukrainian,
}

/// The short display tag of each language.
pub open spec fn lang_str(l: Language) -> Seq<char> {
    match l {
        Language::Russian => "рус"@,
        Language::Ukrainian => "укр"@,
    }
}

impl Language {
    /// Short display tag of the language.
    pub fn to_string(&self) -> (r: String)
        ensures
            r@ == lang_str(*self),
    {
        match self {
            Language::Russian => String::from_str("рус"),
            Language::Ukrainian => String::from_str("укр"),
        }
    }
}

/// The single syntax error of the host-to-target direction: an unmatched
/// closing parenthesis, or an unterminated quote, escape or substitution
/// block at end of input.
#[derive(Copy, Clone, PartialEq, Eq, Structural, Debug)]
pub enum ParserError {
    MissingToken,
}

/// Conversion between the host (Cyrillic) and target (Latin) scripts.
///
/// Each implementation fixes its conversions as the two spec functions, and
/// the executable methods are proved to compute exactly those.
pub trait Translator {
    /// What host-to-target conversion returns, including its syntax errors.
    spec fn latin_spec(&self, s: Seq<char>) -> Result<Seq<char>, ParserError>;

    /// What target-to-host conversion returns; this direction never fails.
    spec fn cyrillic_spec(&self, s: Seq<char>) -> Seq<char>;

    /// Converts host-script text into target-script text, understanding
    /// quotes, escapes and substitution blocks where the script defines
    /// them.
    fn to_latin(&self, input: &String) -> (r: Result<String, ParserError>)
        ensures
            match r {
                Ok(o) => self.latin_spec(input@) == Ok::<Seq<char>, ParserError>(o@),
                Err(e) => self.latin_spec(input@) == Err::<Seq<char>, ParserError>(e),
            },
    ;

    /// Converts target-script text back into the host script; unmapped
    /// characters pass through unchanged and the call always succeeds.
    fn to_cyrillic(&self, input: &String) -> (r: String)
        ensures
            r@ == self.cyrillic_spec(input@),
    ;
}

/// A translator for one of the supported languages, chosen at run time.
pub enum LanguageTranslator {
    Russian(russian::Russian),
    Ukrainian(ukrainian::Ukrainian),
}

impl Translator for LanguageTranslator {
    open spec fn latin_spec(&self, s: Seq<char>) -> Result<Seq<char>, ParserError> {
        match self {
            LanguageTranslator::Russian(t) => t.latin_spec(s),
            LanguageTranslator::Ukrainian(t) => t.latin_spec(s),
        }
    }

    open spec fn cyrillic_spec(&self, s: Seq<char>) -> Seq<char> {
        match self {
            LanguageTranslator::Russian(t) => t.cyrillic_spec(s),
            LanguageTranslator::Ukrainian(t) => t.cyrillic_spec(s),
        }
    }

    fn to_latin(&self, input: &String) -> (r: Result<String, ParserError>) {
        match self {
            LanguageTranslator::Russian(t) => t.to_latin(input),
            LanguageTranslator::Ukrainian(t) => t.to_latin(input),
        }
    }

    fn to_cyrillic(&self, input: &String) -> (r: String) {
        match self {
            LanguageTranslator::Russian(t) => t.to_cyrillic(input),
            LanguageTranslator::Ukrainian(t) => t.to_cyrillic(input),
        }
    }
}

/// Instantiates the translator for the provided language.
pub fn new_translator(language: Language) -> (t: LanguageTranslator)
    ensures
        language == Language::Russian ==> t == LanguageTranslator::Russian(
            russian::Russian {  },
        ),
        language == Language::Ukrainian ==> t == LanguageTranslator::Ukrainian(
            ukrainian::Ukrainian {  },
        ),
{
    match language {
        Language::Russian => LanguageTranslator::Russian(russian::Russian {  }),
        Language::Ukrainian => LanguageTranslator::Ukrainian(ukrainian::Ukrainian {  }),
    }
}

/// Maps a command-line language tag to the language it names, if any.
pub fn str_to_language(lang: &str) -> (r: Option<Language>)
    ensures
        (lang@ == "ru"@ || lang@ == "рус"@) ==> r == Some(Language::Russian),
        (lang@ == "uk"@ || lang@ == "укр"@) ==> r == Some(Language::Ukrainian),
        (lang@ != "ru"@ && lang@ != "рус"@ && lang@ != "uk"@ && lang@ != "укр"@) ==> r is None,
{
    proof {
        reveal_strlit("ru");
        reveal_strlit("рус");
        reveal_strlit("uk");
        reveal_strlit("укр");
        assert("ru"@ != "uk"@) by {
            assert("ru"@[0] == 'r' && "uk"@[0] == 'u');
        }
        assert("ru"@ != "укр"@) by {
            assert("ru"@[0] == 'r' && "укр"@[0] == 'у');
        }
        assert("рус"@ != "uk"@) by {
            assert("рус"@[0] == 'р' && "uk"@[0] == 'u');
        }
        assert("рус"@ != "укр"@) by {
            assert("рус"@[0] == 'р' && "укр"@[0] == 'у');
        }
    }
    if str_eq(lang, "ru") || str_eq(lang, "рус") {
        Some(Language::Russian)
    } else if str_eq(lang, "uk") || str_eq(lang, "укр") {
        Some(Language::Ukrainian)
    } else {
        None
    }
}

/// Whether two string slices hold the same characters.
pub fn str_eq(a: &str, b: &str) -> (r: bool)
    ensures
        r == (a@ == b@),
{
    let va = chars_vec(a);
    let vb = chars_vec(b);
    if va.len() != vb.len() {
        return false;
    }
    let mut i: usize = 0;
    while i < va.len()
        invariant
            va@ == a@,
            vb@ == b@,
            va@.len() == vb@.len(),
            i <= va@.len(),
            forall|j: int| 0 <= j < i ==> va@[j] == vb@[j],
        decreases va.len() - i,
    {
        if va[i] != vb[i] {
            return false;
        }
        i = i + 1;
    }
    proof {
        assert(a@ =~= b@);
    }
    true
}

/// Couples a session's language with its translator and offers the text
/// conversions a running session needs.
pub struct IOProcessor {
    pub language: Language,
    pub translator: LanguageTranslator,
}

impl IOProcessor {
    /// Builds a processor around the given language and translator.
    pub fn new(language: Language, translator: LanguageTranslator) -> (r: IOProcessor)
        ensures
            r.language == language,
            r.translator == translator,
    {
        IOProcessor { language, translator }
    }

    /// Converts a full command expression to the target script; syntax
    /// errors are reported to the caller.
    pub fn expression_to_latin(&self, text: &String) -> (r: Result<String, ParserError>)
        ensures
            match r {
                Ok(o) => self.translator.latin_spec(text@) == Ok::<Seq<char>, ParserError>(o@),
                Err(e) => self.translator.latin_spec(text@) == Err::<Seq<char>, ParserError>(e),
            },
    {
        self.translator.to_latin(text)
    }

    /// Converts plain text to the target script; on a syntax error the text
    /// is handed back unchanged instead of failing.
    pub fn text_to_latin(&self, text: &String) -> (r: String)
        ensures
            match self.translator.latin_spec(text@) {
                Ok(o) => r@ == o,
                Err(_) => r@ == text@,
            },
    {
        match self.translator.to_latin(text) {
            Ok(converted) => converted,
            Err(_) => text.clone(),
        }
    }

    /// Converts program output back to the host script.
    pub fn text_to_cyrillic(&self, text: &String) -> (r: String)
        ensures
            r@ == self.translator.cyrillic_spec(text@),
    {
        self.translator.to_cyrillic(text)
    }
}

} // verus!

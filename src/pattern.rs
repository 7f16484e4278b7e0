//! Name patterns: regular expressions compiled by the `regex` crate.

use vstd::prelude::*;

verus! {

#[verifier::external_type_specification]
#[verifier::external_body]
pub struct ExRegex(regex::Regex);

#[verifier::external_type_specification]
#[verifier::external_body]
pub struct ExRegexError(regex::Error);

/// Whether the `regex` crate, with its default limits, compiles this pattern.
pub uninterp spec fn regex_compiles(pattern: Seq<char>) -> bool;

/// Whether the regular expression `pattern` matches somewhere in `text`.
pub uninterp spec fn regex_finds(pattern: Seq<char>, text: Seq<char>) -> bool;

/// Relies on regex::Regex::new: it compiles the pattern, or fails on a syntax
/// error or a size limit, depending on the pattern alone.
#[verifier::external_body]
fn compile(pattern: &str) -> (r: Result<regex::Regex, regex::Error>)
    ensures
        r.is_ok() == regex_compiles(pattern@),
{
    regex::Regex::new(pattern)
}

/// Relies on regex::Error's Display: a readable message for a compile error.
#[verifier::external_body]
fn error_message(e: &regex::Error) -> (r: String) {
    e.to_string()
}

/// Relies on regex::Regex::is_match: true iff the regex matches anywhere in
/// the haystack. The regex stored in a `NamePattern` is always the one that
/// `NamePattern::new` compiled from its `source`.
#[verifier::external_body]
fn found_in(p: &NamePattern, text: &str) -> (r: bool)
    ensures
        r == regex_finds(p@, text@),
{
    p.regex.is_match(text)
}

/// Why a pattern was refused: the pattern and the compiler's message.
#[derive(Debug)]
pub struct PatternError {
    pub pattern: String,
    pub message: String,
}

/// A compiled name pattern, kept together with the text it was compiled from.
#[derive(Debug)]
pub struct NamePattern {
    source: String,
    regex: regex::Regex,
}

impl View for NamePattern {
    type V = Seq<char>;

    closed spec fn view(&self) -> Seq<char> {
        self.source@
    }
}

impl NamePattern {
    /// Compiles `pattern`; fails exactly when the regex crate refuses it.
    pub fn new(pattern: &str) -> (r: Result<NamePattern, PatternError>)
        ensures
            r is Ok <==> regex_compiles(pattern@),
            r matches Ok(p) ==> p@ == pattern@,
            r matches Err(e) ==> e.pattern@ == pattern@,
    {
        match compile(pattern) {
            Ok(regex) => Ok(NamePattern { source: String::from_str(pattern), regex }),
            Err(e) => Err(PatternError { pattern: String::from_str(pattern), message: error_message(&e) }),
        }
    }

    /// The text the pattern was compiled from.
    pub fn as_str(&self) -> (r: &str)
        ensures
            r@ == self@,
    {
        self.source.as_str()
    }

    /// Whether the pattern matches somewhere in `text`.
    pub fn is_match(&self, text: &str) -> (r: bool)
        ensures
            r == regex_finds(self@, text@),
    {
        found_in(self, text)
    }
}

} // verus!

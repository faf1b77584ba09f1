//! Message patterns: regular expressions compiled once and matched against
//! commit messages.
use vstd::prelude::*;

verus! {

#[verifier::external_type_specification]
#[verifier::external_body]
pub struct ExRegex(regex::Regex);

#[verifier::external_type_specification]
#[verifier::external_body]
pub struct ExRegexError(regex::Error);

/// Whether `pattern` is accepted by the regular-expression compiler.
pub uninterp spec fn regex_compiles(pattern: Seq<char>) -> bool;

/// Whether the compiled `pattern` matches somewhere inside `haystack`.
pub uninterp spec fn regex_finds(pattern: Seq<char>, haystack: Seq<char>) -> bool;

/// Relies on `regex::Regex::new`: whether it succeeds depends on the
/// pattern text alone.
#[verifier::external_body]
fn compile_regex(pattern: &str) -> (r: Result<regex::Regex, regex::Error>)
    ensures
        r.is_ok() == regex_compiles(pattern@),
{
    regex::Regex::new(pattern)
}

/// A compiled regular expression together with the text it was compiled from.
///
/// The fields are private and `MessagePattern::new` is the only constructor,
/// so `re` is always the compilation of `source`.
pub struct MessagePattern {
    source: String,
    re: regex::Regex,
}

impl View for MessagePattern {
    type V = Seq<char>;

    closed spec fn view(&self) -> Seq<char> {
        self.source@
    }
}

/// Relies on `regex::Regex::is_match`: whether the expression compiled from
/// the pattern's text matches anywhere in `haystack`.
#[verifier::external_body]
fn regex_is_match(pattern: &MessagePattern, haystack: &str) -> (r: bool)
    ensures
        r == regex_finds(pattern@, haystack@),
{
    pattern.re.is_match(haystack)
}

impl MessagePattern {
    /// Compiles `source`; fails exactly when the regular-expression compiler
    /// rejects it.
    pub fn new(source: &str) -> (r: Result<MessagePattern, regex::Error>)
        ensures
            r.is_ok() == regex_compiles(source@),
            r matches Ok(p) ==> p@ == source@,
    {
        match compile_regex(source) {
            Ok(re) => Ok(MessagePattern { source: source.to_owned(), re }),
            Err(e) => Err(e),
        }
    }

    /// The text the pattern was compiled from.
    pub fn as_str(&self) -> (r: &str)
        ensures
            r@ == self@,
    {
        self.source.as_str()
    }

    /// Whether the pattern matches anywhere in `haystack` (a search, not a
    /// match of the whole text).
    pub fn is_match(&self, haystack: &str) -> (r: bool)
        ensures
            r == regex_finds(self@, haystack@),
    {
        regex_is_match(self, haystack)
    }
}

} // verus!

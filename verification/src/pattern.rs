use vstd::prelude::*;

verus! {

/// Lets `regex::Regex` stand in fields; its value is opaque.
#[verifier::external_type_specification]
#[verifier::external_body]
pub struct ExRegex(regex::Regex);

/// Lets `regex::Error` stand in signatures; its value is opaque.
#[verifier::external_type_specification]
#[verifier::external_body]
pub struct ExRegexError(regex::Error);

/// Whether `regex::Regex::new` accepts `pattern`.
pub uninterp spec fn regex_accepts(pattern: Seq<char>) -> bool;

/// Whether the regex that `regex::Regex::new` compiles from `pattern` finds a
/// match somewhere in `haystack` (`Regex::is_match`).
pub uninterp spec fn regex_finds(pattern: Seq<char>, haystack: Seq<char>) -> bool;

/// A compiled regular expression together with the pattern it was compiled from.
pub struct PatternMatcher {
    regex: regex::Regex,
    pattern: Ghost<Seq<char>>,
}

impl View for PatternMatcher {
    type V = Seq<char>;

    closed spec fn view(&self) -> Seq<char> {
        self.pattern@
    }
}

/// Compiles `pattern`.
///
/// Trusted: calls `regex::Regex::new`, which returns an error exactly when the
/// pattern is not accepted; the contract claims that and that the matcher
/// remembers the pattern it was compiled from. The error is passed on as is.
#[verifier::external_body]
fn compile_regex(pattern: &str) -> (r: Result<PatternMatcher, regex::Error>)
    ensures
        r is Ok <==> regex_accepts(pattern@),
        r matches Ok(m) ==> m@ == pattern@,
{
    match regex::Regex::new(pattern) {
        Ok(regex) => Ok(PatternMatcher { regex, pattern: Ghost(pattern@) }),
        Err(e) => Err(e),
    }
}

/// Whether the matcher finds a match in `text`.
///
/// Trusted: calls `regex::Regex::is_match` on the regex compiled from the
/// matcher's pattern; the contract names its result `regex_finds` of the pattern
/// and the text, which is a function of those two alone.
#[verifier::external_body]
fn regex_is_match(m: &PatternMatcher, text: &str) -> (b: bool)
    ensures
        b == regex_finds(m@, text@),
{
    m.regex.is_match(text)
}

impl PatternMatcher {
    /// Compiles `pattern`, or `None` where the regex engine refuses it.
    pub fn new(pattern: &str) -> (r: Option<PatternMatcher>)
        ensures
            r is Some <==> regex_accepts(pattern@),
            r matches Some(m) ==> m@ == pattern@,
    {
        match compile_regex(pattern) {
            Ok(m) => Some(m),
            Err(_) => None,
        }
    }

    /// Whether the pattern matches somewhere in `text`.
    pub fn is_match(&self, text: &str) -> (b: bool)
        ensures
            b == regex_finds(self@, text@),
    {
        regex_is_match(self, text)
    }
}

} // verus!

//! The pattern matcher: the user's regex, compiled exactly once per scan
//! invocation and shared read-only afterwards. Compilation failure is the
//! one fatal, scan-wide error. Matching is a boolean containment test — a
//! pure function of the pattern and the text.

use vstd::prelude::*;

verus! {

#[verifier::external_type_specification]
#[verifier::external_body]
pub struct ExRegex(regex::Regex);

/// Whether `regex::Regex::new` accepts the pattern: a function of the
/// pattern string alone.
pub uninterp spec fn pattern_compiles(pattern: Seq<char>) -> bool;

/// Whether the compiled pattern has at least one match in the text: a
/// function of the pattern and the text alone.
pub uninterp spec fn regex_match(pattern: Seq<char>, text: Seq<char>) -> bool;

/// Relies on regex::Regex::new: compilation succeeds or fails on the
/// pattern string alone; a failure is returned as the error's message text.
#[verifier::external_body]
fn regex_new(pattern: &str) -> (r: Result<regex::Regex, String>)
    ensures
        r is Ok <==> pattern_compiles(pattern@),
{
    match regex::Regex::new(pattern) {
        Ok(re) => Ok(re),
        Err(e) => Err(e.to_string()),
    }
}

/// Relies on regex::Regex::is_match: the result depends on the compiled
/// pattern and the text alone. The stored pattern text names the held regex
/// exactly, because `Pattern::compile` is the only constructor and pairs the
/// regex with the very string it was compiled from.
#[verifier::external_body]
fn regex_is_match(p: &Pattern, text: &str) -> (r: bool)
    ensures
        r == regex_match(p.pattern(), text@),
{
    p.re.is_match(text)
}

/// A regular expression compiled once per scan invocation and shared
/// read-only across all entries and all archives of the run.
pub struct Pattern {
    re: regex::Regex,
    text: Ghost<Seq<char>>,
}

impl Pattern {
    /// The pattern string this matcher was compiled from.
    pub closed spec fn pattern(&self) -> Seq<char> {
        self.text@
    }

    /// Compiles the pattern. An uncompilable pattern is the one fatal,
    /// scan-wide error: the whole invocation must fail before any archive
    /// is opened.
    pub fn compile(pattern: &str) -> (r: Result<Pattern, String>)
        ensures
            r is Ok <==> pattern_compiles(pattern@),
            r matches Ok(p) ==> p.pattern() == pattern@,
    {
        match regex_new(pattern) {
            Ok(re) => Ok(Pattern { re, text: Ghost(pattern@) }),
            Err(e) => Err(e),
        }
    }

    /// Boolean containment test: does the text hold at least one substring
    /// matching the pattern? The match's location is not reported.
    pub fn is_match(&self, text: &str) -> (r: bool)
        ensures
            r == regex_match(self.pattern(), text@),
    {
        regex_is_match(self, text)
    }
}

} // verus!

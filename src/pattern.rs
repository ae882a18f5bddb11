use vstd::prelude::*;

verus! {

/// Whether the regex crate accepts `pattern` (with its default limits).
pub uninterp spec fn pattern_compiles(pattern: Seq<char>) -> bool;

/// The text that results from replacing every non-overlapping match of
/// `pattern` in `haystack` by the expansion of the template `replacement`.
pub uninterp spec fn replaced_all(
    pattern: Seq<char>,
    haystack: Seq<char>,
    replacement: Seq<char>,
) -> Seq<char>;

#[verifier::external_type_specification]
#[verifier::external_body]
pub struct ExRegex(regex::Regex);

#[verifier::external_type_specification]
#[verifier::external_body]
pub struct ExRegexError(regex::Error);

/// A regular expression that compiled, with the text it was compiled from.
pub struct Pattern {
    regex: regex::Regex,
    source: Ghost<Seq<char>>,
}

/// A pattern that the regular-expression syntax rejects.
#[derive(Clone, Debug)]
pub struct PatternError {
    pub pattern: String,
}

/// Relies on `regex::Regex::new`: it returns `Ok` exactly when the pattern
/// is accepted, which depends on the pattern text alone.
#[verifier::external_body]
fn regex_new(pattern: &str) -> (r: Result<regex::Regex, regex::Error>)
    ensures
        r is Ok <==> pattern_compiles(pattern@),
{
    regex::Regex::new(pattern)
}

/// Relies on `regex::Regex::replace_all` with a `&str` template: every
/// non-overlapping match is replaced by the template's expansion. The
/// `Pattern` passed in was built by `compile` from its `source`, so the
/// regex is the one that `source` denotes.
#[verifier::external_body]
fn regex_replace_all(p: &Pattern, haystack: &str, replacement: &str) -> (r: String)
    ensures
        r@ == replaced_all(p.source(), haystack@, replacement@),
{
    p.regex.replace_all(haystack, replacement).into_owned()
}

/// Compiles `pattern`; fails exactly when the syntax rejects it.
pub fn compile(pattern: &str) -> (r: Result<Pattern, PatternError>)
    ensures
        r is Ok <==> pattern_compiles(pattern@),
        r matches Ok(p) ==> p.source() == pattern@,
        r matches Err(e) ==> e.pattern@ == pattern@,
{
    match regex_new(pattern) {
        Ok(regex) => Ok(Pattern { regex, source: Ghost(pattern@) }),
        Err(_) => Err(PatternError { pattern: pattern.to_owned() }),
    }
}

impl Pattern {
    /// The text this pattern was compiled from.
    pub closed spec fn source(&self) -> Seq<char> {
        self.source@
    }

    /// Replaces every match of this pattern in `haystack` by `replacement`.
    pub fn replace_all(&self, haystack: &str, replacement: &str) -> (r: String)
        ensures
            r@ == replaced_all(self.source(), haystack@, replacement@),
    {
        regex_replace_all(self, haystack, replacement)
    }
}

} // verus!

use vstd::prelude::*;

verus! {

#[verifier::external_type_specification]
#[verifier::external_body]
pub struct ExRegex(regex::Regex);

#[verifier::external_type_specification]
#[verifier::external_body]
pub struct ExRegexError(regex::Error);

/// Whether the regex engine accepts `pattern` (syntax and default size limits).
pub uninterp spec fn regex_compiles(pattern: Seq<char>) -> bool;

/// What a search of `pattern` over `haystack` yields for capture group `group`:
/// `None` when the pattern does not match, `Some(None)` when it matches but the
/// group took no part in the match (or does not exist).
pub uninterp spec fn regex_group(pattern: Seq<char>, haystack: Seq<char>, group: nat) -> Option<
    Option<Seq<char>>,
>;

/// The cue identifier that `pattern` extracts from `address`: the text of its
/// first capture group, when the pattern matches and that group took part.
pub open spec fn cue_capture(pattern: Seq<char>, address: Seq<char>) -> Option<Seq<char>> {
    match regex_group(pattern, address, 1) {
        Some(Some(id)) => Some(id),
        _ => None,
    }
}

/// Relies on `regex::Regex::new`: it fails exactly on patterns that the engine
/// refuses, and the outcome depends on the pattern alone.
#[verifier::external_body]
fn compile_regex(pattern: &str) -> (r: Result<regex::Regex, regex::Error>)
    ensures
        r is Ok <==> regex_compiles(pattern@),
{
    regex::Regex::new(pattern)
}

/// Why a pattern could not be turned into a [`Matcher`].
#[derive(Debug)]
pub enum PatternError {
    /// The engine refused the pattern; the engine's own explanation is kept.
    InvalidPattern(regex::Error),
}

/// A cue pattern, compiled once and read-only afterwards.
pub struct Matcher {
    regex: regex::Regex,
    pattern: String,
}

/// Relies on `regex::Regex::captures` and `regex::Captures::get`: the text of
/// capture group `group` of the leftmost-first match in `haystack`. The regex
/// was compiled from `m.pattern` by `Matcher::compile`, the only place where a
/// `Matcher` is made.
#[verifier::external_body]
fn capture_group(m: &Matcher, haystack: &str, group: usize) -> (r: Option<Option<String>>)
    ensures
        match r {
            None => regex_group(m.pattern@, haystack@, group as nat) is None,
            Some(None) => regex_group(m.pattern@, haystack@, group as nat) == Some(
                None::<Seq<char>>,
            ),
            Some(Some(s)) => regex_group(m.pattern@, haystack@, group as nat) == Some(
                Some(s@),
            ),
        },
{
    m.regex.captures(haystack).map(|c| c.get(group).map(|g| g.as_str().to_string()))
}

impl Matcher {
    /// The pattern text this matcher was compiled from.
    pub closed spec fn pattern_view(&self) -> Seq<char> {
        self.pattern@
    }

    /// Compiles `pattern`; fails with `InvalidPattern` exactly when the
    /// engine refuses it.
    pub fn compile(pattern: &str) -> (r: Result<Matcher, PatternError>)
        ensures
            r is Ok <==> regex_compiles(pattern@),
            r is Ok ==> r->Ok_0.pattern_view() == pattern@,
    {
        match compile_regex(pattern) {
            Ok(regex) => Ok(Matcher { regex, pattern: pattern.to_string() }),
            Err(e) => Err(PatternError::InvalidPattern(e)),
        }
    }

    /// The pattern text, for reporting.
    pub fn pattern(&self) -> (r: &str)
        ensures
            r@ == self.pattern_view(),
    {
        self.pattern.as_str()
    }

    /// The cue identifier captured from `address` by the first group, or
    /// `None` when the pattern does not match. Never fails on any input.
    pub fn match_address(&self, address: &str) -> (r: Option<String>)
        ensures
            match r {
                Some(id) => cue_capture(self.pattern_view(), address@) == Some(id@),
                None => cue_capture(self.pattern_view(), address@) is None,
            },
    {
        match capture_group(self, address, 1) {
            Some(Some(id)) => Some(id),
            _ => None,
        }
    }
}

/// Matching is a function of the pattern and the address alone: two matchers
/// compiled from the same pattern give the same answer on the same address,
/// however often they are asked.
pub proof fn lemma_match_is_pure(m1: Matcher, m2: Matcher, address: Seq<char>)
    requires
        m1.pattern_view() == m2.pattern_view(),
    ensures
        cue_capture(m1.pattern_view(), address) == cue_capture(m2.pattern_view(), address),
{
}

} // verus!

//! Compiled pattern sets: an immutable matcher built from a list of literal
//! patterns, answering whether any of them occurs in a text.

use aho_corasick::AhoCorasick;
use aho_corasick::BuildError;
use std::sync::Arc;
use vstd::prelude::*;

verus! {

#[verifier::external_type_specification]
#[verifier::external_body]
pub struct ExAhoCorasick(AhoCorasick);

#[verifier::external_type_specification]
#[verifier::external_body]
pub struct ExBuildError(BuildError);

/// The literal patterns an automaton was built from, in order.
pub uninterp spec fn automaton_patterns(ac: AhoCorasick) -> Seq<Seq<char>>;

/// Whether the automaton construction accepts this pattern set.
pub uninterp spec fn automaton_builds(patterns: Seq<Seq<char>>) -> bool;

/// `p` occurs as a contiguous run of `text`.
pub open spec fn occurs_in(p: Seq<char>, text: Seq<char>) -> bool {
    exists|k: int| 0 <= k && k + p.len() <= text.len() && #[trigger] text.subrange(k, k + p.len()) == p
}

/// Some pattern of `patterns` occurs in `text`.
pub open spec fn contains_any(patterns: Seq<Seq<char>>, text: Seq<char>) -> bool {
    exists|i: int| 0 <= i < patterns.len() && occurs_in(#[trigger] patterns[i], text)
}

/// The character sequences held by a list of strings.
pub open spec fn text_seqs(v: Seq<String>) -> Seq<Seq<char>> {
    v.map_values(|s: String| s@)
}

/// Relies on `AhoCorasick::new` with its default configuration (standard,
/// case-sensitive match semantics): on success the automaton holds exactly the
/// given patterns; an empty pattern list is always accepted.
#[verifier::external_body]
fn build_automaton(patterns: &Vec<String>) -> (r: Result<AhoCorasick, BuildError>)
    ensures
        r is Ok <==> automaton_builds(text_seqs(patterns@)),
        r matches Ok(ac) ==> automaton_patterns(ac) == text_seqs(patterns@),
        patterns@.len() == 0 ==> r is Ok,
{
    AhoCorasick::new(patterns)
}

/// Relies on `AhoCorasick::is_match`: true iff some pattern of the automaton
/// occurs anywhere in the haystack.
#[verifier::external_body]
fn automaton_is_match(ac: &AhoCorasick, text: &str) -> (r: bool)
    ensures
        r == contains_any(automaton_patterns(*ac), text@),
{
    ac.is_match(text)
}

/// Relies on `Arc::clone`: the new handle shares the same value.
#[verifier::external_body]
pub(crate) fn share(m: &Arc<Matcher>) -> (r: Arc<Matcher>)
    ensures
        r == *m,
{
    Arc::clone(m)
}

/// Why a rule set could not be loaded. Each variant belongs to one stage of
/// the load pipeline.
#[derive(Clone, Copy, Debug, PartialEq, Eq, Structural)]
pub enum LoadError {
    /// The blob was empty.
    EmptyInput,
    /// The blob was not UTF-8 text, or not valid base64.
    InvalidEncoding,
    /// The decoded bytes were not a JSON array of strings.
    InvalidPayload,
    /// The pattern set could not be compiled into a matcher.
    BuildFailed,
}

/// The status code reported at the boundary for each load failure.
pub open spec fn status_of(e: LoadError) -> int {
    match e {
        LoadError::EmptyInput => -1,
        LoadError::InvalidEncoding => -2,
        LoadError::InvalidPayload => -3,
        LoadError::BuildFailed => -4,
    }
}

impl LoadError {
    /// The boundary status code of this failure.
    pub fn status_code(&self) -> (r: i32)
        ensures
            r == status_of(*self),
    {
        match self {
            LoadError::EmptyInput => -1,
            LoadError::InvalidEncoding => -2,
            LoadError::InvalidPayload => -3,
            LoadError::BuildFailed => -4,
        }
    }
}

/// An immutable matcher for one pattern set, with the number of patterns it
/// was built from.
pub struct Matcher {
    automaton: AhoCorasick,
    pattern_count: usize,
}

impl View for Matcher {
    type V = Seq<Seq<char>>;

    closed spec fn view(&self) -> Seq<Seq<char>> {
        automaton_patterns(self.automaton)
    }
}

impl Matcher {
    #[verifier::type_invariant]
    spec fn count_agrees(&self) -> bool {
        self.pattern_count == automaton_patterns(self.automaton).len()
    }

    /// Compiles a pattern set. Fails with `BuildFailed` exactly when the
    /// automaton construction rejects the set; the empty set always compiles,
    /// to a matcher that matches nothing.
    pub fn compile(patterns: &Vec<String>) -> (r: Result<Matcher, LoadError>)
        ensures
            r is Ok <==> automaton_builds(text_seqs(patterns@)),
            r matches Ok(m) ==> m@ == text_seqs(patterns@),
            r matches Err(e) ==> e == LoadError::BuildFailed,
            patterns@.len() == 0 ==> r is Ok,
    {
        match build_automaton(patterns) {
            Ok(automaton) => Ok(Matcher { automaton, pattern_count: patterns.len() }),
            Err(_) => Err(LoadError::BuildFailed),
        }
    }

    /// Whether some pattern of this matcher occurs in `text`.
    pub fn is_match(&self, text: &str) -> (r: bool)
        ensures
            r == contains_any(self@, text@),
    {
        automaton_is_match(&self.automaton, text)
    }

    /// The number of patterns this matcher was built from.
    pub fn pattern_count(&self) -> (r: usize)
        ensures
            r == self@.len(),
    {
        proof {
            use_type_invariant(self);
        }
        self.pattern_count
    }
}

} // verus!

//! A compiled set of phrases that answers, in one pass over a text, whether
//! any of them occurs in it.
use vstd::prelude::*;
use aho_corasick::{AhoCorasick, BuildError};
use crate::error::ConfigError;
use crate::config::phrase_list;
use crate::text::{any_occurs, lower_of, lowercase, occurs_in, split_on, trimmed, views};

verus! {

#[verifier::external_type_specification]
#[verifier::external_body]
pub struct ExAhoCorasick(AhoCorasick);

#[verifier::external_type_specification]
#[verifier::external_body]
pub struct ExBuildError(BuildError);

/// The phrases that an automaton was compiled from, in order.
pub uninterp spec fn automaton_phrases(a: AhoCorasick) -> Seq<Seq<char>>;

/// Whether `AhoCorasick::new` accepts these phrases; it depends on the
/// phrases alone.
pub uninterp spec fn compiles(phrases: Seq<Seq<char>>) -> bool;

/// Relies on `AhoCorasick::new`: it succeeds or fails on the phrases alone,
/// and a compiled automaton searches for exactly the phrases it was given.
#[verifier::external_body]
fn compile(phrases: &Vec<String>) -> (r: Result<AhoCorasick, BuildError>)
    ensures
        r is Ok <==> compiles(views(phrases@)),
        r matches Ok(a) ==> automaton_phrases(a) == views(phrases@),
{
    AhoCorasick::new(phrases)
}

/// Relies on `AhoCorasick::is_match`: true if and only if one of the
/// automaton's phrases occurs somewhere in the haystack.
#[verifier::external_body]
fn automaton_is_match(a: &AhoCorasick, haystack: &str) -> (r: bool)
    ensures
        r == any_occurs(automaton_phrases(*a), haystack@),
{
    a.is_match(haystack)
}

/// A phrase set compiled for multi-pattern search.
pub struct MatchIndex {
    automaton: AhoCorasick,
}

impl MatchIndex {
    /// The phrases this index searches for.
    pub closed spec fn phrases(&self) -> Seq<Seq<char>> {
        automaton_phrases(self.automaton)
    }

    /// Compiles `phrases`; phrases are matched as they are given, so a
    /// case-insensitive set holds lower-case phrases.
    pub fn build(phrases: &Vec<String>) -> (r: Result<MatchIndex, ConfigError>)
        ensures
            r is Ok <==> compiles(views(phrases@)),
            r matches Ok(m) ==> m.phrases() == views(phrases@),
            r matches Err(e) ==> e == ConfigError::MatcherBuild,
    {
        match compile(phrases) {
            Ok(automaton) => Ok(MatchIndex { automaton }),
            Err(_) => Err(ConfigError::MatcherBuild),
        }
    }

    /// Whether a phrase occurs in a text that is already lower-case.
    pub fn query_lowered(&self, lowered: &str) -> (r: bool)
        ensures
            r == any_occurs(self.phrases(), lowered@),
    {
        automaton_is_match(&self.automaton, lowered)
    }

    /// Whether a phrase occurs in `text` once it is lower-cased.
    pub fn query(&self, text: &str) -> (r: bool)
        ensures
            r == any_occurs(self.phrases(), lower_of(text@)),
    {
        let lowered = lowercase(text);
        self.query_lowered(lowered.as_str())
    }
}

/// An index built from a delimited phrase list finds a phrase in a text
/// exactly when some piece of the list, trimmed, occurs in the text with
/// both sides lower-cased.
pub proof fn lemma_query_finds_listed_phrase(m: MatchIndex, list: Seq<char>, delimiter: char, text: Seq<char>)
    requires
        m.phrases() == phrase_list(list, delimiter),
    ensures
        any_occurs(m.phrases(), lower_of(text)) <==> exists|j: int|
            0 <= j < split_on(list, delimiter).len() && occurs_in(
                lower_of(trimmed(#[trigger] split_on(list, delimiter)[j])),
                lower_of(text),
            ),
{
    let h = lower_of(text);
    let pieces = split_on(list, delimiter);
    if any_occurs(m.phrases(), h) {
        let j = choose|j: int| 0 <= j < m.phrases().len() && occurs_in(#[trigger] m.phrases()[j], h);
        assert(m.phrases()[j] == lower_of(trimmed(pieces[j])));
    }
    if exists|j: int| 0 <= j < pieces.len() && occurs_in(lower_of(trimmed(#[trigger] pieces[j])), h) {
        let j = choose|j: int| 0 <= j < pieces.len() && occurs_in(lower_of(trimmed(#[trigger] pieces[j])), h);
        assert(m.phrases()[j] == lower_of(trimmed(pieces[j])));
    }
}

/// Building from a reordering of the same phrases gives the same answers.
pub proof fn lemma_query_ignores_phrase_order(a: MatchIndex, b: MatchIndex, text: Seq<char>)
    requires
        a.phrases().to_multiset() == b.phrases().to_multiset(),
    ensures
        any_occurs(a.phrases(), lower_of(text)) == any_occurs(b.phrases(), lower_of(text)),
{
    lemma_any_occurs_reordered(a.phrases(), b.phrases(), lower_of(text));
}

/// Whether some phrase occurs in a text does not depend on the order of
/// the phrases.
pub proof fn lemma_any_occurs_reordered(p: Seq<Seq<char>>, q: Seq<Seq<char>>, h: Seq<char>)
    requires
        p.to_multiset() == q.to_multiset(),
    ensures
        any_occurs(p, h) == any_occurs(q, h),
{
    if any_occurs(p, h) {
        lemma_same_multiset_same_occurrence(p, q, h);
    }
    if any_occurs(q, h) {
        lemma_same_multiset_same_occurrence(q, p, h);
    }
}

proof fn lemma_same_multiset_same_occurrence(p: Seq<Seq<char>>, q: Seq<Seq<char>>, h: Seq<char>)
    requires
        p.to_multiset() == q.to_multiset(),
        any_occurs(p, h),
    ensures
        any_occurs(q, h),
{
    let j = choose|j: int| 0 <= j < p.len() && occurs_in(#[trigger] p[j], h);
    p.to_multiset_ensures();
    q.to_multiset_ensures();
    assert(p.contains(p[j]));
    assert(p.to_multiset().count(p[j]) > 0);
    assert(q.to_multiset().count(p[j]) > 0);
    assert(q.contains(p[j]));
    let k = choose|k: int| 0 <= k < q.len() && q[k] == p[j];
    assert(occurs_in(q[k], h));
}

} // verus!

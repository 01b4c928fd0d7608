//! The common-password screen: membership in a caller-supplied set of
//! known weak passwords, and the analysis that combines that screen with
//! the criteria evaluator.

use vstd::prelude::*;

use crate::analysis::{classify, score, spec_classify, spec_score, spec_suggestions, suggestions, Label};

verus! {

/// A set of known-common passwords. Built once by the caller from an
/// external word list, then only queried; membership is case-sensitive and
/// no normalization is applied here.
pub struct CommonPasswordSet {
    words: Vec<String>,
}

impl View for CommonPasswordSet {
    type V = Set<Seq<char>>;

    closed spec fn view(&self) -> Set<Seq<char>> {
        self.words.deep_view().to_set()
    }
}

impl CommonPasswordSet {
    /// An empty set: no password is common.
    pub fn new() -> (r: CommonPasswordSet)
        ensures
            r@ == Set::<Seq<char>>::empty(),
    {
        let r = CommonPasswordSet { words: Vec::new() };
        proof {
            assert(r@ =~= Set::<Seq<char>>::empty());
        }
        r
    }

    /// Adds one password to the set. Adding a password already present
    /// leaves the set unchanged.
    pub fn insert(&mut self, word: String)
        ensures
            final (self)@ == old(self)@.insert(word@),
    {
        let ghost old_words = self.words.deep_view();
        self.words.push(word);
        proof {
            let new_words = self.words.deep_view();
            assert(new_words =~= old_words.push(word@));
            assert forall|a: Seq<char>|
                new_words.contains(a) <==> old_words.contains(a) || a == word@ by {
                if new_words.contains(a) {
                    let i = choose|i: int| 0 <= i < new_words.len() && new_words[i] == a;
                    if i < old_words.len() {
                        assert(old_words[i] == a);
                    }
                }
                if old_words.contains(a) {
                    let i = choose|i: int| 0 <= i < old_words.len() && old_words[i] == a;
                    assert(new_words[i] == a);
                }
                if a == word@ {
                    assert(new_words[old_words.len() as int] == a);
                }
            }
            assert(new_words.to_set() =~= old_words.to_set().insert(word@));
        }
    }

    /// Membership test: whether the candidate, exactly as given, is in
    /// the set.
    pub fn contains(&self, candidate: &str) -> (r: bool)
        ensures
            r == self@.contains(candidate@),
    {
        let owned = candidate.to_owned();
        let n = self.words.len();
        let mut i: usize = 0;
        while i < n
            invariant
                i <= n,
                n == self.words.len(),
                owned@ == candidate@,
                forall|j: int| 0 <= j < i ==> #[trigger] self.words@[j]@ != candidate@,
            decreases n - i,
        {
            if self.words[i] == owned {
                proof {
                    assert(self.words.deep_view()[i as int] == candidate@);
                    assert(self.words.deep_view().contains(candidate@));
                }
                return true;
            }
            i += 1;
        }
        proof {
            assert forall|j: int|
                0 <= j < self.words.deep_view().len() implies self.words.deep_view()[j]
                != candidate@ by {
                assert(self.words.deep_view()[j] == self.words@[j]@);
            }
            assert(!self.words.deep_view().contains(candidate@));
        }
        false
    }
}

/// Whether the candidate is a known-common password: a pure, case-sensitive
/// membership test against the supplied set. Never fails.
pub fn is_common(candidate: &str, set: &CommonPasswordSet) -> (r: bool)
    ensures
        r == set@.contains(candidate@),
{
    set.contains(candidate)
}

/// Everything the analysis of one candidate yields: whether the common
/// set held it, the score, the strength tier, and the remediation lines.
pub struct AnalysisResult {
    /// The candidate was found in the supplied common-password set.
    pub is_common: bool,
    /// The score: 0 for a known-common candidate, otherwise the count of
    /// criteria met.
    pub score: u8,
    /// The strength tier of `score`.
    pub label: Label,
    /// One remediation line per failed criterion; empty for a
    /// known-common candidate.
    pub suggestions: Vec<String>,
}

/// Analyzes one candidate. When a common-password set is supplied and the
/// candidate is in it, the score is forced to 0 and the tier to weak, and
/// the criteria evaluator is not consulted: a known-common password gets
/// no partial credit. Otherwise the result carries the evaluator's score,
/// its tier, and one remediation line per failed criterion.
pub fn analyze(password: &str, common: Option<&CommonPasswordSet>) -> (r: AnalysisResult)
    ensures
        r.is_common == match common {
            Some(set) => set@.contains(password@),
            None => false,
        },
        r.is_common ==> r.score == 0 && r.suggestions@.len() == 0,
        !r.is_common ==> r.score as int == spec_score(password@) && r.suggestions.deep_view()
            == spec_suggestions(password@),
        r.score <= 5,
        r.label == spec_classify(r.score as int),
{
    let caught = match common {
        Some(set) => set.contains(password),
        None => false,
    };
    if caught {
        AnalysisResult {
            is_common: true,
            score: 0,
            label: Label::Weak,
            suggestions: Vec::new(),
        }
    } else {
        let outcome = score(password);
        let label = classify(outcome.score);
        AnalysisResult {
            is_common: false,
            score: outcome.score,
            label,
            suggestions: suggestions(password),
        }
    }
}

} // verus!

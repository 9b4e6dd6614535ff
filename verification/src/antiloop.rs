//! The guard against translations that merely hand the source text back.
//!
//! A poor classification makes the backend "translate" a text into the
//! language it is already written in. Delivering such a text would invite the
//! next round of the same mistake, so a translation that is too close to its
//! source is discarded.

use vstd::prelude::*;
use crate::text::{lowercase, split_tokens, tokens};

verus! {

/// A translation is discarded when more than this many hundredths of the
/// tokens agree with the source.
pub const SIMILARITY_LIMIT_PERCENT: u64 = 85;

/// A word-overlap ratio, `matching / total`.
#[derive(Clone, Copy, Debug)]
pub struct Similarity {
    /// Tokens of the first text that occur in the second.
    pub matching: usize,
    /// The larger of the two token counts, never zero.
    pub total: usize,
}

/// How many tokens of `a` occur among the tokens `b`.
pub open spec fn matching_tokens(a: Seq<Seq<char>>, b: Seq<Seq<char>>) -> nat
    decreases a.len(),
{
    if a.len() == 0 {
        0
    } else {
        matching_tokens(a.drop_last(), b) + if b.contains(a.last()) {
            1nat
        } else {
            0nat
        }
    }
}

/// The overlap ratio of two texts as a pair `(matching, total)`: one for
/// equal texts, zero where either text is empty or holds no token, and
/// otherwise the tokens of `a` found in `b` over the larger token count.
pub open spec fn similarity_of(a: Seq<char>, b: Seq<char>) -> (nat, nat) {
    let ta = tokens(a);
    let tb = tokens(b);
    let total = if ta.len() >= tb.len() {
        ta.len()
    } else {
        tb.len()
    };
    if a == b {
        (1, 1)
    } else if a.len() == 0 || b.len() == 0 || total == 0 {
        (0, 1)
    } else {
        (matching_tokens(ta, tb), total)
    }
}

/// Whether the ratio `matching / total` lies above the limit.
pub open spec fn above_limit(ratio: (nat, nat)) -> bool {
    ratio.0 * 100 > SIMILARITY_LIMIT_PERCENT * ratio.1
}

/// Whether `translated` is to be discarded as a translation of `original`:
/// the two agree up to letter case, or their lowercase forms overlap beyond
/// the limit.
pub open spec fn degenerate(original: Seq<char>, translated: Seq<char>) -> bool {
    let o = lowercase(original);
    let t = lowercase(translated);
    o == t || above_limit(similarity_of(o, t))
}

impl Similarity {
    /// The ratio as a pair of naturals.
    pub open spec fn ratio(self) -> (nat, nat) {
        (self.matching as nat, self.total as nat)
    }

    /// `matching` never exceeds `total`, and `total` is positive.
    pub open spec fn wf(self) -> bool {
        self.matching <= self.total && self.total >= 1
    }

    /// Whether the ratio lies above the limit.
    pub fn exceeds_limit(&self) -> (b: bool)
        ensures
            b == above_limit(self.ratio()),
    {
        let m: u128 = self.matching as u128;
        let t: u128 = self.total as u128;
        m * 100 > (SIMILARITY_LIMIT_PERCENT as u128) * t
    }
}

/// No more tokens match than there are.
pub proof fn lemma_matching_bounded(a: Seq<Seq<char>>, b: Seq<Seq<char>>)
    ensures
        matching_tokens(a, b) <= a.len(),
    decreases a.len(),
{
    if a.len() > 0 {
        lemma_matching_bounded(a.drop_last(), b);
    }
}

/// Whether `word` is one of `words`.
pub fn has_token(words: &Vec<String>, word: &String) -> (b: bool)
    ensures
        b == words.deep_view().contains(word@),
{
    let mut i: usize = 0;
    while i < words.len()
        invariant
            i <= words.len(),
            forall|k: int| 0 <= k < i ==> words.deep_view()[k] != word@,
        decreases words.len() - i,
    {
        if words[i].eq(word) {
            assert(words.deep_view()[i as int] == word@);
            return true;
        }
        i += 1;
    }
    false
}

/// The word-overlap ratio of two texts.
pub fn similarity(a: &str, b: &str) -> (s: Similarity)
    ensures
        s.ratio() == similarity_of(a@, b@),
        s.wf(),
{
    if a.eq(b) {
        return Similarity { matching: 1, total: 1 };
    }
    if a.is_empty() || b.is_empty() {
        return Similarity { matching: 0, total: 1 };
    }
    let a_words = split_tokens(a);
    let b_words = split_tokens(b);
    let total = if a_words.len() >= b_words.len() {
        a_words.len()
    } else {
        b_words.len()
    };
    if total == 0 {
        return Similarity { matching: 0, total: 1 };
    }
    let mut matching: usize = 0;
    let mut i: usize = 0;
    while i < a_words.len()
        invariant
            i <= a_words.len(),
            a_words.deep_view() == tokens(a@),
            b_words.deep_view() == tokens(b@),
            matching == matching_tokens(a_words.deep_view().take(i as int), b_words.deep_view()),
            matching <= i,
        decreases a_words.len() - i,
    {
        let ghost prefix = a_words.deep_view().take(i + 1);
        assert(prefix.drop_last() =~= a_words.deep_view().take(i as int));
        assert(prefix.last() == a_words[i as int]@);
        if has_token(&b_words, &a_words[i]) {
            matching += 1;
        }
        i += 1;
    }
    assert(a_words.deep_view().take(a_words.len() as int) =~= a_words.deep_view());
    Similarity { matching, total }
}

/// Whether `translated` is to be discarded as a translation of `original`.
pub fn is_degenerate(original: &str, translated: &str) -> (b: bool)
    ensures
        b == degenerate(original@, translated@),
{
    let o = original.to_lowercase();
    let t = translated.to_lowercase();
    if o.eq(&t) {
        return true;
    }
    similarity(o.as_str(), t.as_str()).exceeds_limit()
}

/// A translation that agrees with its source up to letter case is discarded.
pub proof fn lemma_same_text_is_degenerate(original: Seq<char>, translated: Seq<char>)
    requires
        lowercase(original) == lowercase(translated),
    ensures
        degenerate(original, translated),
{
}

} // verus!

//! Language classification of a message.
//!
//! A statistical detector looks at the text first. Where it is confident, its
//! answer stands. Where it is not, the translation backend is asked, and if
//! that fails too the text counts as English.

use vstd::prelude::*;
use crate::language::{iso_code, whatlang_to_iso};
use crate::text::{trim, trimmed};
use crate::translator::BackendError;

verus! {

/// The least confidence at which the statistical detector is believed: 0.8,
/// written as the bit pattern of a double.
pub const CONFIDENCE_THRESHOLD_BITS: u64 = 0x3FE9_9999_9999_999A;

/// The bit pattern of positive infinity, the largest that is a number.
pub const LARGEST_NUMBER_BITS: u64 = 0x7FF0_0000_0000_0000;

/// What the statistical detector found.
#[derive(Clone, Debug)]
pub struct Detection {
    /// Three-letter code of the language.
    pub code: String,
    /// The detector's confidence, a double between 0 and 1, as its bit pattern.
    pub confidence_bits: u64,
}

/// The language of a text. It is not stored anywhere.
#[derive(Clone, Debug)]
pub struct ClassificationResult {
    /// The code of the language, in its two-letter form where there is one.
    pub code: String,
    /// The detector's confidence as the bit pattern of a double; none where
    /// the backend named the language.
    pub confidence_bits: Option<u64>,
}

/// The result of the first look at a text.
#[derive(Clone, Debug)]
pub enum Classification {
    /// The text is empty or whitespace: there is nothing to classify.
    Blank,
    /// The detector is confident.
    Settled(ClassificationResult),
    /// The detector found nothing or is not confident: the backend is to be asked.
    Unsure,
}

/// What `whatlang::detect` finds in `text`: the three-letter code of the
/// language and the bit pattern of the confidence, or nothing.
pub uninterp spec fn statistical_detection(text: Seq<char>) -> Option<(Seq<char>, u64)>;

/// Whether a confidence, given as the bit pattern of a double, is at least
/// the threshold. Among the doubles that are not negative, the order of the
/// numbers is the order of their bit patterns; patterns above that of
/// infinity are no numbers, and those with the sign bit set are negative.
pub open spec fn confident(bits: u64) -> bool {
    CONFIDENCE_THRESHOLD_BITS <= bits <= LARGEST_NUMBER_BITS
}

/// The code that the detector settles, if it settles one.
pub open spec fn settled_code(found: Option<(Seq<char>, u64)>) -> Option<Seq<char>> {
    match found {
        Some((code, bits)) => if confident(bits) {
            Some(iso_code(code))
        } else {
            None
        },
        None => None,
    }
}

/// The code that stands once the backend was asked: its answer, or English
/// where it failed.
pub open spec fn fallback_code(outcome: Result<String, BackendError>) -> Seq<char> {
    match outcome {
        Ok(code) => code@,
        Err(_) => "en"@,
    }
}

impl Detection {
    /// The detection as a pair of plain values.
    pub open spec fn pair(self) -> (Seq<char>, u64) {
        (self.code@, self.confidence_bits)
    }
}

impl ClassificationResult {
    /// The result as a pair of plain values.
    pub open spec fn pair(self) -> (Seq<char>, Option<u64>) {
        (self.code@, self.confidence_bits)
    }
}

impl Classification {
    /// The code, where the classification settled one.
    pub open spec fn settled(self) -> Option<Seq<char>> {
        match self {
            Classification::Settled(result) => Some(result.code@),
            _ => None,
        }
    }

    /// The confidence behind the code, where the classification settled one.
    pub open spec fn confidence(self) -> Option<u64> {
        match self {
            Classification::Settled(result) => result.confidence_bits,
            _ => None,
        }
    }
}

/// The confidence with which the detector settles a code, if it settles one.
pub open spec fn settled_confidence(found: Option<(Seq<char>, u64)>) -> Option<u64> {
    match found {
        Some((_, bits)) => if confident(bits) {
            Some(bits)
        } else {
            None
        },
        None => None,
    }
}

/// The pair of plain values for what the detector found.
pub open spec fn found_pair(found: Option<Detection>) -> Option<(Seq<char>, u64)> {
    match found {
        Some(d) => Some(d.pair()),
        None => None,
    }
}

/// Runs `whatlang::detect` on `text` and hands back the language's code and
/// the confidence. The contract names the result: the detector is a function
/// of the text alone.
#[verifier::external_body]
pub(crate) fn detect(text: &str) -> (found: Option<Detection>)
    ensures
        found_pair(found) == statistical_detection(text@),
{
    match whatlang::detect(text) {
        Some(info) => Some(
            Detection {
                code: info.lang().code().to_string(),
                confidence_bits: info.confidence().to_bits(),
            },
        ),
        None => None,
    }
}

/// Decides what a detection is worth: a confident one settles the language,
/// any other leaves it open.
pub fn weigh(found: Option<Detection>) -> (c: Classification)
    ensures
        c !is Blank,
        c.settled() == settled_code(found_pair(found)),
        c.confidence() == settled_confidence(found_pair(found)),
{
    match found {
        Some(d) => {
            if CONFIDENCE_THRESHOLD_BITS <= d.confidence_bits && d.confidence_bits
                <= LARGEST_NUMBER_BITS {
                Classification::Settled(
                    ClassificationResult {
                        code: whatlang_to_iso(d.code.as_str()).to_string(),
                        confidence_bits: Some(d.confidence_bits),
                    },
                )
            } else {
                Classification::Unsure
            }
        },
        None => Classification::Unsure,
    }
}

/// Takes the first look at a message's text. Text that is empty once its
/// surrounding whitespace is removed is not classified at all.
pub fn classify(text: &str) -> (c: Classification)
    ensures
        trimmed(text@).len() == 0 <==> c is Blank,
        !(c is Blank) ==> c.settled() == settled_code(statistical_detection(trimmed(text@))),
        !(c is Blank) ==> c.confidence() == settled_confidence(
            statistical_detection(trimmed(text@)),
        ),
{
    let content = trim(text);
    if content.as_str().is_empty() {
        return Classification::Blank;
    }
    weigh(detect(content.as_str()))
}

/// The two-letter code of the language that the detector finds in `text`,
/// however confident it is, and English where it finds none.
pub open spec fn likely_code(text: Seq<char>) -> Seq<char> {
    match statistical_detection(text) {
        Some((code, _)) => iso_code(code),
        None => "en"@,
    }
}

/// The language that `text` is most likely written in. This is a guess for
/// uses that can live with a wrong one: the detector's confidence is not
/// looked at.
pub fn guess_language(text: &str) -> (code: String)
    ensures
        code@ == likely_code(text@),
{
    match detect(text) {
        Some(d) => whatlang_to_iso(d.code.as_str()).to_string(),
        None => "en".to_string(),
    }
}

/// Settles the language once the backend was asked. No confidence comes
/// with the backend's word.
pub fn settle(outcome: Result<String, BackendError>) -> (result: ClassificationResult)
    ensures
        result.pair() == (fallback_code(outcome), None::<u64>),
{
    match outcome {
        Ok(code) => ClassificationResult { code, confidence_bits: None },
        Err(_) => ClassificationResult { code: "en".to_string(), confidence_bits: None },
    }
}

} // verus!

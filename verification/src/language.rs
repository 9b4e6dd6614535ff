//! Language codes: what users may type, what the detector reports, and the
//! names shown to people.

use vstd::prelude::*;
use crate::text::lowercase;

verus! {

/// The code that stands for English.
pub open spec fn english() -> Seq<char> {
    "en"@
}

/// The language code that a user's input stands for: a code, a three-letter
/// code or a language's name, in any letter case. Input that is not
/// recognised is kept in lowercase.
pub open spec fn normalized_language(input: Seq<char>) -> Seq<char> {
    let l = lowercase(input);
    if l == "english"@ || l == "en"@ || l == "eng"@ {
        "en"@
    } else if l == "hindi"@ || l == "hi"@ || l == "hin"@ {
        "hi"@
    } else if l == "french"@ || l == "fr"@ || l == "fra"@ || l == "francais"@ || l == "français"@ {
        "fr"@
    } else if l == "spanish"@ || l == "es"@ || l == "spa"@ || l == "espanol"@ || l == "español"@ {
        "es"@
    } else if l == "german"@ || l == "de"@ || l == "deu"@ || l == "deutsch"@ {
        "de"@
    } else if l == "filipino"@ || l == "fil"@ || l == "tagalog"@ || l == "tl"@ || l == "tgl"@ {
        "fil"@
    } else if l == "portuguese"@ || l == "pt"@ || l == "por"@ || l == "brazilian"@ || l == "pt-br"@
        || l == "ptbr"@ || l == "portugues"@ || l == "português"@ {
        "pt"@
    } else if l == "korean"@ || l == "ko"@ || l == "kor"@ || l == "한국어"@ {
        "ko"@
    } else {
        l
    }
}

/// Whether subscriptions to `code` are offered.
pub open spec fn supported_language(code: Seq<char>) -> bool {
    code == "en"@ || code == "hi"@ || code == "fr"@ || code == "es"@ || code == "de"@ || code
        == "fil"@ || code == "pt"@ || code == "ko"@
}

/// The English name of a supported language, `Unknown` for any other code.
pub open spec fn language_name_of(code: Seq<char>) -> Seq<char> {
    if code == "en"@ {
        "English"@
    } else if code == "hi"@ {
        "Hindi"@
    } else if code == "fr"@ {
        "French"@
    } else if code == "es"@ {
        "Spanish"@
    } else if code == "de"@ {
        "German"@
    } else if code == "fil"@ {
        "Filipino"@
    } else if code == "pt"@ {
        "Portuguese"@
    } else if code == "ko"@ {
        "Korean"@
    } else {
        "Unknown"@
    }
}

/// The two-letter code for a three-letter code of the statistical detector.
/// A code outside the table is kept as it is.
pub open spec fn iso_code(code: Seq<char>) -> Seq<char> {
    if code == "eng"@ {
        "en"@
    } else if code == "hin"@ {
        "hi"@
    } else if code == "fra"@ {
        "fr"@
    } else if code == "spa"@ {
        "es"@
    } else if code == "deu"@ {
        "de"@
    } else if code == "kor"@ {
        "ko"@
    } else if code == "tgl"@ {
        "fil"@
    } else if code == "cmn"@ || code == "zho"@ {
        "zh"@
    } else if code == "jpn"@ {
        "ja"@
    } else if code == "rus"@ {
        "ru"@
    } else if code == "ara"@ {
        "ar"@
    } else if code == "por"@ {
        "pt"@
    } else if code == "ita"@ {
        "it"@
    } else if code == "nld"@ {
        "nl"@
    } else if code == "pol"@ {
        "pl"@
    } else if code == "tur"@ {
        "tr"@
    } else if code == "vie"@ {
        "vi"@
    } else if code == "tha"@ {
        "th"@
    } else if code == "ind"@ {
        "id"@
    } else if code == "ukr"@ {
        "uk"@
    } else if code == "ces"@ {
        "cs"@
    } else if code == "ell"@ {
        "el"@
    } else if code == "heb"@ {
        "he"@
    } else if code == "swe"@ {
        "sv"@
    } else if code == "dan"@ {
        "da"@
    } else if code == "fin"@ {
        "fi"@
    } else if code == "nor"@ {
        "no"@
    } else {
        code
    }
}

/// Whether `code` names English, in its two-letter or three-letter form.
pub open spec fn names_english(code: Seq<char>) -> bool {
    code == "en"@ || code == "eng"@
}

/// Turns what a user typed into a language code.
pub fn normalize_language(input: &str) -> (code: String)
    ensures
        code@ == normalized_language(input@),
{
    let lower = input.to_lowercase();
    let l = lower.as_str();
    if l.eq("english") || l.eq("en") || l.eq("eng") {
        "en".to_string()
    } else if l.eq("hindi") || l.eq("hi") || l.eq("hin") {
        "hi".to_string()
    } else if l.eq("french") || l.eq("fr") || l.eq("fra") || l.eq("francais") || l.eq("français") {
        "fr".to_string()
    } else if l.eq("spanish") || l.eq("es") || l.eq("spa") || l.eq("espanol") || l.eq("español") {
        "es".to_string()
    } else if l.eq("german") || l.eq("de") || l.eq("deu") || l.eq("deutsch") {
        "de".to_string()
    } else if l.eq("filipino") || l.eq("fil") || l.eq("tagalog") || l.eq("tl") || l.eq("tgl") {
        "fil".to_string()
    } else if l.eq("portuguese") || l.eq("pt") || l.eq("por") || l.eq("brazilian") || l.eq("pt-br")
        || l.eq("ptbr") || l.eq("portugues") || l.eq("português") {
        "pt".to_string()
    } else if l.eq("korean") || l.eq("ko") || l.eq("kor") || l.eq("한국어") {
        "ko".to_string()
    } else {
        lower
    }
}

/// Whether subscriptions to `code` are offered.
pub fn is_supported_language(code: &str) -> (b: bool)
    ensures
        b == supported_language(code@),
{
    code.eq("en") || code.eq("hi") || code.eq("fr") || code.eq("es") || code.eq("de") || code.eq(
        "fil",
    ) || code.eq("pt") || code.eq("ko")
}

/// The English name of a supported language.
pub fn language_name(code: &str) -> (name: &'static str)
    ensures
        name@ == language_name_of(code@),
{
    if code.eq("en") {
        "English"
    } else if code.eq("hi") {
        "Hindi"
    } else if code.eq("fr") {
        "French"
    } else if code.eq("es") {
        "Spanish"
    } else if code.eq("de") {
        "German"
    } else if code.eq("fil") {
        "Filipino"
    } else if code.eq("pt") {
        "Portuguese"
    } else if code.eq("ko") {
        "Korean"
    } else {
        "Unknown"
    }
}

/// Maps a three-letter code of the statistical detector to its two-letter code.
pub fn whatlang_to_iso<'a>(code: &'a str) -> (iso: &'a str)
    ensures
        iso@ == iso_code(code@),
{
    if code.eq("eng") {
        "en"
    } else if code.eq("hin") {
        "hi"
    } else if code.eq("fra") {
        "fr"
    } else if code.eq("spa") {
        "es"
    } else if code.eq("deu") {
        "de"
    } else if code.eq("kor") {
        "ko"
    } else if code.eq("tgl") {
        "fil"
    } else if code.eq("cmn") || code.eq("zho") {
        "zh"
    } else if code.eq("jpn") {
        "ja"
    } else if code.eq("rus") {
        "ru"
    } else if code.eq("ara") {
        "ar"
    } else if code.eq("por") {
        "pt"
    } else if code.eq("ita") {
        "it"
    } else if code.eq("nld") {
        "nl"
    } else if code.eq("pol") {
        "pl"
    } else if code.eq("tur") {
        "tr"
    } else if code.eq("vie") {
        "vi"
    } else if code.eq("tha") {
        "th"
    } else if code.eq("ind") {
        "id"
    } else if code.eq("ukr") {
        "uk"
    } else if code.eq("ces") {
        "cs"
    } else if code.eq("ell") {
        "el"
    } else if code.eq("heb") {
        "he"
    } else if code.eq("swe") {
        "sv"
    } else if code.eq("dan") {
        "da"
    } else if code.eq("fin") {
        "fi"
    } else if code.eq("nor") {
        "no"
    } else {
        code
    }
}

/// Whether `code` names English.
pub fn is_english(code: &str) -> (b: bool)
    ensures
        b == names_english(code@),
{
    code.eq("en") || code.eq("eng")
}

} // verus!

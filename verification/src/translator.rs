//! The translation backend: what is sent to it and how its answer is read.
//!
//! One chat-completion endpoint serves two purposes: translating a text, and
//! naming the language of a text that the statistical detector is unsure of.
//! The functions here build the request for either purpose and interpret the
//! reply. The HTTP round trip between the two is the caller's.

use vstd::prelude::*;
use vstd::string::StringExecFns;
use crate::config::TranslationConfig;
use crate::text::{alphabetic, contains, has_substring, lowercase, to_chars, trim, trimmed};

verus! {

/// Token budget of a translation request.
pub const TRANSLATION_MAX_TOKENS: u32 = 2048;

/// Token budget of a detection request: room for a code, not for prose.
pub const DETECTION_MAX_TOKENS: u32 = 10;

/// The backends that can be configured.
#[derive(Clone, Copy, Debug, PartialEq, Eq, Structural)]
pub enum BackendKind {
    /// The hosted chat-completion endpoint.
    OpenRouter,
    /// No backend: the source text is handed back with a marker.
    Direct,
}

/// One request to the chat-completion endpoint.
#[derive(Clone, Debug)]
pub struct ChatRequest {
    /// Address of the endpoint.
    pub url: String,
    /// The bearer credential.
    pub api_key: String,
    /// The model to ask.
    pub model: String,
    /// Content of the single message, sent in the role of the user.
    pub prompt: String,
    /// The token budget.
    pub max_tokens: u32,
}

/// What came back from one HTTP round trip.
#[derive(Clone, Debug)]
pub enum BackendReply {
    /// The request could not be sent, or no response arrived.
    Unreachable,
    /// A response with a status other than success.
    Rejected { status: u16, body: String },
    /// A response with a success status whose body is not a completion.
    Unreadable,
    /// A completion: the text of each choice, in order.
    Completion { choices: Vec<String> },
}

/// Why the backend gave no usable answer.
#[derive(Clone, Debug)]
pub enum BackendError {
    /// The request could not be sent, or no response arrived.
    Transport,
    /// The backend answered with a status other than success.
    Status { status: u16, body: String },
    /// The body of the response could not be read as a completion.
    Malformed,
    /// The completion held no text.
    Empty,
}

/// The result of a translation.
#[derive(Clone, Debug)]
pub enum Translation {
    /// The translated text.
    Text(String),
    /// The text is already in the target language.
    NotNeeded,
    /// No backend is configured: the source text behind a marker.
    Unavailable(String),
}

/// What to do to translate a text.
#[derive(Clone, Debug)]
pub enum TranslationPlan {
    /// Send the request and interpret the reply.
    Call(ChatRequest),
    /// The result is known without a call.
    Ready(Translation),
}

/// The string by which the backend says that nothing needs translating.
pub open spec fn sentinel() -> Seq<char> {
    "NO_TRANSLATION_NEEDED"@
}

/// The marker in front of a text that was not translated for want of a backend.
pub open spec fn unavailable_marker() -> Seq<char> {
    "[Translation unavailable] "@
}

/// The backend that a configured name selects. Any name but that of the
/// hosted endpoint selects none.
pub open spec fn backend_kind_of(name: Seq<char>) -> BackendKind {
    if name == "openrouter"@ {
        BackendKind::OpenRouter
    } else {
        BackendKind::Direct
    }
}

/// The name by which a prompt refers to a language.
pub open spec fn prompt_language_name(code: Seq<char>) -> Seq<char> {
    if code == "hi"@ || code == "hin"@ {
        "Hindi"@
    } else if code == "en"@ || code == "eng"@ {
        "English"@
    } else if code == "fr"@ || code == "fra"@ {
        "French"@
    } else if code == "es"@ || code == "spa"@ {
        "Spanish"@
    } else if code == "de"@ || code == "deu"@ {
        "German"@
    } else if code == "fil"@ || code == "tgl"@ {
        "Filipino"@
    } else if code == "zh"@ || code == "zho"@ {
        "Chinese"@
    } else if code == "ja"@ || code == "jpn"@ {
        "Japanese"@
    } else if code == "ko"@ || code == "kor"@ {
        "Korean"@
    } else if code == "ru"@ || code == "rus"@ {
        "Russian"@
    } else if code == "ar"@ || code == "ara"@ {
        "Arabic"@
    } else if code == "pt"@ || code == "por"@ {
        "Portuguese"@
    } else {
        "Unknown"@
    }
}

/// What a prompt says about the script in which the target language is written.
pub open spec fn script_hint(to: Seq<char>) -> Seq<char> {
    if to == "fil"@ {
        "Filipino uses the LATIN ALPHABET (same as English). Example: 'Magandang araw' not any Asian script."@
    } else if to == "hi"@ {
        "Hindi uses DEVANAGARI script. Example: 'नमस्ते'"@
    } else if to == "fr"@ {
        "French uses the LATIN ALPHABET. Example: 'Bonjour'"@
    } else if to == "es"@ {
        "Spanish uses the LATIN ALPHABET. Example: 'Hola'"@
    } else if to == "de"@ {
        "German uses the LATIN ALPHABET. Example: 'Guten Tag'"@
    } else if to == "pt"@ {
        "Portuguese uses the LATIN ALPHABET. Example: 'Olá'"@
    } else if to == "en"@ {
        "English uses the LATIN ALPHABET."@
    } else if to == "ko"@ {
        "Korean uses HANGUL script. Example: '안녕하세요' (annyeonghaseyo = hello)"@
    } else {
        "Use the standard script for this language."@
    }
}

/// The instruction to prefer a dialect; empty where none is asked for.
pub open spec fn dialect_instruction(to: Seq<char>, dialect: Option<Seq<char>>) -> Seq<char> {
    match dialect {
        Some(d) => "\nDIALECT: Use the "@ + d + " dialect/variety of "@ + prompt_language_name(to)
            + ". Use vocabulary, expressions, and phrasing natural to "@ + d + " speakers.\n"@,
        None => Seq::empty(),
    }
}

/// How a prompt names the target: the language, and the dialect in brackets.
pub open spec fn target_description(to: Seq<char>, dialect: Option<Seq<char>>) -> Seq<char> {
    match dialect {
        Some(d) => prompt_language_name(to) + " ("@ + d + ")"@,
        None => prompt_language_name(to),
    }
}

/// The prompt that asks for a translation of `text`.
pub open spec fn translation_prompt(
    text: Seq<char>,
    from: Seq<char>,
    to: Seq<char>,
    dialect: Option<Seq<char>>,
) -> Seq<char> {
    "You are a professional translator. Translate the following text from "@
        + prompt_language_name(from) + " to "@ + target_description(to, dialect)
        + ".\n\nSCRIPT INFORMATION: "@ + script_hint(to) + dialect_instruction(to, dialect)
        + "\n\nSTRICT RULES:\n- Provide an ACCURATE, LITERAL translation\n- Use the CORRECT script/alphabet as specified above\n- Do NOT be creative, funny, or add interpretations\n- For slang/internet terms (like 'LOL'), translate to the natural equivalent in "@
        + prompt_language_name(to) + "\n- If the text is ALREADY in "@ + prompt_language_name(to)
        + ", respond with EXACTLY: "@ + sentinel()
        + "\n- For untranslatable text (onomatopoeia like 'hmm', '...', sounds), output the original unchanged\n- Output ONLY the translation - no explanations, notes, commentary, or extra text\n- NEVER prefix with 'Translation:' or similar - just output the translated text directly\n\nText to translate:\n"@
        + text
}

/// The prompt that asks for the language of `text`.
pub open spec fn detection_prompt(text: Seq<char>) -> Seq<char> {
    "What language is this text written in? Respond with ONLY the ISO 639-1 two-letter language code (e.g., 'en' for English, 'hi' for Hindi, 'fr' for French, 'es' for Spanish, 'de' for German, etc.).\n\nText: "@
        + text
}

/// The address of the chat-completion endpoint under `base`.
pub open spec fn endpoint(base: Seq<char>) -> Seq<char> {
    base + "/chat/completions"@
}

/// Whether an HTTP status stands for success.
pub open spec fn success_status(status: u16) -> bool {
    200 <= status <= 299
}

/// Whether an HTTP status stands for success.
pub fn is_success(status: u16) -> (b: bool)
    ensures
        b == success_status(status),
{
    200 <= status && status <= 299
}

/// The role in which the prompt is sent.
pub fn message_role() -> (role: &'static str)
    ensures
        role@ == "user"@,
{
    "user"
}

/// The title under which the bot names itself to the backend.
pub fn client_title() -> (title: &'static str)
    ensures
        title@ == "Palace Fabrica"@,
{
    "Palace Fabrica"
}

/// The characters of an optional string.
pub open spec fn optional_text(s: Option<&str>) -> Option<Seq<char>> {
    match s {
        Some(t) => Some(t@),
        None => None,
    }
}

/// The letters of `s`, in order.
pub open spec fn letters(s: Seq<char>) -> Seq<char>
    decreases s.len(),
{
    if s.len() == 0 {
        Seq::empty()
    } else if alphabetic(s.last()) {
        letters(s.drop_last()).push(s.last())
    } else {
        letters(s.drop_last())
    }
}

/// The first `n` items of `s`, or all of them where there are fewer.
pub open spec fn at_most(s: Seq<char>, n: nat) -> Seq<char> {
    if s.len() <= n {
        s
    } else {
        s.take(n as int)
    }
}

/// The language code in a model's reply: the first two letters of its
/// lowercase form, and `en` where it holds no letter.
pub open spec fn sanitized_code(reply: Seq<char>) -> Seq<char> {
    let found = at_most(letters(lowercase(trimmed(reply))), 2);
    if found.len() == 0 {
        "en"@
    } else {
        found
    }
}

/// The text of a completion: its first choice without surrounding
/// whitespace, and nothing where it has no choice.
pub open spec fn completion_text(choices: Seq<Seq<char>>) -> Seq<char> {
    if choices.len() > 0 {
        trimmed(choices[0])
    } else {
        Seq::empty()
    }
}

impl ChatRequest {
    /// The value of the authorization header that carries the credential.
    pub open spec fn authorization_of(key: Seq<char>) -> Seq<char> {
        "Bearer "@ + key
    }

    /// The value of the authorization header for this request.
    pub fn authorization(&self) -> (header: String)
        ensures
            header@ == Self::authorization_of(self.api_key@),
    {
        let mut header = "Bearer ".to_string();
        header.append(self.api_key.as_str());
        header
    }
}

impl BackendError {
    /// The error in words.
    pub open spec fn text(self) -> Seq<char> {
        match self {
            BackendError::Transport => "Failed to send the request to the backend"@,
            BackendError::Status { status, body } => "The backend refused the request: "@
                + crate::number::decimal(status as nat) + " - "@ + body@,
            BackendError::Malformed => "Failed to parse the backend's response"@,
            BackendError::Empty => "Empty response from the backend"@,
        }
    }

    /// Says what went wrong, for a log.
    pub fn describe(&self) -> (text: String)
        ensures
            text@ == self.text(),
    {
        match self {
            BackendError::Transport => "Failed to send the request to the backend".to_string(),
            BackendError::Status { status, body } => {
                let mut text = "The backend refused the request: ".to_string();
                text.append(crate::number::write_decimal(*status as u64).as_str());
                text.append(" - ");
                text.append(body.as_str());
                text
            },
            BackendError::Malformed => "Failed to parse the backend's response".to_string(),
            BackendError::Empty => "Empty response from the backend".to_string(),
        }
    }
}

impl BackendKind {
    /// The backend that the configured name selects.
    pub fn from_name(name: &str) -> (kind: BackendKind)
        ensures
            kind == backend_kind_of(name@),
    {
        if name.eq("openrouter") {
            BackendKind::OpenRouter
        } else {
            BackendKind::Direct
        }
    }
}

impl Translation {
    /// The text to deliver, if there is any.
    pub open spec fn delivered(self) -> Option<Seq<char>> {
        match self {
            Translation::Text(t) => Some(t@),
            Translation::NotNeeded => None,
            Translation::Unavailable(t) => Some(t@),
        }
    }
}

/// The name by which a prompt refers to a language.
pub fn language_name(code: &str) -> (name: &'static str)
    ensures
        name@ == prompt_language_name(code@),
{
    if code.eq("hi") || code.eq("hin") {
        "Hindi"
    } else if code.eq("en") || code.eq("eng") {
        "English"
    } else if code.eq("fr") || code.eq("fra") {
        "French"
    } else if code.eq("es") || code.eq("spa") {
        "Spanish"
    } else if code.eq("de") || code.eq("deu") {
        "German"
    } else if code.eq("fil") || code.eq("tgl") {
        "Filipino"
    } else if code.eq("zh") || code.eq("zho") {
        "Chinese"
    } else if code.eq("ja") || code.eq("jpn") {
        "Japanese"
    } else if code.eq("ko") || code.eq("kor") {
        "Korean"
    } else if code.eq("ru") || code.eq("rus") {
        "Russian"
    } else if code.eq("ar") || code.eq("ara") {
        "Arabic"
    } else if code.eq("pt") || code.eq("por") {
        "Portuguese"
    } else {
        "Unknown"
    }
}

/// What a prompt says about the script of the target language.
pub fn script_information(to: &str) -> (hint: &'static str)
    ensures
        hint@ == script_hint(to@),
{
    if to.eq("fil") {
        "Filipino uses the LATIN ALPHABET (same as English). Example: 'Magandang araw' not any Asian script."
    } else if to.eq("hi") {
        "Hindi uses DEVANAGARI script. Example: 'नमस्ते'"
    } else if to.eq("fr") {
        "French uses the LATIN ALPHABET. Example: 'Bonjour'"
    } else if to.eq("es") {
        "Spanish uses the LATIN ALPHABET. Example: 'Hola'"
    } else if to.eq("de") {
        "German uses the LATIN ALPHABET. Example: 'Guten Tag'"
    } else if to.eq("pt") {
        "Portuguese uses the LATIN ALPHABET. Example: 'Olá'"
    } else if to.eq("en") {
        "English uses the LATIN ALPHABET."
    } else if to.eq("ko") {
        "Korean uses HANGUL script. Example: '안녕하세요' (annyeonghaseyo = hello)"
    } else {
        "Use the standard script for this language."
    }
}

/// Builds the prompt that asks for a translation of `text` from the language
/// `from` into the language `to`, in the given dialect if there is one.
pub fn build_translation_prompt(text: &str, from: &str, to: &str, dialect: Option<&str>) -> (prompt:
    String)
    ensures
        prompt@ == translation_prompt(text@, from@, to@, optional_text(dialect)),
{
    let to_name = language_name(to);
    let mut p = "You are a professional translator. Translate the following text from ".to_string();
    p.append(language_name(from));
    p.append(" to ");
    match dialect {
        Some(d) => {
            let mut target = to_name.to_string();
            target.append(" (");
            target.append(d);
            target.append(")");
            p.append(target.as_str());
        },
        None => {
            p.append(to_name);
        },
    }
    p.append(".\n\nSCRIPT INFORMATION: ");
    p.append(script_information(to));
    match dialect {
        Some(d) => {
            let mut info = "\nDIALECT: Use the ".to_string();
            info.append(d);
            info.append(" dialect/variety of ");
            info.append(to_name);
            info.append(". Use vocabulary, expressions, and phrasing natural to ");
            info.append(d);
            info.append(" speakers.\n");
            p.append(info.as_str());
        },
        None => {
            assert(p@ + Seq::<char>::empty() =~= p@);
        },
    }
    p.append(
        "\n\nSTRICT RULES:\n- Provide an ACCURATE, LITERAL translation\n- Use the CORRECT script/alphabet as specified above\n- Do NOT be creative, funny, or add interpretations\n- For slang/internet terms (like 'LOL'), translate to the natural equivalent in ",
    );
    p.append(to_name);
    p.append("\n- If the text is ALREADY in ");
    p.append(to_name);
    p.append(", respond with EXACTLY: ");
    p.append("NO_TRANSLATION_NEEDED");
    p.append(
        "\n- For untranslatable text (onomatopoeia like 'hmm', '...', sounds), output the original unchanged\n- Output ONLY the translation - no explanations, notes, commentary, or extra text\n- NEVER prefix with 'Translation:' or similar - just output the translated text directly\n\nText to translate:\n",
    );
    p.append(text);
    p
}

/// Builds the prompt that asks for the language of `text`.
pub fn build_detection_prompt(text: &str) -> (prompt: String)
    ensures
        prompt@ == detection_prompt(text@),
{
    let mut p =
        "What language is this text written in? Respond with ONLY the ISO 639-1 two-letter language code (e.g., 'en' for English, 'hi' for Hindi, 'fr' for French, 'es' for Spanish, 'de' for German, etc.).\n\nText: ".to_string();
    p.append(text);
    p
}

/// The request that carries `prompt` to the configured endpoint.
pub fn chat_request(config: &TranslationConfig, prompt: String, max_tokens: u32) -> (request:
    ChatRequest)
    ensures
        request.url@ == endpoint(config.openrouter_url@),
        request.api_key@ == config.openrouter_api_key@,
        request.model@ == config.model@,
        request.prompt@ == prompt@,
        request.max_tokens == max_tokens,
{
    let mut url = config.openrouter_url.clone();
    url.append("/chat/completions");
    ChatRequest {
        url,
        api_key: config.openrouter_api_key.clone(),
        model: config.model.clone(),
        prompt,
        max_tokens,
    }
}

/// Says how to translate `text`. With the hosted backend configured, a
/// request is to be sent; with any other configuration the text itself comes
/// back behind the marker that tells it from a translation.
pub fn plan_translation(
    config: &TranslationConfig,
    text: &str,
    from: &str,
    to: &str,
    dialect: Option<&str>,
) -> (plan: TranslationPlan)
    ensures
        backend_kind_of(config.backend@) == BackendKind::OpenRouter ==> {
            &&& plan matches TranslationPlan::Call(request)
            &&& request.url@ == endpoint(config.openrouter_url@)
            &&& request.api_key@ == config.openrouter_api_key@
            &&& request.model@ == config.model@
            &&& request.prompt@ == translation_prompt(text@, from@, to@, optional_text(dialect))
            &&& request.max_tokens == TRANSLATION_MAX_TOKENS
        },
        backend_kind_of(config.backend@) == BackendKind::Direct ==> {
            &&& plan matches TranslationPlan::Ready(Translation::Unavailable(echo))
            &&& echo@ == unavailable_marker() + text@
        },
{
    match BackendKind::from_name(config.backend.as_str()) {
        BackendKind::OpenRouter => {
            let prompt = build_translation_prompt(text, from, to, dialect);
            TranslationPlan::Call(chat_request(config, prompt, TRANSLATION_MAX_TOKENS))
        },
        BackendKind::Direct => {
            let mut echo = "[Translation unavailable] ".to_string();
            echo.append(text);
            TranslationPlan::Ready(Translation::Unavailable(echo))
        },
    }
}

/// The request that asks the backend for the language of `text`.
pub fn plan_detection(config: &TranslationConfig, text: &str) -> (request: ChatRequest)
    ensures
        request.url@ == endpoint(config.openrouter_url@),
        request.api_key@ == config.openrouter_api_key@,
        request.model@ == config.model@,
        request.prompt@ == detection_prompt(text@),
        request.max_tokens == DETECTION_MAX_TOKENS,
{
    let prompt = build_detection_prompt(text);
    chat_request(config, prompt, DETECTION_MAX_TOKENS)
}

/// Reads the backend's reply to a translation request.
///
/// A reply that is no completion is an error, and so is a completion without
/// text. A completion that holds the sentinel means that nothing needs
/// translating. Any other completion is the translation.
pub fn conclude_translation(reply: BackendReply) -> (result: Result<Translation, BackendError>)
    ensures
        reply is Unreachable ==> result matches Err(BackendError::Transport),
        reply matches BackendReply::Rejected { status, body } ==> (result matches Err(
            BackendError::Status { status: s, body: b },
        ) && s == status && b@ == body@),
        reply is Unreadable ==> result matches Err(BackendError::Malformed),
        reply matches BackendReply::Completion { choices } ==> {
            let text = completion_text(choices.deep_view());
            if text.len() == 0 {
                result matches Err(BackendError::Empty)
            } else if has_substring(text, sentinel()) {
                result matches Ok(Translation::NotNeeded)
            } else {
                result matches Ok(Translation::Text(t)) && t@ == text
            }
        },
{
    match reply {
        BackendReply::Unreachable => Err(BackendError::Transport),
        BackendReply::Rejected { status, body } => Err(BackendError::Status { status, body }),
        BackendReply::Unreadable => Err(BackendError::Malformed),
        BackendReply::Completion { choices } => {
            let text = first_choice(&choices);
            if text.as_str().is_empty() {
                Err(BackendError::Empty)
            } else if contains(text.as_str(), "NO_TRANSLATION_NEEDED") {
                Ok(Translation::NotNeeded)
            } else {
                Ok(Translation::Text(text))
            }
        },
    }
}

/// The text of a completion.
pub fn first_choice(choices: &Vec<String>) -> (text: String)
    ensures
        text@ == completion_text(choices.deep_view()),
{
    if choices.len() > 0 {
        assert(choices.deep_view()[0] == choices[0]@);
        trim(choices[0].as_str())
    } else {
        String::new()
    }
}

/// Extracts the language code from a model's reply.
pub fn sanitize_code(reply: &str) -> (code: String)
    ensures
        code@ == sanitized_code(reply@),
{
    let cleaned = trim(reply);
    let lower = cleaned.as_str().to_lowercase();
    let v = to_chars(lower.as_str());
    let mut code = String::new();
    let mut taken: usize = 0;
    let mut i: usize = 0;
    while i < v.len()
        invariant
            i <= v.len(),
            taken <= 2,
            taken == code@.len(),
            code@ == at_most(letters(v@.take(i as int)), 2),
            taken < 2 ==> code@ == letters(v@.take(i as int)),
        decreases v.len() - i,
    {
        assert(v@.take(i + 1).drop_last() =~= v@.take(i as int));
        if v[i].is_alphabetic() && taken < 2 {
            code.push(v[i]);
            taken += 1;
        }
        i += 1;
    }
    assert(v@.take(v.len() as int) =~= v@);
    if taken == 0 {
        "en".to_string()
    } else {
        code
    }
}

/// Reads the backend's reply to a detection request.
///
/// A reply that is no completion is an error. The code is taken from the
/// first choice of a completion; one without choices counts as English.
pub fn conclude_detection(reply: BackendReply) -> (result: Result<String, BackendError>)
    ensures
        reply is Unreachable ==> result matches Err(BackendError::Transport),
        reply matches BackendReply::Rejected { status, body } ==> (result matches Err(
            BackendError::Status { status: s, body: b },
        ) && s == status && b@ == body@),
        reply is Unreadable ==> result matches Err(BackendError::Malformed),
        reply matches BackendReply::Completion { choices } ==> (result matches Ok(code) && code@ == (
        if choices.len() > 0 {
            sanitized_code(choices[0]@)
        } else {
            "en"@
        })),
{
    match reply {
        BackendReply::Unreachable => Err(BackendError::Transport),
        BackendReply::Rejected { status, body } => Err(BackendError::Status { status, body }),
        BackendReply::Unreadable => Err(BackendError::Malformed),
        BackendReply::Completion { choices } => {
            if choices.len() > 0 {
                Ok(sanitize_code(choices[0].as_str()))
            } else {
                Ok("en".to_string())
            }
        },
    }
}

/// The prompt for a translation ends with the text to translate, unchanged.
pub proof fn lemma_prompt_ends_with_text(
    text: Seq<char>,
    from: Seq<char>,
    to: Seq<char>,
    dialect: Option<Seq<char>>,
)
    ensures
        crate::text::has_suffix(translation_prompt(text, from, to, dialect), text),
{
    let prompt = translation_prompt(text, from, to, dialect);
    assert(prompt.subrange(prompt.len() - text.len(), prompt.len() as int) =~= text);
}

/// The prompt for a detection ends with the text to classify, unchanged.
pub proof fn lemma_detection_prompt_ends_with_text(text: Seq<char>)
    ensures
        crate::text::has_suffix(detection_prompt(text), text),
{
    let prompt = detection_prompt(text);
    assert(prompt.subrange(prompt.len() - text.len(), prompt.len() as int) =~= text);
}

/// A text that cannot be translated for want of a backend is told from a
/// translation, and what is delivered for it begins with the marker.
pub proof fn lemma_unavailable_is_marked(text: Seq<char>)
    ensures
        crate::text::has_prefix(unavailable_marker() + text, unavailable_marker()),
{
    let marked = unavailable_marker() + text;
    assert(marked.subrange(0, unavailable_marker().len() as int) =~= unavailable_marker());
}

} // verus!

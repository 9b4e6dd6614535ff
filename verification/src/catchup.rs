//! Catching up: the recent messages of a channel, translated for one user.
//!
//! The command shows what was said since the user last asked, each message
//! in the user's language. Like the dispatcher it is driven in a loop: it
//! names what it needs next and takes the answer back, until it says what
//! to reply.

use vstd::prelude::*;
use vstd::string::StringExecFns;
use crate::classifier::{guess_language, likely_code};
use crate::delivery::copy_optional;
use crate::dispatcher::{job, JobView, TranslationJob};
use crate::language::{language_name, language_name_of, normalize_language, normalized_language};
use crate::number::{bounded_value, decimal, parse_u64, write_decimal};
use crate::text::{blank, byte_length, has_prefix, is_blank, starts_with, trim, trimmed};
use crate::translator::{BackendError, Translation};

verus! {

/// Messages asked for when the user names no count.
pub const DEFAULT_COUNT: u32 = 50;

/// The most messages ever asked for.
pub const MAX_COUNT: u32 = 100;

/// Messages asked for on the first use, when the user names no count.
pub const FIRST_USE_COUNT: u8 = 20;

/// A reply longer than this many bytes is cut short.
pub const REPLY_BUDGET: usize = 1800;

/// Messages shorter than this many bytes are passed over.
pub const SHORTEST_CONTENT: usize = 2;

/// What the user asked for.
#[derive(Clone, Debug)]
pub struct CatchupRequest {
    /// The guild of the channel; none in a direct message.
    pub guild: Option<String>,
    /// The bot's own user, whose translations are not translated again.
    pub bot: String,
    /// How many messages to show.
    pub count: Option<u32>,
    /// The language to translate into.
    pub language: Option<String>,
}

/// A message of the channel, as the platform hands it out.
#[derive(Clone, Debug)]
pub struct FetchedMessage {
    pub id: String,
    /// The author's identifier.
    pub author: String,
    /// The author's display name.
    pub author_name: String,
    /// The time of day at which it was sent, as it is to be shown.
    pub time: String,
    pub content: String,
}

/// What the command needs next.
#[derive(Clone, Debug)]
pub enum CatchupQuery {
    /// Registry: the user's default language.
    DefaultLanguage,
    /// Registry: the languages the user subscribed to in the channel.
    Subscriptions,
    /// Registry: the dialect the user prefers for `language`.
    Dialect { language: String },
    /// Platform: announce that the reply will take a while.
    Defer,
    /// Registry: the message that was shown last to the user in the channel.
    Cursor,
    /// Platform: the newest messages of the channel, newest first, at most
    /// `limit` of them, and only those after `after` where that is given.
    Messages { after: Option<u64>, limit: u8 },
    /// Backend: one translation.
    Translation { job: TranslationJob },
    /// Registry: record `message_id` as the message shown last.
    StoreCursor { message_id: String },
}

/// The answer to a query.
#[derive(Debug)]
pub enum CatchupAnswer {
    /// The registry or the platform failed.
    Failed,
    /// The user's default language, none where none is set.
    DefaultLanguage(Option<String>),
    /// The languages the user subscribed to in the channel.
    Subscriptions(Vec<String>),
    /// The dialect the user prefers, none where none is set.
    Dialect(Option<String>),
    /// The platform knows that the reply will take a while.
    Deferred,
    /// The message shown last, none where the user never caught up here.
    Cursor(Option<String>),
    /// The messages, newest first.
    Messages(Vec<FetchedMessage>),
    /// What the translation came to.
    Translation(Result<Translation, BackendError>),
    /// The message is recorded as shown.
    Stored,
}

/// What the caller is to do next.
#[derive(Clone, Debug)]
pub enum CatchupStep {
    /// Find this out and come back with the answer.
    Ask(CatchupQuery),
    /// Reply with this text and stop.
    Say(String),
    /// Stop without a reply: a collaborator failed.
    Abort,
}

/// Where the command stands.
#[derive(Clone, Debug)]
pub enum CatchupStage {
    /// The user's default language was asked for.
    AwaitingDefault,
    /// The user's subscriptions were asked for.
    AwaitingSubscriptions,
    /// The target language is known: the user's dialect for it was asked for.
    AwaitingDialect { target: String },
    /// The platform was told that the reply will take a while.
    AwaitingDefer { target: String, dialect: Option<String> },
    /// The message shown last was asked for.
    AwaitingCursor { target: String, dialect: Option<String> },
    /// The channel's messages were asked for.
    AwaitingMessages { target: String, dialect: Option<String> },
    /// The translation of one message was asked for.
    AwaitingTranslation {
        target: String,
        dialect: Option<String>,
        /// The messages to show, oldest first.
        messages: Vec<FetchedMessage>,
        /// The message whose translation is awaited.
        index: usize,
        /// The reply so far.
        output: String,
        /// The last message whose line is in the reply, if there is one.
        last_shown: Option<usize>,
    },
    /// The reply is complete: its last message is being recorded as shown.
    AwaitingStore { output: String },
    /// Nothing more is asked.
    Finished,
}

/// One run of the command.
#[derive(Clone, Debug)]
pub struct Catchup {
    pub request: CatchupRequest,
    pub stage: CatchupStage,
}

/// A `CatchupRequest` as plain values.
pub struct RequestView {
    pub guild: Option<Seq<char>>,
    pub bot: Seq<char>,
    pub count: Option<u32>,
    pub language: Option<Seq<char>>,
}

/// A `FetchedMessage` as plain values.
pub struct FetchedView {
    pub id: Seq<char>,
    pub author: Seq<char>,
    pub author_name: Seq<char>,
    pub time: Seq<char>,
    pub content: Seq<char>,
}

/// A `CatchupQuery` as plain values.
pub enum CatchupQueryView {
    DefaultLanguage,
    Subscriptions,
    Dialect { language: Seq<char> },
    Defer,
    Cursor,
    Messages { after: Option<u64>, limit: u8 },
    Translation { job: JobView },
    StoreCursor { message_id: Seq<char> },
}

/// A `CatchupAnswer` as plain values.
pub enum CatchupAnswerView {
    Failed,
    DefaultLanguage(Option<Seq<char>>),
    Subscriptions(Seq<Seq<char>>),
    Dialect(Option<Seq<char>>),
    Deferred,
    Cursor(Option<Seq<char>>),
    Messages(Seq<FetchedView>),
    /// The translated text, none where there is none.
    Translation(Option<Seq<char>>),
    Stored,
}

/// A `CatchupStep` as plain values.
pub enum CatchupStepView {
    Ask(CatchupQueryView),
    Say(Seq<char>),
    Abort,
}

/// A `CatchupStage` as plain values.
pub enum CatchupStageView {
    AwaitingDefault,
    AwaitingSubscriptions,
    AwaitingDialect { target: Seq<char> },
    AwaitingDefer { target: Seq<char>, dialect: Option<Seq<char>> },
    AwaitingCursor { target: Seq<char>, dialect: Option<Seq<char>> },
    AwaitingMessages { target: Seq<char>, dialect: Option<Seq<char>> },
    AwaitingTranslation {
        target: Seq<char>,
        dialect: Option<Seq<char>>,
        messages: Seq<FetchedView>,
        index: int,
        output: Seq<char>,
        last_shown: Option<int>,
    },
    AwaitingStore { output: Seq<char> },
    Finished,
}

impl DeepView for CatchupRequest {
    type V = RequestView;

    open spec fn deep_view(&self) -> RequestView {
        RequestView {
            guild: self.guild.deep_view(),
            bot: self.bot@,
            count: self.count,
            language: self.language.deep_view(),
        }
    }
}

impl DeepView for FetchedMessage {
    type V = FetchedView;

    open spec fn deep_view(&self) -> FetchedView {
        FetchedView {
            id: self.id@,
            author: self.author@,
            author_name: self.author_name@,
            time: self.time@,
            content: self.content@,
        }
    }
}

impl DeepView for CatchupQuery {
    type V = CatchupQueryView;

    open spec fn deep_view(&self) -> CatchupQueryView {
        match self {
            CatchupQuery::DefaultLanguage => CatchupQueryView::DefaultLanguage,
            CatchupQuery::Subscriptions => CatchupQueryView::Subscriptions,
            CatchupQuery::Dialect { language } => CatchupQueryView::Dialect { language: language@ },
            CatchupQuery::Defer => CatchupQueryView::Defer,
            CatchupQuery::Cursor => CatchupQueryView::Cursor,
            CatchupQuery::Messages { after, limit } => CatchupQueryView::Messages {
                after: *after,
                limit: *limit,
            },
            CatchupQuery::Translation { job } => CatchupQueryView::Translation {
                job: job.deep_view(),
            },
            CatchupQuery::StoreCursor { message_id } => CatchupQueryView::StoreCursor {
                message_id: message_id@,
            },
        }
    }
}

/// The text that a translation result carries.
pub open spec fn translated_text(result: Result<Translation, BackendError>) -> Option<Seq<char>> {
    match result {
        Ok(Translation::Text(t)) => Some(t@),
        Ok(Translation::Unavailable(t)) => Some(t@),
        _ => None,
    }
}

impl DeepView for CatchupAnswer {
    type V = CatchupAnswerView;

    open spec fn deep_view(&self) -> CatchupAnswerView {
        match self {
            CatchupAnswer::Failed => CatchupAnswerView::Failed,
            CatchupAnswer::DefaultLanguage(l) => CatchupAnswerView::DefaultLanguage(l.deep_view()),
            CatchupAnswer::Subscriptions(s) => CatchupAnswerView::Subscriptions(s.deep_view()),
            CatchupAnswer::Dialect(d) => CatchupAnswerView::Dialect(d.deep_view()),
            CatchupAnswer::Deferred => CatchupAnswerView::Deferred,
            CatchupAnswer::Cursor(c) => CatchupAnswerView::Cursor(c.deep_view()),
            CatchupAnswer::Messages(m) => CatchupAnswerView::Messages(m.deep_view()),
            CatchupAnswer::Translation(r) => CatchupAnswerView::Translation(translated_text(*r)),
            CatchupAnswer::Stored => CatchupAnswerView::Stored,
        }
    }
}

impl DeepView for CatchupStep {
    type V = CatchupStepView;

    open spec fn deep_view(&self) -> CatchupStepView {
        match self {
            CatchupStep::Ask(q) => CatchupStepView::Ask(q.deep_view()),
            CatchupStep::Say(t) => CatchupStepView::Say(t@),
            CatchupStep::Abort => CatchupStepView::Abort,
        }
    }
}

impl DeepView for CatchupStage {
    type V = CatchupStageView;

    open spec fn deep_view(&self) -> CatchupStageView {
        match self {
            CatchupStage::AwaitingDefault => CatchupStageView::AwaitingDefault,
            CatchupStage::AwaitingSubscriptions => CatchupStageView::AwaitingSubscriptions,
            CatchupStage::AwaitingDialect { target } => CatchupStageView::AwaitingDialect {
                target: target@,
            },
            CatchupStage::AwaitingDefer { target, dialect } => CatchupStageView::AwaitingDefer {
                target: target@,
                dialect: dialect.deep_view(),
            },
            CatchupStage::AwaitingCursor { target, dialect } => CatchupStageView::AwaitingCursor {
                target: target@,
                dialect: dialect.deep_view(),
            },
            CatchupStage::AwaitingMessages { target, dialect } => CatchupStageView::AwaitingMessages {
                target: target@,
                dialect: dialect.deep_view(),
            },
            CatchupStage::AwaitingTranslation {
                target,
                dialect,
                messages,
                index,
                output,
                last_shown,
            } => CatchupStageView::AwaitingTranslation {
                target: target@,
                dialect: dialect.deep_view(),
                messages: messages.deep_view(),
                index: *index as int,
                output: output@,
                last_shown: shown_index(*last_shown),
            },
            CatchupStage::AwaitingStore { output } => CatchupStageView::AwaitingStore {
                output: output@,
            },
            CatchupStage::Finished => CatchupStageView::Finished,
        }
    }
}

/// The end of the command with a reply.
pub open spec fn saying(text: Seq<char>) -> (CatchupStageView, CatchupStepView) {
    (CatchupStageView::Finished, CatchupStepView::Say(text))
}

/// The end of the command without a reply.
pub open spec fn giving_up() -> (CatchupStageView, CatchupStepView) {
    (CatchupStageView::Finished, CatchupStepView::Abort)
}

/// The step once the target language is known: the user's dialect is asked for.
pub open spec fn with_target(target: Seq<char>) -> (CatchupStageView, CatchupStepView) {
    (
        CatchupStageView::AwaitingDialect { target },
        CatchupStepView::Ask(CatchupQueryView::Dialect { language: target }),
    )
}

/// The first step. The language that the user names comes first, then the
/// user's default language, then the subscriptions.
pub open spec fn catchup_opening(request: RequestView) -> (CatchupStageView, CatchupStepView) {
    if request.guild is None {
        saying("⚠️ This command is only available in servers."@)
    } else {
        match request.language {
            Some(language) => with_target(normalized_language(language)),
            None => (
                CatchupStageView::AwaitingDefault,
                CatchupStepView::Ask(CatchupQueryView::DefaultLanguage),
            ),
        }
    }
}

/// The first language of `languages` other than English, if there is one.
pub open spec fn first_foreign(languages: Seq<Seq<char>>) -> Option<Seq<char>>
    decreases languages.len(),
{
    if languages.len() == 0 {
        None
    } else if languages[0] != "en"@ {
        Some(languages[0])
    } else {
        first_foreign(languages.drop_first())
    }
}

/// The target language taken from the user's subscriptions: the first that
/// is not English, and English where there is no other.
pub open spec fn subscribed_target(languages: Seq<Seq<char>>) -> Option<Seq<char>> {
    if languages.len() == 0 {
        None
    } else {
        match first_foreign(languages) {
            Some(l) => Some(l),
            None => Some(languages[0]),
        }
    }
}

/// How many messages to ask for, at the most.
pub open spec fn fetch_limit(count: Option<u32>) -> u8 {
    match count {
        Some(n) => if n < MAX_COUNT {
            n as u8
        } else {
            MAX_COUNT as u8
        },
        None => DEFAULT_COUNT as u8,
    }
}

/// The messages to ask for, given what the registry holds as the message
/// shown last. With such a message, what came after it; without, the
/// newest. An identifier that is no positive number counts as none.
pub open spec fn fetch_query(count: Option<u32>, cursor: Option<Seq<char>>) -> CatchupQueryView {
    match cursor {
        Some(id) => match bounded_value(id, u64::MAX as nat) {
            Some(n) => if n > 0 {
                CatchupQueryView::Messages { after: Some(n as u64), limit: fetch_limit(count) }
            } else {
                CatchupQueryView::Messages { after: None, limit: fetch_limit(count) }
            },
            None => CatchupQueryView::Messages { after: None, limit: fetch_limit(count) },
        },
        None => if count is Some {
            CatchupQueryView::Messages { after: None, limit: fetch_limit(count) }
        } else {
            CatchupQueryView::Messages { after: None, limit: FIRST_USE_COUNT }
        },
    }
}

/// Whether a message is shown: not the bot's own translations, and not
/// messages without text.
pub open spec fn shown(message: FetchedView, bot: Seq<char>) -> bool {
    !(message.author == bot && has_prefix(message.content, "🌐"@)) && !is_blank(message.content)
}

/// The messages that are shown, oldest first. `fetched` comes newest first.
pub open spec fn chronological(fetched: Seq<FetchedView>, bot: Seq<char>) -> Seq<FetchedView>
    decreases fetched.len(),
{
    if fetched.len() == 0 {
        Seq::empty()
    } else if shown(fetched[0], bot) {
        chronological(fetched.drop_first(), bot).push(fetched[0])
    } else {
        chronological(fetched.drop_first(), bot)
    }
}

/// How the target is named in the reply.
pub open spec fn target_display(target: Seq<char>, dialect: Option<Seq<char>>) -> Seq<char> {
    match dialect {
        Some(d) => language_name_of(target) + " ("@ + d + ")"@,
        None => language_name_of(target),
    }
}

/// The first lines of the reply.
pub open spec fn header(shown_count: nat, target: Seq<char>, dialect: Option<Seq<char>>) -> Seq<char> {
    "📜 **Last "@ + decimal(shown_count) + " messages translated to "@ + target_display(
        target,
        dialect,
    ) + ":**\n\n"@
}

/// The line of the reply for one message.
pub open spec fn digest_line(time: Seq<char>, author_name: Seq<char>, text: Seq<char>) -> Seq<char> {
    "["@ + time + "] **"@ + author_name + "**: "@ + text + "\n"@
}

/// What ends a reply that was cut short.
pub open spec fn truncation_note() -> Seq<char> {
    "\n_...truncated due to length_"@
}

/// The position of the last message in the reply, as a plain value.
pub open spec fn shown_index(shown: Option<usize>) -> Option<int> {
    match shown {
        Some(i) => Some(i as int),
        None => None,
    }
}

/// The step once the reply is complete. `last_shown` is the last message whose
/// line is in the reply. With no message in the reply the user is told so,
/// and nothing is recorded; otherwise that message is recorded as the one
/// shown last, so that what was cut off or passed over is fetched again.
pub open spec fn closing(messages: Seq<FetchedView>, output: Seq<char>, last_shown: Option<int>) -> (
    CatchupStageView,
    CatchupStepView,
) {
    match last_shown {
        Some(last) => if 0 <= last < messages.len() {
            (
                CatchupStageView::AwaitingStore { output },
                CatchupStepView::Ask(
                    CatchupQueryView::StoreCursor { message_id: messages[last].id },
                ),
            )
        } else {
            saying("📭 No translatable messages found."@)
        },
        None => saying("📭 No translatable messages found."@),
    }
}

/// The step that goes through the messages from `index` on, with the reply
/// so far in `output`. A message is passed over where it is too short. One
/// that is in the target language already goes into the reply as it is; for
/// any other, its translation is asked for.
pub open spec fn digest(
    target: Seq<char>,
    dialect: Option<Seq<char>>,
    messages: Seq<FetchedView>,
    index: int,
    output: Seq<char>,
    last_shown: Option<int>,
) -> (CatchupStageView, CatchupStepView)
    decreases messages.len() - index, 1int,
{
    if index < 0 || index >= messages.len() {
        closing(messages, output, last_shown)
    } else {
        let content = trimmed(messages[index].content);
        if byte_length(content) < SHORTEST_CONTENT {
            digest(target, dialect, messages, index + 1, output, last_shown)
        } else if likely_code(content) == target {
            appended(target, dialect, messages, index, output, last_shown, content)
        } else {
            (
                CatchupStageView::AwaitingTranslation {
                    target,
                    dialect,
                    messages,
                    index,
                    output,
                    last_shown,
                },
                CatchupStepView::Ask(
                    CatchupQueryView::Translation {
                        job: job(content, likely_code(content), target, dialect),
                    },
                ),
            )
        }
    }
}

/// The step once the text for the message at `index` is known: its line is
/// appended, and where the reply has outgrown its budget it ends there.
pub open spec fn appended(
    target: Seq<char>,
    dialect: Option<Seq<char>>,
    messages: Seq<FetchedView>,
    index: int,
    output: Seq<char>,
    last_shown: Option<int>,
    text: Seq<char>,
) -> (CatchupStageView, CatchupStepView)
    decreases messages.len() - index, 0int,
{
    if index < 0 || index >= messages.len() {
        closing(messages, output, last_shown)
    } else {
        let longer = output + digest_line(messages[index].time, messages[index].author_name, text);
        if byte_length(longer) > REPLY_BUDGET {
            closing(messages, longer + truncation_note(), Some(index))
        } else {
            digest(target, dialect, messages, index + 1, longer, Some(index))
        }
    }
}

/// The step once the messages are fetched.
pub open spec fn after_messages(
    request: RequestView,
    target: Seq<char>,
    dialect: Option<Seq<char>>,
    fetched: Seq<FetchedView>,
) -> (CatchupStageView, CatchupStepView) {
    if fetched.len() == 0 {
        saying("📭 No new messages to show."@)
    } else {
        let messages = chronological(fetched, request.bot);
        if messages.len() == 0 {
            saying("📭 No messages to translate."@)
        } else {
            digest(target, dialect, messages, 0, header(messages.len(), target, dialect), None)
        }
    }
}

/// The command's transition.
///
/// A failure to read the default language or the dialect counts as there
/// being none, and a failure to fetch messages as there being no messages.
/// Any other failure ends the command without a reply. A translation that
/// fails leaves the message as it was written.
pub open spec fn catchup_next(request: RequestView, stage: CatchupStageView, answer: CatchupAnswerView)
    -> (CatchupStageView, CatchupStepView) {
    match (stage, answer) {
        (
            CatchupStageView::AwaitingDefault,
            CatchupAnswerView::DefaultLanguage(Some(language)),
        ) => with_target(language),
        (CatchupStageView::AwaitingDefault, CatchupAnswerView::DefaultLanguage(None)) => (
            CatchupStageView::AwaitingSubscriptions,
            CatchupStepView::Ask(CatchupQueryView::Subscriptions),
        ),
        (CatchupStageView::AwaitingDefault, CatchupAnswerView::Failed) => (
            CatchupStageView::AwaitingSubscriptions,
            CatchupStepView::Ask(CatchupQueryView::Subscriptions),
        ),
        (
            CatchupStageView::AwaitingSubscriptions,
            CatchupAnswerView::Subscriptions(languages),
        ) => match subscribed_target(languages) {
            Some(target) => with_target(target),
            None => saying(
                "⚠️ Set a default language with `/fabrica translate default <language>`, or specify one: `/fabrica translate last <count> <language>`"@,
            ),
        },
        (CatchupStageView::AwaitingDialect { target }, CatchupAnswerView::Dialect(dialect)) => (
            CatchupStageView::AwaitingDefer { target, dialect },
            CatchupStepView::Ask(CatchupQueryView::Defer),
        ),
        (CatchupStageView::AwaitingDialect { target }, CatchupAnswerView::Failed) => (
            CatchupStageView::AwaitingDefer { target, dialect: None },
            CatchupStepView::Ask(CatchupQueryView::Defer),
        ),
        (CatchupStageView::AwaitingDefer { target, dialect }, CatchupAnswerView::Deferred) => (
            CatchupStageView::AwaitingCursor { target, dialect },
            CatchupStepView::Ask(CatchupQueryView::Cursor),
        ),
        (CatchupStageView::AwaitingCursor { target, dialect }, CatchupAnswerView::Cursor(cursor)) => (
            CatchupStageView::AwaitingMessages { target, dialect },
            CatchupStepView::Ask(fetch_query(request.count, cursor)),
        ),
        (
            CatchupStageView::AwaitingMessages { target, dialect },
            CatchupAnswerView::Messages(fetched),
        ) => after_messages(request, target, dialect, fetched),
        (
            CatchupStageView::AwaitingMessages { target, dialect },
            CatchupAnswerView::Failed,
        ) => after_messages(request, target, dialect, Seq::empty()),
        (
            CatchupStageView::AwaitingTranslation { target, dialect, messages, index, output, last_shown },
            CatchupAnswerView::Translation(text),
        ) => if 0 <= index < messages.len() {
            appended(
                target,
                dialect,
                messages,
                index,
                output,
                last_shown,
                match text {
                    Some(t) => t,
                    None => trimmed(messages[index].content),
                },
            )
        } else {
            giving_up()
        },
        (CatchupStageView::AwaitingStore { output }, CatchupAnswerView::Stored) => saying(output),
        _ => giving_up(),
    }
}

/// The end of the command with a reply.
fn say(text: &str) -> (r: (CatchupStage, CatchupStep))
    ensures
        (r.0.deep_view(), r.1.deep_view()) == saying(text@),
{
    (CatchupStage::Finished, CatchupStep::Say(text.to_string()))
}

/// The end of the command without a reply.
fn give_up() -> (r: (CatchupStage, CatchupStep))
    ensures
        (r.0.deep_view(), r.1.deep_view()) == giving_up(),
{
    (CatchupStage::Finished, CatchupStep::Abort)
}

/// The step once the target language is known.
fn aim(target: String) -> (r: (CatchupStage, CatchupStep))
    ensures
        (r.0.deep_view(), r.1.deep_view()) == with_target(target@),
{
    let language = target.clone();
    (CatchupStage::AwaitingDialect { target }, CatchupStep::Ask(CatchupQuery::Dialect { language }))
}

/// The target language taken from the user's subscriptions.
pub fn pick_subscribed_target(languages: &Vec<String>) -> (target: Option<String>)
    ensures
        target.deep_view() == subscribed_target(languages.deep_view()),
{
    if languages.len() == 0 {
        return None;
    }
    let ghost all = languages.deep_view();
    let mut i: usize = 0;
    assert(all.skip(0) =~= all);
    while i < languages.len()
        invariant
            i <= languages.len(),
            all == languages.deep_view(),
            first_foreign(all) == first_foreign(all.skip(i as int)),
        decreases languages.len() - i,
    {
        assert(all.skip(i as int).drop_first() =~= all.skip(i + 1));
        if !languages[i].as_str().eq("en") {
            return Some(languages[i].clone());
        }
        i += 1;
    }
    Some(languages[0].clone())
}

/// How many messages to ask for, at the most.
pub fn limit_for(count: Option<u32>) -> (limit: u8)
    ensures
        limit == fetch_limit(count),
{
    match count {
        Some(n) => if n < MAX_COUNT {
            n as u8
        } else {
            MAX_COUNT as u8
        },
        None => DEFAULT_COUNT as u8,
    }
}

/// The messages to ask for.
pub fn plan_fetch(count: Option<u32>, cursor: &Option<String>) -> (query: CatchupQuery)
    ensures
        query.deep_view() == fetch_query(count, cursor.deep_view()),
{
    let limit = limit_for(count);
    match cursor {
        Some(id) => match parse_u64(id.as_str()) {
            Some(n) => if n > 0 {
                CatchupQuery::Messages { after: Some(n), limit }
            } else {
                CatchupQuery::Messages { after: None, limit }
            },
            None => CatchupQuery::Messages { after: None, limit },
        },
        None => if count.is_some() {
            CatchupQuery::Messages { after: None, limit }
        } else {
            CatchupQuery::Messages { after: None, limit: FIRST_USE_COUNT }
        },
    }
}

/// A copy of a message.
fn copy_message(message: &FetchedMessage) -> (copy: FetchedMessage)
    ensures
        copy.deep_view() == message.deep_view(),
{
    FetchedMessage {
        id: message.id.clone(),
        author: message.author.clone(),
        author_name: message.author_name.clone(),
        time: message.time.clone(),
        content: message.content.clone(),
    }
}

/// The messages that are shown, oldest first. `fetched` comes newest first.
pub fn select_messages(fetched: &Vec<FetchedMessage>, bot: &str) -> (messages: Vec<FetchedMessage>)
    ensures
        messages.deep_view() == chronological(fetched.deep_view(), bot@),
{
    let mut messages: Vec<FetchedMessage> = Vec::new();
    let ghost all = fetched.deep_view();
    let mut i: usize = fetched.len();
    assert(all.skip(fetched.len() as int) =~= Seq::<FetchedView>::empty());
    while i > 0
        invariant
            i <= fetched.len(),
            all == fetched.deep_view(),
            messages.deep_view() == chronological(all.skip(i as int), bot@),
        decreases i,
    {
        i -= 1;
        assert(all.skip(i as int).drop_first() =~= all.skip(i + 1));
        let m = &fetched[i];
        let own_translation = m.author.as_str().eq(bot) && starts_with(m.content.as_str(), "🌐");
        if !own_translation && !blank(m.content.as_str()) {
            let ghost before = messages.deep_view();
            messages.push(copy_message(m));
            assert(messages.deep_view() =~= before.push(all[i as int]));
        }
    }
    assert(all.skip(0) =~= all);
    messages
}

/// The first lines of the reply.
pub fn compose_header(shown_count: usize, target: &str, dialect: &Option<String>) -> (text: String)
    ensures
        text@ == header(shown_count as nat, target@, dialect.deep_view()),
{
    let mut text = "📜 **Last ".to_string();
    text.append(write_decimal(shown_count as u64).as_str());
    text.append(" messages translated to ");
    match dialect {
        Some(d) => {
            let mut display = language_name(target).to_string();
            display.append(" (");
            display.append(d.as_str());
            display.append(")");
            text.append(display.as_str());
        },
        None => {
            text.append(language_name(target));
        },
    }
    text.append(":**\n\n");
    text
}

/// The line of the reply for one message.
pub fn compose_line(time: &str, author_name: &str, text: &str) -> (line: String)
    ensures
        line@ == digest_line(time@, author_name@, text@),
{
    let mut line = "[".to_string();
    line.append(time);
    line.append("] **");
    line.append(author_name);
    line.append("**: ");
    line.append(text);
    line.append("\n");
    line
}

/// The step once the reply is complete.
fn close(messages: &Vec<FetchedMessage>, output: String, last_shown: Option<usize>) -> (r: (
    CatchupStage,
    CatchupStep,
))
    ensures
        (r.0.deep_view(), r.1.deep_view()) == closing(
            messages.deep_view(),
            output@,
            shown_index(last_shown),
        ),
{
    match last_shown {
        Some(last) => {
            if last < messages.len() {
                let message_id = messages[last].id.clone();
                assert(messages.deep_view()[last as int] == messages[last as int].deep_view());
                (
                    CatchupStage::AwaitingStore { output },
                    CatchupStep::Ask(CatchupQuery::StoreCursor { message_id }),
                )
            } else {
                say("📭 No translatable messages found.")
            }
        },
        None => say("📭 No translatable messages found."),
    }
}

/// Goes through the messages from `index` on.
fn run_digest(
    target: String,
    dialect: Option<String>,
    messages: Vec<FetchedMessage>,
    index: usize,
    output: String,
    last_shown: Option<usize>,
) -> (r: (CatchupStage, CatchupStep))
    requires
        index <= messages.len(),
    ensures
        (r.0.deep_view(), r.1.deep_view()) == digest(
            target@,
            dialect.deep_view(),
            messages.deep_view(),
            index as int,
            output@,
            shown_index(last_shown),
        ),
    decreases messages.len() - index,
{
    if index >= messages.len() {
        return close(&messages, output, last_shown);
    }
    assert(messages.deep_view()[index as int] == messages[index as int].deep_view());
    let content = trim(messages[index].content.as_str());
    let size = content.as_str().len();
    assert(size == byte_length(content@));
    if size < SHORTEST_CONTENT {
        return run_digest(target, dialect, messages, index + 1, output, last_shown);
    }
    let source = guess_language(content.as_str());
    if source.as_str().eq(target.as_str()) {
        let line = compose_line(
            messages[index].time.as_str(),
            messages[index].author_name.as_str(),
            content.as_str(),
        );
        assert(digest(
            target@,
            dialect.deep_view(),
            messages.deep_view(),
            index as int,
            output@,
            shown_index(last_shown),
        ) == appended(
            target@,
            dialect.deep_view(),
            messages.deep_view(),
            index as int,
            output@,
            shown_index(last_shown),
            content@,
        ));
        let mut longer = output;
        longer.append(line.as_str());
        let size = longer.as_str().len();
        assert(size == byte_length(longer@));
        if size > REPLY_BUDGET {
            longer.append("\n_...truncated due to length_");
            close(&messages, longer, Some(index))
        } else {
            run_digest(target, dialect, messages, index + 1, longer, Some(index))
        }
    } else {
        let job = TranslationJob {
            text: content,
            from: source,
            to: target.clone(),
            dialect: copy_optional(&dialect),
        };
        (
            CatchupStage::AwaitingTranslation { target, dialect, messages, index, output, last_shown },
            CatchupStep::Ask(CatchupQuery::Translation { job }),
        )
    }
}

/// The step once the translation of the message at `index` is in.
fn on_translation(
    target: String,
    dialect: Option<String>,
    messages: Vec<FetchedMessage>,
    index: usize,
    output: String,
    last_shown: Option<usize>,
    result: Result<Translation, BackendError>,
) -> (r: (CatchupStage, CatchupStep))
    requires
        index < messages.len(),
    ensures
        (r.0.deep_view(), r.1.deep_view()) == appended(
            target@,
            dialect.deep_view(),
            messages.deep_view(),
            index as int,
            output@,
            shown_index(last_shown),
            match translated_text(result) {
                Some(t) => t,
                None => trimmed(messages[index as int].content@),
            },
        ),
{
    let text = match result {
        Ok(Translation::Text(t)) => t,
        Ok(Translation::Unavailable(t)) => t,
        _ => trim(messages[index].content.as_str()),
    };
    let line = compose_line(
        messages[index].time.as_str(),
        messages[index].author_name.as_str(),
        text.as_str(),
    );
    assert(messages.deep_view()[index as int] == messages[index as int].deep_view());
    let mut output = output;
    output.append(line.as_str());
    let size = output.as_str().len();
    assert(size == byte_length(output@));
    if size > REPLY_BUDGET {
        output.append("\n_...truncated due to length_");
        close(&messages, output, Some(index))
    } else {
        run_digest(target, dialect, messages, index + 1, output, Some(index))
    }
}

/// The step once the messages are fetched.
fn on_messages(request: &CatchupRequest, target: String, dialect: Option<String>, fetched: &Vec<
    FetchedMessage,
>) -> (r: (CatchupStage, CatchupStep))
    ensures
        (r.0.deep_view(), r.1.deep_view()) == after_messages(
            request.deep_view(),
            target@,
            dialect.deep_view(),
            fetched.deep_view(),
        ),
{
    if fetched.len() == 0 {
        return say("📭 No new messages to show.");
    }
    let messages = select_messages(fetched, request.bot.as_str());
    if messages.len() == 0 {
        return say("📭 No messages to translate.");
    }
    let output = compose_header(messages.len(), target.as_str(), &dialect);
    run_digest(target, dialect, messages, 0, output, None)
}

impl Catchup {
    /// Takes up a request.
    pub fn start(request: CatchupRequest) -> (r: (Catchup, CatchupStep))
        ensures
            r.0.request.deep_view() == request.deep_view(),
            (r.0.stage.deep_view(), r.1.deep_view()) == catchup_opening(request.deep_view()),
    {
        let (stage, step) = if request.guild.is_none() {
            say("⚠️ This command is only available in servers.")
        } else {
            match &request.language {
                Some(language) => aim(normalize_language(language.as_str())),
                None => (
                    CatchupStage::AwaitingDefault,
                    CatchupStep::Ask(CatchupQuery::DefaultLanguage),
                ),
            }
        };
        (Catchup { request, stage }, step)
    }

    /// Takes the answer to the query that was asked last and says what is next.
    pub fn step(self, answer: CatchupAnswer) -> (r: (Catchup, CatchupStep))
        ensures
            r.0.request.deep_view() == self.request.deep_view(),
            (r.0.stage.deep_view(), r.1.deep_view()) == catchup_next(
                self.request.deep_view(),
                self.stage.deep_view(),
                answer.deep_view(),
            ),
    {
        let Catchup { request, stage } = self;
        let (stage, step) = match (stage, answer) {
            (CatchupStage::AwaitingDefault, CatchupAnswer::DefaultLanguage(Some(language))) => aim(
                language,
            ),
            (CatchupStage::AwaitingDefault, CatchupAnswer::DefaultLanguage(None)) => (
                CatchupStage::AwaitingSubscriptions,
                CatchupStep::Ask(CatchupQuery::Subscriptions),
            ),
            (CatchupStage::AwaitingDefault, CatchupAnswer::Failed) => (
                CatchupStage::AwaitingSubscriptions,
                CatchupStep::Ask(CatchupQuery::Subscriptions),
            ),
            (
                CatchupStage::AwaitingSubscriptions,
                CatchupAnswer::Subscriptions(languages),
            ) => match pick_subscribed_target(&languages) {
                Some(target) => aim(target),
                None => say(
                    "⚠️ Set a default language with `/fabrica translate default <language>`, or specify one: `/fabrica translate last <count> <language>`",
                ),
            },
            (CatchupStage::AwaitingDialect { target }, CatchupAnswer::Dialect(dialect)) => (
                CatchupStage::AwaitingDefer { target, dialect },
                CatchupStep::Ask(CatchupQuery::Defer),
            ),
            (CatchupStage::AwaitingDialect { target }, CatchupAnswer::Failed) => (
                CatchupStage::AwaitingDefer { target, dialect: None },
                CatchupStep::Ask(CatchupQuery::Defer),
            ),
            (CatchupStage::AwaitingDefer { target, dialect }, CatchupAnswer::Deferred) => (
                CatchupStage::AwaitingCursor { target, dialect },
                CatchupStep::Ask(CatchupQuery::Cursor),
            ),
            (CatchupStage::AwaitingCursor { target, dialect }, CatchupAnswer::Cursor(cursor)) => {
                let query = plan_fetch(request.count, &cursor);
                (CatchupStage::AwaitingMessages { target, dialect }, CatchupStep::Ask(query))
            },
            (
                CatchupStage::AwaitingMessages { target, dialect },
                CatchupAnswer::Messages(fetched),
            ) => on_messages(&request, target, dialect, &fetched),
            (CatchupStage::AwaitingMessages { target, dialect }, CatchupAnswer::Failed) => {
                let fetched: Vec<FetchedMessage> = Vec::new();
                assert(fetched.deep_view() =~= Seq::<FetchedView>::empty());
                on_messages(&request, target, dialect, &fetched)
            },
            (
                CatchupStage::AwaitingTranslation { target, dialect, messages, index, output, last_shown },
                CatchupAnswer::Translation(result),
            ) => {
                if index < messages.len() {
                    on_translation(target, dialect, messages, index, output, last_shown, result)
                } else {
                    give_up()
                }
            },
            (CatchupStage::AwaitingStore { output }, CatchupAnswer::Stored) => (
                CatchupStage::Finished,
                CatchupStep::Say(output),
            ),
            _ => give_up(),
        };
        (Catchup { request, stage }, step)
    }
}

/// Whether a step records the message at `at` as the one shown last.
pub open spec fn records(step: CatchupStepView, messages: Seq<FetchedView>, at: int) -> bool {
    0 <= at < messages.len() && step == CatchupStepView::Ask(
        CatchupQueryView::StoreCursor { message_id: messages[at].id },
    )
}

/// A reply that is cut short records the message whose line was the last
/// to go in: the messages behind it were not shown, and are fetched again.
pub proof fn lemma_cut_reply_records_its_last_line(
    target: Seq<char>,
    dialect: Option<Seq<char>>,
    messages: Seq<FetchedView>,
    index: int,
    output: Seq<char>,
    last_shown: Option<int>,
    text: Seq<char>,
)
    requires
        0 <= index < messages.len(),
        byte_length(
            output + digest_line(messages[index].time, messages[index].author_name, text),
        ) > REPLY_BUDGET,
    ensures
        records(
            appended(target, dialect, messages, index, output, last_shown, text).1,
            messages,
            index,
        ),
{
}

/// Whatever is recorded as shown is a message whose line is in the reply:
/// the one that was last in it before, or one that went in since. The same
/// holds of what is kept as last in the reply while a translation is
/// awaited, and that is never the message whose translation is awaited.
pub proof fn lemma_only_shown_messages_are_recorded(
    target: Seq<char>,
    dialect: Option<Seq<char>>,
    messages: Seq<FetchedView>,
    index: int,
    output: Seq<char>,
    last_shown: Option<int>,
)
    requires
        0 <= index,
    ensures
        digest(target, dialect, messages, index, output, last_shown).1 matches CatchupStepView::Ask(
            CatchupQueryView::StoreCursor { message_id },
        ) ==> exists|at: int|
            (last_shown == Some(at) || index <= at) && #[trigger] records(
                digest(target, dialect, messages, index, output, last_shown).1,
                messages,
                at,
            ),
        digest(target, dialect, messages, index, output, last_shown).0
            matches CatchupStageView::AwaitingTranslation { last_shown: kept, index: waiting, .. }
            ==> index <= waiting < messages.len() && (kept == last_shown || (kept matches Some(at)
            && index <= at < waiting)),
    decreases messages.len() - index, 1int,
{
    let result = digest(target, dialect, messages, index, output, last_shown);
    if index >= messages.len() {
        if result.1 is Ask {
            assert(records(result.1, messages, last_shown->0));
        }
    } else {
        let content = trimmed(messages[index].content);
        if byte_length(content) < SHORTEST_CONTENT {
            lemma_only_shown_messages_are_recorded(
                target,
                dialect,
                messages,
                index + 1,
                output,
                last_shown,
            );
            if result.1 matches CatchupStepView::Ask(CatchupQueryView::StoreCursor { message_id }) {
                let at = choose|at: int|
                    (last_shown == Some(at) || index + 1 <= at) && #[trigger] records(
                        result.1,
                        messages,
                        at,
                    );
                assert(records(result.1, messages, at));
            }
        } else if likely_code(content) == target {
            lemma_appending_records_shown_messages(
                target,
                dialect,
                messages,
                index,
                output,
                last_shown,
                content,
            );
        }
    }
}

/// What is recorded once a line went into the reply is that line's message
/// or one that went in after it.
pub proof fn lemma_appending_records_shown_messages(
    target: Seq<char>,
    dialect: Option<Seq<char>>,
    messages: Seq<FetchedView>,
    index: int,
    output: Seq<char>,
    last_shown: Option<int>,
    text: Seq<char>,
)
    requires
        0 <= index < messages.len(),
    ensures
        appended(target, dialect, messages, index, output, last_shown, text).1
            matches CatchupStepView::Ask(CatchupQueryView::StoreCursor { message_id })
            ==> exists|at: int|
            index <= at && #[trigger] records(
                appended(target, dialect, messages, index, output, last_shown, text).1,
                messages,
                at,
            ),
        appended(target, dialect, messages, index, output, last_shown, text).0
            matches CatchupStageView::AwaitingTranslation { last_shown: kept, index: waiting, .. }
            ==> index < waiting < messages.len() && (kept matches Some(at) && index <= at < waiting),
    decreases messages.len() - index, 0int,
{
    let result = appended(target, dialect, messages, index, output, last_shown, text);
    let longer = output + digest_line(messages[index].time, messages[index].author_name, text);
    if byte_length(longer) > REPLY_BUDGET {
        assert(records(result.1, messages, index));
    } else {
        lemma_only_shown_messages_are_recorded(
            target,
            dialect,
            messages,
            index + 1,
            longer,
            Some(index),
        );
        if result.1 matches CatchupStepView::Ask(CatchupQueryView::StoreCursor { message_id }) {
            let at = choose|at: int|
                (Some(index) == Some(at) || index + 1 <= at) && #[trigger] records(
                    result.1,
                    messages,
                    at,
                );
            assert(records(result.1, messages, at));
        }
    }
}

/// A reply without a message records nothing: the user is told that there
/// was nothing to show, and the cursor stays where it was.
pub proof fn lemma_empty_reply_records_nothing(messages: Seq<FetchedView>, output: Seq<char>)
    ensures
        closing(messages, output, None) == saying("📭 No translatable messages found."@),
{
}

} // verus!

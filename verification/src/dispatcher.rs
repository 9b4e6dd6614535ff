//! The mode dispatcher: what happens to one inbound message.
//!
//! Handling a message takes several exchanges with the outside world: the
//! channel's mode and the subscriptions are read from the registry, the
//! backend is asked for translations, and in the end replies are posted and
//! private messages sent. The dispatcher makes every decision on the way and
//! performs none of the exchanges. It is driven in a loop: it names what it
//! needs to know next, the caller finds that out and hands the answer back,
//! until the dispatcher says what is to be delivered.
//!
//! A dispatcher serves one message. Nothing is shared between messages, so
//! any number of them can be in flight at once.

use vstd::prelude::*;
use crate::classifier::{classify, fallback_code, settle, settled_code, statistical_detection, Classification};
use crate::delivery::{
    addressed, batch_lines, batch_reply, collect_deliveries, collect_lines, compose_batch_reply,
    compose_english_reply, compose_private_messages, copy_optional, drop_english,
    drop_english_subscribers, english_reply, foreign_subscribers, group_deliveries,
    group_subscribers, grouping, is_addressed, is_listed, keep_text, kept_text, outcomes_of, private_messages,
    without_english, Delivery, DeliveryView, Effect, EffectView, Group, GroupView, Outcome,
    Subscriber, SubscriberView,
};
use crate::language::{is_english, names_english};
use crate::mode::ChannelMode;
use crate::text::{has_prefix, starts_with, trim, trimmed};
use crate::translator::{BackendError, Translation};

verus! {

/// A message as the chat platform delivers it.
#[derive(Clone, Debug)]
pub struct InboundMessage {
    /// The message's identifier.
    pub id: String,
    /// When the message was sent, in seconds since the Unix epoch.
    pub timestamp: i64,
    /// The guild of the channel; none for a direct message.
    pub guild: Option<String>,
    pub channel: String,
    /// The author's identifier.
    pub author: String,
    /// The author's display name.
    pub author_name: String,
    /// Whether the author is a program.
    pub author_is_bot: bool,
    /// The raw text.
    pub text: String,
}

/// One translation to ask the backend for.
#[derive(Clone, Debug)]
pub struct TranslationJob {
    pub text: String,
    pub from: String,
    pub to: String,
    pub dialect: Option<String>,
}

/// What the dispatcher needs to know next. Every query but the two to the
/// backend and the one for the channel's name is a read of the registry, for
/// the channel of the message.
#[derive(Clone, Debug)]
pub enum Query {
    /// The channel's translation mode.
    ChannelMode,
    /// Backend: the language of `text`.
    Detection { text: String },
    /// The distinct languages subscribed to in the channel.
    SubscribedLanguages,
    /// The subscriptions in the channel to languages other than English.
    NonEnglishSubscriptions,
    /// For each subscription, the dialect its user prefers for its language.
    Dialects { subscribers: Vec<Subscriber> },
    /// The users subscribed to `language` in the channel.
    Subscribers { language: String },
    /// Platform: the channel's name.
    ChannelName,
    /// Whether `user` asked to receive translations of their own messages.
    DebugFlag { user: String },
    /// Backend: one translation for each job. The jobs do not depend on each other.
    Translations { jobs: Vec<TranslationJob> },
}

/// The answer to a query.
#[derive(Debug)]
pub enum Answer {
    /// The registry could not be read.
    Unavailable,
    /// The channel's mode.
    Mode(ChannelMode),
    /// The backend's answer to a detection, or why it gave none.
    Detected(Result<String, BackendError>),
    /// The languages subscribed to in the channel.
    Languages(Vec<String>),
    /// The subscriptions to languages other than English.
    Subscriptions(Vec<Subscriber>),
    /// One entry for each subscription asked about, none where the user has no preference.
    Dialects(Vec<Option<String>>),
    /// The users subscribed to the language asked about.
    Subscribers(Vec<String>),
    /// The channel's name, none where the platform does not tell it.
    ChannelName(Option<String>),
    /// Whether the user asked about receives translations of their own messages.
    DebugFlag(bool),
    /// One result for each job, in the order of the jobs.
    Translations(Vec<Result<Translation, BackendError>>),
}

/// Why a message was given up.
#[derive(Clone, Copy, Debug, PartialEq, Eq, Structural)]
pub enum DispatchError {
    /// The registry could not be read where the message cannot go on without it.
    RegistryUnavailable,
    /// The answer does not fit the query that was asked.
    UnexpectedAnswer,
}

/// What the caller is to do next.
#[derive(Clone, Debug)]
pub enum Step {
    /// Find this out and come back with the answer.
    Ask(Query),
    /// Deliver these, in any order, and stop. Delivery is not retried.
    Finish(Vec<Effect>),
    /// Stop: the message is left unprocessed.
    Abort(DispatchError),
}

/// Where the handling of a message stands.
#[derive(Clone, Debug)]
pub enum Stage {
    /// The channel's mode was asked for.
    AwaitingMode,
    /// The detector was unsure: the backend was asked for the language.
    AwaitingDetection { mode: ChannelMode },
    /// English in a transparent channel: the subscribed languages were asked for.
    AwaitingLanguages,
    /// The translations into `targets` were asked for, to be posted.
    AwaitingPublicBatch { targets: Vec<String> },
    /// English in any other channel: the subscriptions were asked for.
    AwaitingSubscriptions,
    /// The dialects that `subscribers` prefer were asked for.
    AwaitingDialects { subscribers: Vec<Subscriber> },
    /// The translations for `groups` were asked for, to be sent privately.
    AwaitingGroupTranslations { groups: Vec<Group> },
    /// Another language than English: its translation into English was asked for.
    AwaitingEnglish { mode: ChannelMode },
    /// The subscribers of English were asked for, to be sent `text`.
    AwaitingEnglishSubscribers { text: String },
    /// The channel's name was asked for: it stands in every private message.
    AwaitingChannelName { deliveries: Vec<Delivery> },
    /// The author is among the recipients: their debug flag was asked for.
    AwaitingDebug { deliveries: Vec<Delivery>, channel_name: String },
    /// Nothing more is asked.
    Finished,
}

/// The handling of one message.
#[derive(Clone, Debug)]
pub struct Dispatcher {
    pub message: InboundMessage,
    pub stage: Stage,
}

/// A `InboundMessage` as plain values.
pub struct MessageView {
    pub id: Seq<char>,
    pub timestamp: i64,
    pub guild: Option<Seq<char>>,
    pub channel: Seq<char>,
    pub author: Seq<char>,
    pub author_name: Seq<char>,
    pub author_is_bot: bool,
    pub text: Seq<char>,
}

/// A `TranslationJob` as plain values.
pub struct JobView {
    pub text: Seq<char>,
    pub from: Seq<char>,
    pub to: Seq<char>,
    pub dialect: Option<Seq<char>>,
}

/// A `Query` as plain values.
pub enum QueryView {
    ChannelMode,
    Detection { text: Seq<char> },
    SubscribedLanguages,
    NonEnglishSubscriptions,
    Dialects { subscribers: Seq<SubscriberView> },
    Subscribers { language: Seq<char> },
    ChannelName,
    DebugFlag { user: Seq<char> },
    Translations { jobs: Seq<JobView> },
}

/// A `Answer` as plain values.
pub enum AnswerView {
    Unavailable,
    Mode(ChannelMode),
    /// The code that stands after the backend was asked.
    Detected(Seq<char>),
    Languages(Seq<Seq<char>>),
    Subscriptions(Seq<SubscriberView>),
    Dialects(Seq<Option<Seq<char>>>),
    Subscribers(Seq<Seq<char>>),
    ChannelName(Option<Seq<char>>),
    DebugFlag(bool),
    Translations(Seq<Outcome>),
}

/// A `Step` as plain values.
pub enum StepView {
    Ask(QueryView),
    Finish(Seq<EffectView>),
    Abort(DispatchError),
}

/// A `Stage` as plain values.
pub enum StageView {
    AwaitingMode,
    AwaitingDetection { mode: ChannelMode },
    AwaitingLanguages,
    AwaitingPublicBatch { targets: Seq<Seq<char>> },
    AwaitingSubscriptions,
    AwaitingDialects { subscribers: Seq<SubscriberView> },
    AwaitingGroupTranslations { groups: Seq<GroupView> },
    AwaitingEnglish { mode: ChannelMode },
    AwaitingEnglishSubscribers { text: Seq<char> },
    AwaitingChannelName { deliveries: Seq<DeliveryView> },
    AwaitingDebug { deliveries: Seq<DeliveryView>, channel_name: Seq<char> },
    Finished,
}

impl DeepView for InboundMessage {
    type V = MessageView;

    open spec fn deep_view(&self) -> MessageView {
        MessageView {
            id: self.id@,
            timestamp: self.timestamp,
            guild: self.guild.deep_view(),
            channel: self.channel@,
            author: self.author@,
            author_name: self.author_name@,
            author_is_bot: self.author_is_bot,
            text: self.text@,
        }
    }
}

impl DeepView for TranslationJob {
    type V = JobView;

    open spec fn deep_view(&self) -> JobView {
        JobView {
            text: self.text@,
            from: self.from@,
            to: self.to@,
            dialect: self.dialect.deep_view(),
        }
    }
}

impl DeepView for Query {
    type V = QueryView;

    open spec fn deep_view(&self) -> QueryView {
        match self {
            Query::ChannelMode => QueryView::ChannelMode,
            Query::Detection { text } => QueryView::Detection { text: text@ },
            Query::SubscribedLanguages => QueryView::SubscribedLanguages,
            Query::NonEnglishSubscriptions => QueryView::NonEnglishSubscriptions,
            Query::Dialects { subscribers } => QueryView::Dialects {
                subscribers: subscribers.deep_view(),
            },
            Query::Subscribers { language } => QueryView::Subscribers { language: language@ },
            Query::ChannelName => QueryView::ChannelName,
            Query::DebugFlag { user } => QueryView::DebugFlag { user: user@ },
            Query::Translations { jobs } => QueryView::Translations { jobs: jobs.deep_view() },
        }
    }
}

impl DeepView for Answer {
    type V = AnswerView;

    open spec fn deep_view(&self) -> AnswerView {
        match self {
            Answer::Unavailable => AnswerView::Unavailable,
            Answer::Mode(mode) => AnswerView::Mode(*mode),
            Answer::Detected(outcome) => AnswerView::Detected(fallback_code(*outcome)),
            Answer::Languages(languages) => AnswerView::Languages(languages.deep_view()),
            Answer::Subscriptions(subscribers) => AnswerView::Subscriptions(
                subscribers.deep_view(),
            ),
            Answer::Dialects(dialects) => AnswerView::Dialects(dialects.deep_view()),
            Answer::Subscribers(users) => AnswerView::Subscribers(users.deep_view()),
            Answer::ChannelName(name) => AnswerView::ChannelName(name.deep_view()),
            Answer::DebugFlag(flag) => AnswerView::DebugFlag(*flag),
            Answer::Translations(results) => AnswerView::Translations(outcomes_of(results@)),
        }
    }
}

impl DeepView for Step {
    type V = StepView;

    open spec fn deep_view(&self) -> StepView {
        match self {
            Step::Ask(query) => StepView::Ask(query.deep_view()),
            Step::Finish(effects) => StepView::Finish(effects.deep_view()),
            Step::Abort(error) => StepView::Abort(*error),
        }
    }
}

impl DeepView for Stage {
    type V = StageView;

    open spec fn deep_view(&self) -> StageView {
        match self {
            Stage::AwaitingMode => StageView::AwaitingMode,
            Stage::AwaitingDetection { mode } => StageView::AwaitingDetection { mode: *mode },
            Stage::AwaitingLanguages => StageView::AwaitingLanguages,
            Stage::AwaitingPublicBatch { targets } => StageView::AwaitingPublicBatch {
                targets: targets.deep_view(),
            },
            Stage::AwaitingSubscriptions => StageView::AwaitingSubscriptions,
            Stage::AwaitingDialects { subscribers } => StageView::AwaitingDialects {
                subscribers: subscribers.deep_view(),
            },
            Stage::AwaitingGroupTranslations { groups } => StageView::AwaitingGroupTranslations {
                groups: groups.deep_view(),
            },
            Stage::AwaitingEnglish { mode } => StageView::AwaitingEnglish { mode: *mode },
            Stage::AwaitingEnglishSubscribers { text } => StageView::AwaitingEnglishSubscribers {
                text: text@,
            },
            Stage::AwaitingChannelName { deliveries } => StageView::AwaitingChannelName {
                deliveries: deliveries.deep_view(),
            },
            Stage::AwaitingDebug { deliveries, channel_name } => StageView::AwaitingDebug {
                deliveries: deliveries.deep_view(),
                channel_name: channel_name@,
            },
            Stage::Finished => StageView::Finished,
        }
    }
}

/// The end of a message for which nothing is delivered.
pub open spec fn finished() -> (StageView, StepView) {
    (StageView::Finished, StepView::Finish(Seq::empty()))
}

/// The end of a message with these deliveries.
pub open spec fn delivering(effects: Seq<EffectView>) -> (StageView, StepView) {
    (StageView::Finished, StepView::Finish(effects))
}

/// The end of a message that is given up.
pub open spec fn aborted(error: DispatchError) -> (StageView, StepView) {
    (StageView::Finished, StepView::Abort(error))
}

/// The job that translates `text` into the language `to`.
pub open spec fn job(text: Seq<char>, from: Seq<char>, to: Seq<char>, dialect: Option<Seq<char>>)
    -> JobView {
    JobView { text, from, to, dialect }
}

/// One job for each target language, from English.
pub open spec fn language_jobs(text: Seq<char>, targets: Seq<Seq<char>>) -> Seq<JobView> {
    Seq::new(targets.len(), |i: int| job(text, "en"@, targets[i], None))
}

/// One job for each group, from English into the group's language and dialect.
pub open spec fn group_jobs(text: Seq<char>, groups: Seq<GroupView>) -> Seq<JobView> {
    Seq::new(groups.len(), |i: int| job(text, "en"@, groups[i].language, groups[i].dialect))
}

/// The first step for a message. Messages of programs, direct messages and
/// messages from guilds that are not served end at once; for any other the
/// channel's mode is asked for.
pub open spec fn opening(m: MessageView, served_guilds: Seq<Seq<char>>) -> (StageView, StepView) {
    if m.author_is_bot {
        finished()
    } else {
        match m.guild {
            Some(guild) => if served_guilds.contains(guild) {
                (StageView::AwaitingMode, StepView::Ask(QueryView::ChannelMode))
            } else {
                finished()
            },
            None => finished(),
        }
    }
}

/// The step once the language of the message is known.
///
/// An English message that begins with the command prefix ends here. Any
/// other English message goes out to the subscribers of other languages:
/// publicly in a transparent channel, privately otherwise. A message in
/// another language is translated into English.
pub open spec fn routed(m: MessageView, mode: ChannelMode, code: Seq<char>) -> (StageView, StepView) {
    if names_english(code) {
        if has_prefix(m.text, "/"@) {
            finished()
        } else {
            match mode {
                ChannelMode::Off => finished(),
                ChannelMode::Transparent => (
                    StageView::AwaitingLanguages,
                    StepView::Ask(QueryView::SubscribedLanguages),
                ),
                _ => (
                    StageView::AwaitingSubscriptions,
                    StepView::Ask(QueryView::NonEnglishSubscriptions),
                ),
            }
        }
    } else {
        (
            StageView::AwaitingEnglish { mode },
            StepView::Ask(QueryView::Translations { jobs: seq![job(m.text, code, "en"@, None)] }),
        )
    }
}

/// The step once the channel's mode is known. In a channel that is off, and
/// for a message without text, nothing more happens. Otherwise the message
/// is classified: a confident detection routes it, any other asks the
/// backend.
pub open spec fn after_mode(m: MessageView, mode: ChannelMode) -> (StageView, StepView) {
    if mode == ChannelMode::Off || trimmed(m.text).len() == 0 {
        finished()
    } else {
        match settled_code(statistical_detection(trimmed(m.text))) {
            Some(code) => routed(m, mode, code),
            None => (
                StageView::AwaitingDetection { mode },
                StepView::Ask(QueryView::Detection { text: trimmed(m.text) }),
            ),
        }
    }
}

/// The step once the languages subscribed to in a transparent channel are known.
pub open spec fn after_languages(m: MessageView, languages: Seq<Seq<char>>) -> (StageView, StepView) {
    let targets = without_english(languages);
    if targets.len() == 0 {
        finished()
    } else {
        (
            StageView::AwaitingPublicBatch { targets },
            StepView::Ask(QueryView::Translations { jobs: language_jobs(m.text, targets) }),
        )
    }
}

/// The step once the translations for a transparent channel are in: one
/// public reply with all that are delivered, or nothing.
pub open spec fn after_public_batch(m: MessageView, targets: Seq<Seq<char>>, outcomes: Seq<Outcome>)
    -> (StageView, StepView) {
    if outcomes.len() != targets.len() {
        aborted(DispatchError::UnexpectedAnswer)
    } else {
        let lines = batch_lines(m.text, targets, outcomes);
        if lines.len() == 0 {
            finished()
        } else {
            delivering(seq![EffectView::PublicReply { content: batch_reply(lines) }])
        }
    }
}

/// The step once the subscriptions to other languages are known.
pub open spec fn after_subscriptions(subscribers: Seq<SubscriberView>) -> (StageView, StepView) {
    let kept = foreign_subscribers(subscribers);
    if kept.len() == 0 {
        finished()
    } else {
        (
            StageView::AwaitingDialects { subscribers: kept },
            StepView::Ask(QueryView::Dialects { subscribers: kept }),
        )
    }
}

/// The step once the subscribers' dialects are known: one translation is
/// asked for each distinct pair of language and dialect.
pub open spec fn after_dialects(
    m: MessageView,
    subscribers: Seq<SubscriberView>,
    dialects: Seq<Option<Seq<char>>>,
) -> (StageView, StepView) {
    if dialects.len() != subscribers.len() {
        aborted(DispatchError::UnexpectedAnswer)
    } else {
        let groups = grouping(subscribers, dialects);
        (
            StageView::AwaitingGroupTranslations { groups },
            StepView::Ask(QueryView::Translations { jobs: group_jobs(m.text, groups) }),
        )
    }
}

/// The step once the translations for the groups are in.
pub open spec fn after_group_translations(
    m: MessageView,
    groups: Seq<GroupView>,
    outcomes: Seq<Outcome>,
) -> (StageView, StepView) {
    if outcomes.len() != groups.len() {
        aborted(DispatchError::UnexpectedAnswer)
    } else {
        let deliveries = group_deliveries(m.text, groups, outcomes);
        if deliveries.len() == 0 {
            finished()
        } else {
            (
                StageView::AwaitingChannelName { deliveries },
                StepView::Ask(QueryView::ChannelName),
            )
        }
    }
}

/// The step once the translation into English is in. A failure marks the
/// message. A translation that the anti-loop guard keeps is posted, or, in a
/// silent channel, sent to the subscribers of English.
pub open spec fn after_english(m: MessageView, mode: ChannelMode, outcomes: Seq<Outcome>) -> (
    StageView,
    StepView,
) {
    if outcomes.len() != 1 {
        aborted(DispatchError::UnexpectedAnswer)
    } else if outcomes[0] is Failed {
        delivering(seq![EffectView::FailureMarker])
    } else {
        match kept_text(m.text, outcomes[0]) {
            None => finished(),
            Some(text) => match mode {
                ChannelMode::Off => finished(),
                ChannelMode::Silent => (
                    StageView::AwaitingEnglishSubscribers { text },
                    StepView::Ask(QueryView::Subscribers { language: "en"@ }),
                ),
                _ => delivering(seq![EffectView::PublicReply { content: english_reply(text) }]),
            },
        }
    }
}

/// The step once the subscribers of English are known.
pub open spec fn after_english_subscribers(text: Seq<char>, users: Seq<Seq<char>>) -> (
    StageView,
    StepView,
) {
    if users.len() == 0 {
        finished()
    } else {
        (
            StageView::AwaitingChannelName { deliveries: seq![DeliveryView { recipients: users, text }] },
            StepView::Ask(QueryView::ChannelName),
        )
    }
}

/// The name used for a channel.
pub open spec fn channel_label(name: Option<Seq<char>>) -> Seq<char> {
    match name {
        Some(n) => n,
        None => "channel"@,
    }
}

/// The step once the channel's name is known. Where the author is among the
/// recipients, their debug flag decides and is asked for; where not, the
/// private messages go out.
pub open spec fn after_channel_name(
    m: MessageView,
    deliveries: Seq<DeliveryView>,
    name: Option<Seq<char>>,
) -> (StageView, StepView) {
    if addressed(deliveries, m.author) {
        (
            StageView::AwaitingDebug { deliveries, channel_name: channel_label(name) },
            StepView::Ask(QueryView::DebugFlag { user: m.author }),
        )
    } else {
        delivering(private_messages(deliveries, channel_label(name), m.author, m.author_name, false))
    }
}

/// The step once the author's debug flag is known.
pub open spec fn after_debug(
    m: MessageView,
    deliveries: Seq<DeliveryView>,
    channel_name: Seq<char>,
    flag: bool,
) -> (StageView, StepView) {
    delivering(private_messages(deliveries, channel_name, m.author, m.author_name, flag))
}

/// The dispatcher's transition: the stage that follows `stage` on `answer`,
/// and what the caller is to do next.
///
/// A registry that cannot be read aborts the message, whatever was asked of
/// it. An answer that does not fit the stage aborts the message as well.
pub open spec fn next(m: MessageView, stage: StageView, answer: AnswerView) -> (StageView, StepView) {
    match (stage, answer) {
        (StageView::AwaitingMode, AnswerView::Mode(mode)) => after_mode(m, mode),
        (StageView::AwaitingDetection { mode }, AnswerView::Detected(code)) => routed(m, mode, code),
        (StageView::AwaitingLanguages, AnswerView::Languages(languages)) => after_languages(
            m,
            languages,
        ),
        (
            StageView::AwaitingPublicBatch { targets },
            AnswerView::Translations(outcomes),
        ) => after_public_batch(m, targets, outcomes),
        (StageView::AwaitingSubscriptions, AnswerView::Subscriptions(subscribers)) => after_subscriptions(
            subscribers,
        ),
        (StageView::AwaitingDialects { subscribers }, AnswerView::Dialects(dialects)) => after_dialects(
            m,
            subscribers,
            dialects,
        ),
        (
            StageView::AwaitingGroupTranslations { groups },
            AnswerView::Translations(outcomes),
        ) => after_group_translations(m, groups, outcomes),
        (StageView::AwaitingEnglish { mode }, AnswerView::Translations(outcomes)) => after_english(
            m,
            mode,
            outcomes,
        ),
        (
            StageView::AwaitingEnglishSubscribers { text },
            AnswerView::Subscribers(users),
        ) => after_english_subscribers(text, users),
        (StageView::AwaitingChannelName { deliveries }, AnswerView::ChannelName(name)) => after_channel_name(
            m,
            deliveries,
            name,
        ),
        (
            StageView::AwaitingDebug { deliveries, channel_name },
            AnswerView::DebugFlag(flag),
        ) => after_debug(m, deliveries, channel_name, flag),
        (StageView::Finished, _) => aborted(DispatchError::UnexpectedAnswer),
        (_, AnswerView::Unavailable) => aborted(DispatchError::RegistryUnavailable),
        _ => aborted(DispatchError::UnexpectedAnswer),
    }
}

/// The end of a message for which nothing is delivered.
fn finish() -> (r: (Stage, Step))
    ensures
        (r.0.deep_view(), r.1.deep_view()) == finished(),
{
    let effects: Vec<Effect> = Vec::new();
    assert(effects.deep_view() =~= Seq::empty());
    (Stage::Finished, Step::Finish(effects))
}

/// The end of a message with one delivery.
fn finish_with(effect: Effect) -> (r: (Stage, Step))
    ensures
        (r.0.deep_view(), r.1.deep_view()) == delivering(seq![effect.deep_view()]),
{
    let mut effects: Vec<Effect> = Vec::new();
    effects.push(effect);
    assert(effects.deep_view() =~= seq![effect.deep_view()]);
    (Stage::Finished, Step::Finish(effects))
}

/// The end of a message that is given up.
fn abort(error: DispatchError) -> (r: (Stage, Step))
    ensures
        (r.0.deep_view(), r.1.deep_view()) == aborted(error),
{
    (Stage::Finished, Step::Abort(error))
}

/// A copy of a list of subscriptions.
fn copy_subscribers(subscribers: &Vec<Subscriber>) -> (copy: Vec<Subscriber>)
    ensures
        copy.deep_view() == subscribers.deep_view(),
{
    let mut copy: Vec<Subscriber> = Vec::new();
    let mut i: usize = 0;
    while i < subscribers.len()
        invariant
            i <= subscribers.len(),
            copy.len() == i,
            forall|k: int| 0 <= k < i ==> copy[k].deep_view() == subscribers[k].deep_view(),
        decreases subscribers.len() - i,
    {
        copy.push(
            Subscriber {
                user: subscribers[i].user.clone(),
                language: subscribers[i].language.clone(),
            },
        );
        i += 1;
    }
    assert(copy.deep_view() =~= subscribers.deep_view());
    copy
}

/// One job for each target language, from English.
fn jobs_for_languages(text: &str, targets: &Vec<String>) -> (jobs: Vec<TranslationJob>)
    ensures
        jobs.deep_view() == language_jobs(text@, targets.deep_view()),
{
    let mut jobs: Vec<TranslationJob> = Vec::new();
    let mut i: usize = 0;
    while i < targets.len()
        invariant
            i <= targets.len(),
            jobs.len() == i,
            forall|k: int|
                0 <= k < i ==> jobs[k].deep_view() == job(text@, "en"@, targets[k]@, None),
        decreases targets.len() - i,
    {
        jobs.push(
            TranslationJob {
                text: text.to_string(),
                from: "en".to_string(),
                to: targets[i].clone(),
                dialect: None,
            },
        );
        i += 1;
    }
    assert(jobs.deep_view() =~= language_jobs(text@, targets.deep_view()));
    jobs
}

/// One job for each group, from English into the group's language and dialect.
fn jobs_for_groups(text: &str, groups: &Vec<Group>) -> (jobs: Vec<TranslationJob>)
    ensures
        jobs.deep_view() == group_jobs(text@, groups.deep_view()),
{
    let mut jobs: Vec<TranslationJob> = Vec::new();
    let mut i: usize = 0;
    while i < groups.len()
        invariant
            i <= groups.len(),
            jobs.len() == i,
            forall|k: int|
                0 <= k < i ==> jobs[k].deep_view() == job(
                    text@,
                    "en"@,
                    groups[k].language@,
                    groups[k].dialect.deep_view(),
                ),
        decreases groups.len() - i,
    {
        jobs.push(
            TranslationJob {
                text: text.to_string(),
                from: "en".to_string(),
                to: groups[i].language.clone(),
                dialect: copy_optional(&groups[i].dialect),
            },
        );
        i += 1;
    }
    assert(jobs.deep_view() =~= group_jobs(text@, groups.deep_view()));
    jobs
}

/// The step once the language of the message is known.
fn route(m: &InboundMessage, mode: ChannelMode, code: &str) -> (r: (Stage, Step))
    ensures
        (r.0.deep_view(), r.1.deep_view()) == routed(m.deep_view(), mode, code@),
{
    if is_english(code) {
        if starts_with(m.text.as_str(), "/") {
            finish()
        } else {
            match mode {
                ChannelMode::Off => finish(),
                ChannelMode::Transparent => (
                    Stage::AwaitingLanguages,
                    Step::Ask(Query::SubscribedLanguages),
                ),
                _ => (Stage::AwaitingSubscriptions, Step::Ask(Query::NonEnglishSubscriptions)),
            }
        }
    } else {
        let mut jobs: Vec<TranslationJob> = Vec::new();
        jobs.push(
            TranslationJob {
                text: m.text.clone(),
                from: code.to_string(),
                to: "en".to_string(),
                dialect: None,
            },
        );
        assert(jobs.deep_view() =~= seq![job(m.text@, code@, "en"@, None)]);
        (Stage::AwaitingEnglish { mode }, Step::Ask(Query::Translations { jobs }))
    }
}

/// The step once the channel's mode is known.
fn on_mode(m: &InboundMessage, mode: ChannelMode) -> (r: (Stage, Step))
    ensures
        (r.0.deep_view(), r.1.deep_view()) == after_mode(m.deep_view(), mode),
{
    match mode {
        ChannelMode::Off => finish(),
        _ => match classify(m.text.as_str()) {
            Classification::Blank => finish(),
            Classification::Settled(result) => route(m, mode, result.code.as_str()),
            Classification::Unsure => (
                Stage::AwaitingDetection { mode },
                Step::Ask(Query::Detection { text: trim(m.text.as_str()) }),
            ),
        },
    }
}

/// The step once the languages subscribed to in a transparent channel are known.
fn on_languages(m: &InboundMessage, languages: &Vec<String>) -> (r: (Stage, Step))
    ensures
        (r.0.deep_view(), r.1.deep_view()) == after_languages(
            m.deep_view(),
            languages.deep_view(),
        ),
{
    let targets = drop_english(languages);
    if targets.len() == 0 {
        finish()
    } else {
        let jobs = jobs_for_languages(m.text.as_str(), &targets);
        (Stage::AwaitingPublicBatch { targets }, Step::Ask(Query::Translations { jobs }))
    }
}

/// The step once the translations for a transparent channel are in.
fn on_public_batch(
    m: &InboundMessage,
    targets: &Vec<String>,
    results: &Vec<Result<Translation, BackendError>>,
) -> (r: (Stage, Step))
    ensures
        (r.0.deep_view(), r.1.deep_view()) == after_public_batch(
            m.deep_view(),
            targets.deep_view(),
            outcomes_of(results@),
        ),
{
    if results.len() != targets.len() {
        abort(DispatchError::UnexpectedAnswer)
    } else {
        let lines = collect_lines(m.text.as_str(), targets, results);
        if lines.len() == 0 {
            finish()
        } else {
            finish_with(Effect::PublicReply { content: compose_batch_reply(&lines) })
        }
    }
}

/// The step once the subscriptions to other languages are known.
fn on_subscriptions(subscribers: &Vec<Subscriber>) -> (r: (Stage, Step))
    ensures
        (r.0.deep_view(), r.1.deep_view()) == after_subscriptions(subscribers.deep_view()),
{
    let kept = drop_english_subscribers(subscribers);
    if kept.len() == 0 {
        finish()
    } else {
        let asked = copy_subscribers(&kept);
        (Stage::AwaitingDialects { subscribers: kept }, Step::Ask(Query::Dialects { subscribers: asked }))
    }
}

/// The step once the subscribers' dialects are known.
fn on_dialects(m: &InboundMessage, subscribers: &Vec<Subscriber>, dialects: &Vec<Option<String>>) -> (r:
    (Stage, Step))
    ensures
        (r.0.deep_view(), r.1.deep_view()) == after_dialects(
            m.deep_view(),
            subscribers.deep_view(),
            dialects.deep_view(),
        ),
{
    if dialects.len() != subscribers.len() {
        abort(DispatchError::UnexpectedAnswer)
    } else {
        let groups = group_subscribers(subscribers, dialects);
        let jobs = jobs_for_groups(m.text.as_str(), &groups);
        (Stage::AwaitingGroupTranslations { groups }, Step::Ask(Query::Translations { jobs }))
    }
}

/// The step once the translations for the groups are in.
fn on_group_translations(
    m: &InboundMessage,
    groups: &Vec<Group>,
    results: &Vec<Result<Translation, BackendError>>,
) -> (r: (Stage, Step))
    ensures
        (r.0.deep_view(), r.1.deep_view()) == after_group_translations(
            m.deep_view(),
            groups.deep_view(),
            outcomes_of(results@),
        ),
{
    if results.len() != groups.len() {
        abort(DispatchError::UnexpectedAnswer)
    } else {
        let deliveries = collect_deliveries(m.text.as_str(), groups, results);
        if deliveries.len() == 0 {
            finish()
        } else {
            (Stage::AwaitingChannelName { deliveries }, Step::Ask(Query::ChannelName))
        }
    }
}

/// The step once the translation into English is in.
fn on_english(
    m: &InboundMessage,
    mode: ChannelMode,
    results: &Vec<Result<Translation, BackendError>>,
) -> (r: (Stage, Step))
    ensures
        (r.0.deep_view(), r.1.deep_view()) == after_english(
            m.deep_view(),
            mode,
            outcomes_of(results@),
        ),
{
    if results.len() != 1 {
        return abort(DispatchError::UnexpectedAnswer);
    }
    if results[0].is_err() {
        return finish_with(Effect::FailureMarker);
    }
    match keep_text(m.text.as_str(), &results[0]) {
        None => finish(),
        Some(text) => match mode {
            ChannelMode::Off => finish(),
            ChannelMode::Silent => (
                Stage::AwaitingEnglishSubscribers { text },
                Step::Ask(Query::Subscribers { language: "en".to_string() }),
            ),
            _ => finish_with(Effect::PublicReply { content: compose_english_reply(text.as_str()) }),
        },
    }
}

/// The step once the subscribers of English are known.
fn on_english_subscribers(text: String, users: Vec<String>) -> (r: (Stage, Step))
    ensures
        (r.0.deep_view(), r.1.deep_view()) == after_english_subscribers(text@, users.deep_view()),
{
    if users.len() == 0 {
        finish()
    } else {
        let mut deliveries: Vec<Delivery> = Vec::new();
        let delivery = Delivery { recipients: users, text };
        deliveries.push(delivery);
        assert(deliveries.deep_view() =~= seq![delivery.deep_view()]);
        (Stage::AwaitingChannelName { deliveries }, Step::Ask(Query::ChannelName))
    }
}

/// The step once the channel's name is known.
fn on_channel_name(m: &InboundMessage, deliveries: Vec<Delivery>, name: Option<String>) -> (r: (
    Stage,
    Step,
))
    ensures
        (r.0.deep_view(), r.1.deep_view()) == after_channel_name(
            m.deep_view(),
            deliveries.deep_view(),
            name.deep_view(),
        ),
{
    let channel_name = match name {
        Some(n) => n,
        None => "channel".to_string(),
    };
    if is_addressed(&deliveries, m.author.as_str()) {
        (
            Stage::AwaitingDebug { deliveries, channel_name },
            Step::Ask(Query::DebugFlag { user: m.author.clone() }),
        )
    } else {
        let effects = compose_private_messages(
            &deliveries,
            channel_name.as_str(),
            m.author.as_str(),
            m.author_name.as_str(),
            false,
        );
        (Stage::Finished, Step::Finish(effects))
    }
}

/// The step once the author's debug flag is known.
fn on_debug(m: &InboundMessage, deliveries: &Vec<Delivery>, channel_name: &str, flag: bool) -> (r: (
    Stage,
    Step,
))
    ensures
        (r.0.deep_view(), r.1.deep_view()) == after_debug(
            m.deep_view(),
            deliveries.deep_view(),
            channel_name@,
            flag,
        ),
{
    let effects = compose_private_messages(
        deliveries,
        channel_name,
        m.author.as_str(),
        m.author_name.as_str(),
        flag,
    );
    (Stage::Finished, Step::Finish(effects))
}

/// What the reads of the dialects come to: the dialect of each subscriber,
/// none where the subscriber prefers none, if every read succeeded.
pub open spec fn dialects_read<E>(reads: Seq<Result<Option<String>, E>>) -> Option<
    Seq<Option<Seq<char>>>,
>
    decreases reads.len(),
{
    if reads.len() == 0 {
        Some(Seq::empty())
    } else {
        match (dialects_read(reads.drop_last()), reads.last()) {
            (Some(before), Ok(dialect)) => Some(before.push(dialect.deep_view())),
            _ => None,
        }
    }
}

/// The answer for the dialects as they were read from the store, one read
/// for each subscriber. A single read that failed leaves the registry
/// unavailable: the message is not to go on with a guess.
pub fn dialects_answer<E>(reads: &Vec<Result<Option<String>, E>>) -> (answer: Answer)
    ensures
        answer.deep_view() == (match dialects_read(reads@) {
            Some(dialects) => AnswerView::Dialects(dialects),
            None => AnswerView::Unavailable,
        }),
{
    let mut dialects: Vec<Option<String>> = Vec::new();
    let mut i: usize = 0;
    assert(dialects.deep_view() =~= Seq::empty());
    while i < reads.len()
        invariant
            i <= reads.len(),
            dialects_read(reads@.take(i as int)) == Some(dialects.deep_view()),
        decreases reads.len() - i,
    {
        assert(reads@.take(i + 1).drop_last() =~= reads@.take(i as int));
        match &reads[i] {
            Ok(dialect) => {
                let ghost before = dialects.deep_view();
                dialects.push(copy_optional(dialect));
                assert(dialects.deep_view() =~= before.push(dialect.deep_view()));
            },
            Err(_) => {
                proof {
                    lemma_failed_read_fails_all(reads@, i as int);
                }
                return Answer::Unavailable;
            },
        }
        i += 1;
    }
    assert(reads@.take(reads.len() as int) =~= reads@);
    Answer::Dialects(dialects)
}

/// Where one read failed, the reads as a whole come to nothing.
pub proof fn lemma_failed_read_fails_all<E>(reads: Seq<Result<Option<String>, E>>, k: int)
    requires
        0 <= k < reads.len(),
        reads[k] is Err,
    ensures
        dialects_read(reads) is None,
    decreases reads.len(),
{
    if k < reads.len() - 1 {
        lemma_failed_read_fails_all(reads.drop_last(), k);
    }
}

/// The answer for a mode as the store holds it: a channel without a stored
/// mode is off, and a store that cannot be read gives no answer.
pub fn mode_answer<E>(read: Result<Option<String>, E>) -> (answer: Answer)
    ensures
        answer.deep_view() == (match read {
            Ok(stored) => AnswerView::Mode(crate::mode::stored_mode(stored.deep_view())),
            Err(_) => AnswerView::Unavailable,
        }),
{
    match read {
        Ok(Some(name)) => Answer::Mode(ChannelMode::from_stored(Some(name.as_str()))),
        Ok(None) => Answer::Mode(ChannelMode::from_stored(None)),
        Err(_) => Answer::Unavailable,
    }
}

/// Whether a stored debug flag is set: only the value 1 sets it, and a
/// user without a subscription has none.
pub open spec fn stored_debug(stored: Option<i64>) -> bool {
    stored == Some(1i64)
}

/// The answer for a debug flag as the store holds it.
pub fn debug_answer<E>(read: Result<Option<i64>, E>) -> (answer: Answer)
    ensures
        answer.deep_view() == (match read {
            Ok(stored) => AnswerView::DebugFlag(stored_debug(stored)),
            Err(_) => AnswerView::Unavailable,
        }),
{
    match read {
        Ok(Some(flag)) => Answer::DebugFlag(flag == 1),
        Ok(None) => Answer::DebugFlag(false),
        Err(_) => Answer::Unavailable,
    }
}

impl Dispatcher {
    /// Takes up a message. `served_guilds` are the guilds whose messages are handled.
    pub fn start(message: InboundMessage, served_guilds: &Vec<String>) -> (r: (Dispatcher, Step))
        ensures
            r.0.message.deep_view() == message.deep_view(),
            (r.0.stage.deep_view(), r.1.deep_view()) == opening(
                message.deep_view(),
                served_guilds.deep_view(),
            ),
    {
        let served = match &message.guild {
            Some(guild) => is_listed(served_guilds, guild.as_str()),
            None => false,
        };
        if !message.author_is_bot && served {
            (
                Dispatcher { message, stage: Stage::AwaitingMode },
                Step::Ask(Query::ChannelMode),
            )
        } else {
            let (stage, step) = finish();
            (Dispatcher { message, stage }, step)
        }
    }

    /// Takes the answer to the query that was asked last and says what is next.
    pub fn step(self, answer: Answer) -> (r: (Dispatcher, Step))
        ensures
            r.0.message.deep_view() == self.message.deep_view(),
            (r.0.stage.deep_view(), r.1.deep_view()) == next(
                self.message.deep_view(),
                self.stage.deep_view(),
                answer.deep_view(),
            ),
    {
        let Dispatcher { message, stage } = self;
        let (stage, step) = match (stage, answer) {
            (Stage::AwaitingMode, Answer::Mode(mode)) => on_mode(&message, mode),
            (Stage::AwaitingDetection { mode }, Answer::Detected(outcome)) => {
                let result = settle(outcome);
                route(&message, mode, result.code.as_str())
            },
            (Stage::AwaitingLanguages, Answer::Languages(languages)) => on_languages(
                &message,
                &languages,
            ),
            (Stage::AwaitingPublicBatch { targets }, Answer::Translations(results)) => on_public_batch(
                &message,
                &targets,
                &results,
            ),
            (Stage::AwaitingSubscriptions, Answer::Subscriptions(subscribers)) => on_subscriptions(
                &subscribers,
            ),
            (Stage::AwaitingDialects { subscribers }, Answer::Dialects(dialects)) => on_dialects(
                &message,
                &subscribers,
                &dialects,
            ),
            (
                Stage::AwaitingGroupTranslations { groups },
                Answer::Translations(results),
            ) => on_group_translations(&message, &groups, &results),
            (Stage::AwaitingEnglish { mode }, Answer::Translations(results)) => on_english(
                &message,
                mode,
                &results,
            ),
            (Stage::AwaitingEnglishSubscribers { text }, Answer::Subscribers(users)) => on_english_subscribers(
                text,
                users,
            ),
            (Stage::AwaitingChannelName { deliveries }, Answer::ChannelName(name)) => on_channel_name(
                &message,
                deliveries,
                name,
            ),
            (Stage::AwaitingDebug { deliveries, channel_name }, Answer::DebugFlag(flag)) => on_debug(
                &message,
                &deliveries,
                channel_name.as_str(),
                flag,
            ),
            (Stage::Finished, _) => abort(DispatchError::UnexpectedAnswer),
            (_, Answer::Unavailable) => abort(DispatchError::RegistryUnavailable),
            _ => abort(DispatchError::UnexpectedAnswer),
        };
        (Dispatcher { message, stage }, step)
    }

    /// Whether nothing more is to be asked.
    pub fn is_finished(&self) -> (b: bool)
        ensures
            b == (self.stage.deep_view() is Finished),
    {
        match &self.stage {
            Stage::Finished => true,
            _ => false,
        }
    }
}

} // verus!

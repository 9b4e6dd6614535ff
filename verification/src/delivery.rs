//! What is delivered, and to whom.
//!
//! The functions here turn subscriptions and translation results into the
//! texts that are posted in a channel or sent to a subscriber. They decide
//! nothing about when to ask for either: that is the dispatcher's part.

use vstd::prelude::*;
use vstd::string::StringExecFns;
use crate::antiloop::{degenerate, is_degenerate};
use crate::language::{language_name, language_name_of};
use crate::translator::{BackendError, Translation};

verus! {

/// The sign put on a message whose translation failed.
pub const FAILURE_MARKER: char = '⚠';

/// One subscription in a channel: a user, and a language they read.
#[derive(Clone, Debug)]
pub struct Subscriber {
    pub user: String,
    pub language: String,
}

/// The subscribers that share a target language and a dialect.
#[derive(Clone, Debug)]
pub struct Group {
    pub language: String,
    pub dialect: Option<String>,
    pub subscribers: Vec<String>,
}

/// A translated text and the users it is for.
#[derive(Clone, Debug)]
pub struct Delivery {
    pub recipients: Vec<String>,
    pub text: String,
}

/// Something the bot does where people can see it.
#[derive(Clone, Debug)]
pub enum Effect {
    /// Post a reply to the message in its channel.
    PublicReply { content: String },
    /// Send a private message to a user.
    PrivateMessage { user: String, content: String },
    /// Mark the message as one whose translation failed, with `FAILURE_MARKER`.
    FailureMarker,
}

/// A `Subscriber` as plain values.
pub struct SubscriberView {
    pub user: Seq<char>,
    pub language: Seq<char>,
}

/// A `Group` as plain values.
pub struct GroupView {
    pub language: Seq<char>,
    pub dialect: Option<Seq<char>>,
    pub subscribers: Seq<Seq<char>>,
}

/// A `Delivery` as plain values.
pub struct DeliveryView {
    pub recipients: Seq<Seq<char>>,
    pub text: Seq<char>,
}

/// A `Effect` as plain values.
pub enum EffectView {
    PublicReply { content: Seq<char> },
    PrivateMessage { user: Seq<char>, content: Seq<char> },
    FailureMarker,
}

/// What one request for a translation came to.
pub enum Outcome {
    /// A text to deliver.
    Text(Seq<char>),
    /// The source is already in the target language.
    Nothing,
    /// The backend failed.
    Failed,
}

impl DeepView for Subscriber {
    type V = SubscriberView;

    open spec fn deep_view(&self) -> SubscriberView {
        SubscriberView { user: self.user@, language: self.language@ }
    }
}

impl DeepView for Group {
    type V = GroupView;

    open spec fn deep_view(&self) -> GroupView {
        GroupView {
            language: self.language@,
            dialect: self.dialect.deep_view(),
            subscribers: self.subscribers.deep_view(),
        }
    }
}

impl DeepView for Delivery {
    type V = DeliveryView;

    open spec fn deep_view(&self) -> DeliveryView {
        DeliveryView { recipients: self.recipients.deep_view(), text: self.text@ }
    }
}

impl DeepView for Effect {
    type V = EffectView;

    open spec fn deep_view(&self) -> EffectView {
        match self {
            Effect::PublicReply { content } => EffectView::PublicReply { content: content@ },
            Effect::PrivateMessage { user, content } => EffectView::PrivateMessage {
                user: user@,
                content: content@,
            },
            Effect::FailureMarker => EffectView::FailureMarker,
        }
    }
}

/// What a translation result came to.
pub open spec fn outcome_of(result: Result<Translation, BackendError>) -> Outcome {
    match result {
        Ok(Translation::Text(t)) => Outcome::Text(t@),
        Ok(Translation::Unavailable(t)) => Outcome::Text(t@),
        Ok(Translation::NotNeeded) => Outcome::Nothing,
        Err(_) => Outcome::Failed,
    }
}

/// What each of a list of translation results came to.
pub open spec fn outcomes_of(results: Seq<Result<Translation, BackendError>>) -> Seq<Outcome> {
    Seq::new(results.len(), |i: int| outcome_of(results[i]))
}

/// The text that is delivered for a translation result, if any: a result
/// without text delivers nothing, and neither does a text that the anti-loop
/// guard discards.
pub open spec fn kept_text(source: Seq<char>, outcome: Outcome) -> Option<Seq<char>> {
    match outcome {
        Outcome::Text(t) => if degenerate(source, t) {
            None
        } else {
            Some(t)
        },
        _ => None,
    }
}

/// The languages among `languages` other than English, each once, in the
/// order in which they first occur.
pub open spec fn without_english(languages: Seq<Seq<char>>) -> Seq<Seq<char>>
    decreases languages.len(),
{
    if languages.len() == 0 {
        Seq::empty()
    } else {
        let before = without_english(languages.drop_last());
        if languages.last() == "en"@ || before.contains(languages.last()) {
            before
        } else {
            before.push(languages.last())
        }
    }
}

/// The subscriptions among `subscribers` to languages other than English.
pub open spec fn foreign_subscribers(subscribers: Seq<SubscriberView>) -> Seq<SubscriberView>
    decreases subscribers.len(),
{
    if subscribers.len() == 0 {
        Seq::empty()
    } else if subscribers.last().language == "en"@ {
        foreign_subscribers(subscribers.drop_last())
    } else {
        foreign_subscribers(subscribers.drop_last()).push(subscribers.last())
    }
}

/// The position of the first group for a language and dialect, if there is one.
pub open spec fn group_index(groups: Seq<GroupView>, language: Seq<char>, dialect: Option<Seq<char>>)
    -> Option<int>
    decreases groups.len(),
{
    if groups.len() == 0 {
        None
    } else {
        match group_index(groups.drop_last(), language, dialect) {
            Some(i) => Some(i),
            None => if groups.last().language == language && groups.last().dialect == dialect {
                Some(groups.len() - 1)
            } else {
                None
            },
        }
    }
}

/// `groups` with one more subscriber: at the end of the group for the
/// language and dialect, or in a new group behind the others.
pub open spec fn with_member(
    groups: Seq<GroupView>,
    language: Seq<char>,
    dialect: Option<Seq<char>>,
    user: Seq<char>,
) -> Seq<GroupView> {
    match group_index(groups, language, dialect) {
        Some(i) => groups.update(
            i,
            GroupView { language, dialect, subscribers: groups[i].subscribers.push(user) },
        ),
        None => groups.push(GroupView { language, dialect, subscribers: seq![user] }),
    }
}

/// The subscribers, grouped by target language and dialect. `dialects` holds
/// for each subscription the dialect that its user prefers for its language.
/// Groups stand in the order in which their first member occurs, and the
/// members of a group in the order of the subscriptions.
pub open spec fn grouping(subscribers: Seq<SubscriberView>, dialects: Seq<Option<Seq<char>>>) -> Seq<
    GroupView,
>
    decreases subscribers.len(),
{
    if subscribers.len() == 0 {
        Seq::empty()
    } else {
        with_member(
            grouping(subscribers.drop_last(), dialects.drop_last()),
            subscribers.last().language,
            dialects.last(),
            subscribers.last().user,
        )
    }
}

/// One line of a public reply that holds several translations.
pub open spec fn public_line(language: Seq<char>, text: Seq<char>) -> Seq<char> {
    "**"@ + language_name_of(language) + ":** "@ + text
}

/// The lines of a public reply: one for each target language whose
/// translation is delivered, in the order of the languages.
pub open spec fn batch_lines(source: Seq<char>, targets: Seq<Seq<char>>, outcomes: Seq<Outcome>) -> Seq<
    Seq<char>,
>
    decreases targets.len(),
{
    if targets.len() == 0 {
        Seq::empty()
    } else {
        let before = batch_lines(source, targets.drop_last(), outcomes.drop_last());
        match kept_text(source, outcomes.last()) {
            Some(t) => before.push(public_line(targets.last(), t)),
            None => before,
        }
    }
}

/// `lines` with `separator` between each two of them.
pub open spec fn joined(lines: Seq<Seq<char>>, separator: Seq<char>) -> Seq<char>
    decreases lines.len(),
{
    if lines.len() == 0 {
        Seq::empty()
    } else if lines.len() == 1 {
        lines[0]
    } else {
        joined(lines.drop_last(), separator) + separator + lines.last()
    }
}

/// The public reply that holds `lines`.
pub open spec fn batch_reply(lines: Seq<Seq<char>>) -> Seq<char> {
    "🌐 "@ + joined(lines, "\n"@)
}

/// The public reply that holds a translation into English.
pub open spec fn english_reply(text: Seq<char>) -> Seq<char> {
    "🌐 **Translation:** "@ + text
}

/// The private message that carries a translation.
pub open spec fn private_text(channel_name: Seq<char>, author_name: Seq<char>, text: Seq<char>) -> Seq<
    char,
> {
    "[#"@ + channel_name + "] **"@ + author_name + "** said:\n"@ + text
}

/// The deliveries for the groups whose translation is delivered, in the
/// order of the groups.
pub open spec fn group_deliveries(source: Seq<char>, groups: Seq<GroupView>, outcomes: Seq<Outcome>)
    -> Seq<DeliveryView>
    decreases groups.len(),
{
    if groups.len() == 0 {
        Seq::empty()
    } else {
        let before = group_deliveries(source, groups.drop_last(), outcomes.drop_last());
        match kept_text(source, outcomes.last()) {
            Some(t) => before.push(
                DeliveryView { recipients: groups.last().subscribers, text: t },
            ),
            None => before,
        }
    }
}

/// Whether `user` is among the recipients of one of `deliveries`.
pub open spec fn addressed(deliveries: Seq<DeliveryView>, user: Seq<char>) -> bool {
    exists|i: int| 0 <= i < deliveries.len() && (#[trigger] deliveries[i]).recipients.contains(user)
}

/// Whether `effect` is a private message to `user`.
pub open spec fn sent_to(effect: EffectView, user: Seq<char>) -> bool {
    match effect {
        EffectView::PrivateMessage { user: to, .. } => to == user,
        _ => false,
    }
}

/// The private messages for one text. The author of the source message is
/// passed over unless `author_included` holds.
pub open spec fn messages_to(
    recipients: Seq<Seq<char>>,
    content: Seq<char>,
    author: Seq<char>,
    author_included: bool,
) -> Seq<EffectView>
    decreases recipients.len(),
{
    if recipients.len() == 0 {
        Seq::empty()
    } else {
        let before = messages_to(recipients.drop_last(), content, author, author_included);
        if recipients.last() == author && !author_included {
            before
        } else {
            before.push(EffectView::PrivateMessage { user: recipients.last(), content })
        }
    }
}

/// The private messages for `deliveries`, in their order.
pub open spec fn private_messages(
    deliveries: Seq<DeliveryView>,
    channel_name: Seq<char>,
    author: Seq<char>,
    author_name: Seq<char>,
    author_included: bool,
) -> Seq<EffectView>
    decreases deliveries.len(),
{
    if deliveries.len() == 0 {
        Seq::empty()
    } else {
        private_messages(
            deliveries.drop_last(),
            channel_name,
            author,
            author_name,
            author_included,
        ) + messages_to(
            deliveries.last().recipients,
            private_text(channel_name, author_name, deliveries.last().text),
            author,
            author_included,
        )
    }
}

/// A group that is found lies in the list and has the language and dialect asked for.
pub proof fn lemma_group_index_found(
    groups: Seq<GroupView>,
    language: Seq<char>,
    dialect: Option<Seq<char>>,
)
    ensures
        group_index(groups, language, dialect) matches Some(i) ==> 0 <= i < groups.len()
            && groups[i].language == language && groups[i].dialect == dialect,
    decreases groups.len(),
{
    if groups.len() > 0 {
        lemma_group_index_found(groups.drop_last(), language, dialect);
    }
}

/// A group found among the first `n` groups is the one found among all.
pub proof fn lemma_group_index_prefix(
    groups: Seq<GroupView>,
    n: int,
    language: Seq<char>,
    dialect: Option<Seq<char>>,
)
    requires
        0 <= n <= groups.len(),
        group_index(groups.take(n), language, dialect) is Some,
    ensures
        group_index(groups, language, dialect) == group_index(groups.take(n), language, dialect),
    decreases groups.len() - n,
{
    if n == groups.len() {
        assert(groups.take(n) =~= groups);
    } else {
        assert(groups.drop_last().take(n) =~= groups.take(n));
        lemma_group_index_prefix(groups.drop_last(), n, language, dialect);
    }
}

/// A copy of an optional string.
pub fn copy_optional(text: &Option<String>) -> (copy: Option<String>)
    ensures
        copy.deep_view() == text.deep_view(),
{
    match text {
        Some(t) => Some(t.clone()),
        None => None,
    }
}

/// Whether two optional strings hold the same.
pub fn same_optional(a: &Option<String>, b: &Option<String>) -> (same: bool)
    ensures
        same == (a.deep_view() == b.deep_view()),
{
    match (a, b) {
        (Some(x), Some(y)) => x.eq(y),
        (None, None) => true,
        _ => false,
    }
}

/// Whether `user` is one of `users`.
pub fn is_listed(users: &Vec<String>, user: &str) -> (listed: bool)
    ensures
        listed == users.deep_view().contains(user@),
{
    let mut i: usize = 0;
    while i < users.len()
        invariant
            i <= users.len(),
            forall|k: int| 0 <= k < i ==> users.deep_view()[k] != user@,
        decreases users.len() - i,
    {
        if users[i].as_str().eq(user) {
            assert(users.deep_view()[i as int] == user@);
            return true;
        }
        i += 1;
    }
    false
}

/// The text that is delivered for a translation result, if any.
pub fn keep_text(source: &str, result: &Result<Translation, BackendError>) -> (kept: Option<String>)
    ensures
        kept.deep_view() == kept_text(source@, outcome_of(*result)),
{
    match result {
        Ok(Translation::Text(t)) => {
            if is_degenerate(source, t.as_str()) {
                None
            } else {
                Some(t.clone())
            }
        },
        Ok(Translation::Unavailable(t)) => {
            if is_degenerate(source, t.as_str()) {
                None
            } else {
                Some(t.clone())
            }
        },
        _ => None,
    }
}

/// The languages other than English, each once, in the order in which they
/// first occur.
pub fn drop_english(languages: &Vec<String>) -> (kept: Vec<String>)
    ensures
        kept.deep_view() == without_english(languages.deep_view()),
{
    let mut kept: Vec<String> = Vec::new();
    let ghost all = languages.deep_view();
    let mut i: usize = 0;
    while i < languages.len()
        invariant
            i <= languages.len(),
            all == languages.deep_view(),
            kept.deep_view() == without_english(all.take(i as int)),
        decreases languages.len() - i,
    {
        assert(all.take(i + 1).drop_last() =~= all.take(i as int));
        if !languages[i].as_str().eq("en") && !is_listed(&kept, languages[i].as_str()) {
            let ghost before = kept.deep_view();
            kept.push(languages[i].clone());
            assert(kept.deep_view() =~= before.push(all[i as int]));
        }
        i += 1;
    }
    assert(all.take(languages.len() as int) =~= all);
    kept
}

/// The subscriptions to languages other than English, in their order.
pub fn drop_english_subscribers(subscribers: &Vec<Subscriber>) -> (kept: Vec<Subscriber>)
    ensures
        kept.deep_view() == foreign_subscribers(subscribers.deep_view()),
{
    let mut kept: Vec<Subscriber> = Vec::new();
    let ghost all = subscribers.deep_view();
    let mut i: usize = 0;
    while i < subscribers.len()
        invariant
            i <= subscribers.len(),
            all == subscribers.deep_view(),
            kept.deep_view() == foreign_subscribers(all.take(i as int)),
        decreases subscribers.len() - i,
    {
        assert(all.take(i + 1).drop_last() =~= all.take(i as int));
        if !subscribers[i].language.as_str().eq("en") {
            let ghost before = kept.deep_view();
            kept.push(
                Subscriber {
                    user: subscribers[i].user.clone(),
                    language: subscribers[i].language.clone(),
                },
            );
            assert(kept.deep_view() =~= before.push(all[i as int]));
        }
        i += 1;
    }
    assert(all.take(subscribers.len() as int) =~= all);
    kept
}

/// Finds the group for a language and dialect.
pub fn find_group(groups: &Vec<Group>, language: &str, dialect: &Option<String>) -> (found: Option<
    usize,
>)
    ensures
        match found {
            Some(i) => group_index(groups.deep_view(), language@, dialect.deep_view()) == Some(
                i as int,
            ) && i < groups.len(),
            None => group_index(groups.deep_view(), language@, dialect.deep_view()) is None,
        },
{
    let ghost all = groups.deep_view();
    let mut i: usize = 0;
    while i < groups.len()
        invariant
            i <= groups.len(),
            all == groups.deep_view(),
            group_index(all.take(i as int), language@, dialect.deep_view()) is None,
        decreases groups.len() - i,
    {
        assert(all.take(i + 1).drop_last() =~= all.take(i as int));
        if groups[i].language.as_str().eq(language) && same_optional(&groups[i].dialect, dialect) {
            proof {
                lemma_group_index_prefix(all, i + 1, language@, dialect.deep_view());
            }
            return Some(i);
        }
        i += 1;
    }
    assert(all.take(groups.len() as int) =~= all);
    None
}

/// Adds a subscriber to the group for a language and dialect.
pub fn add_member(groups: &mut Vec<Group>, language: &str, dialect: &Option<String>, user: &str)
    ensures
        final(groups).deep_view() == with_member(
            old(groups).deep_view(),
            language@,
            dialect.deep_view(),
            user@,
        ),
{
    let ghost before = groups.deep_view();
    match find_group(groups, language, dialect) {
        Some(i) => {
            proof {
                lemma_group_index_found(before, language@, dialect.deep_view());
            }
            let mut group = groups.remove(i);
            let ghost members = group.subscribers.deep_view();
            group.subscribers.push(user.to_string());
            assert(group.subscribers.deep_view() =~= members.push(user@));
            groups.insert(i, group);
            assert(groups.deep_view() =~= with_member(
                before,
                language@,
                dialect.deep_view(),
                user@,
            ));
        },
        None => {
            let mut subscribers: Vec<String> = Vec::new();
            subscribers.push(user.to_string());
            assert(subscribers.deep_view() =~= seq![user@]);
            groups.push(
                Group { language: language.to_string(), dialect: copy_optional(dialect), subscribers },
            );
            assert(groups.deep_view() =~= with_member(
                before,
                language@,
                dialect.deep_view(),
                user@,
            ));
        },
    }
}

/// Groups subscribers by target language and dialect. `dialects` holds for
/// each subscription the dialect that its user prefers for its language.
pub(crate) fn group_subscribers(subscribers: &Vec<Subscriber>, dialects: &Vec<Option<String>>) -> (groups:
    Vec<Group>)
    requires
        subscribers.len() == dialects.len(),
    ensures
        groups.deep_view() == grouping(subscribers.deep_view(), dialects.deep_view()),
{
    let mut groups: Vec<Group> = Vec::new();
    let ghost subs = subscribers.deep_view();
    let ghost prefs = dialects.deep_view();
    let mut i: usize = 0;
    while i < subscribers.len()
        invariant
            i <= subscribers.len(),
            subscribers.len() == dialects.len(),
            subs == subscribers.deep_view(),
            prefs == dialects.deep_view(),
            groups.deep_view() == grouping(subs.take(i as int), prefs.take(i as int)),
        decreases subscribers.len() - i,
    {
        assert(subs.take(i + 1).drop_last() =~= subs.take(i as int));
        assert(prefs.take(i + 1).drop_last() =~= prefs.take(i as int));
        add_member(
            &mut groups,
            subscribers[i].language.as_str(),
            &dialects[i],
            subscribers[i].user.as_str(),
        );
        i += 1;
    }
    assert(subs.take(subscribers.len() as int) =~= subs);
    assert(prefs.take(subscribers.len() as int) =~= prefs);
    groups
}

/// Joins `lines` with `separator` between each two of them.
pub fn join(lines: &Vec<String>, separator: &str) -> (text: String)
    ensures
        text@ == joined(lines.deep_view(), separator@),
{
    let mut text = String::new();
    let ghost all = lines.deep_view();
    let mut i: usize = 0;
    while i < lines.len()
        invariant
            i <= lines.len(),
            all == lines.deep_view(),
            text@ == joined(all.take(i as int), separator@),
        decreases lines.len() - i,
    {
        assert(all.take(i + 1).drop_last() =~= all.take(i as int));
        if i > 0 {
            text.append(separator);
        } else {
            assert(Seq::<char>::empty() + all[0] =~= all[0]);
        }
        text.append(lines[i].as_str());
        i += 1;
    }
    assert(all.take(lines.len() as int) =~= all);
    text
}

/// The lines of a public reply that holds several translations.
pub(crate) fn collect_lines(
    source: &str,
    targets: &Vec<String>,
    results: &Vec<Result<Translation, BackendError>>,
) -> (lines: Vec<String>)
    requires
        targets.len() == results.len(),
    ensures
        lines.deep_view() == batch_lines(source@, targets.deep_view(), outcomes_of(results@)),
{
    let mut lines: Vec<String> = Vec::new();
    let ghost langs = targets.deep_view();
    let ghost outcomes = outcomes_of(results@);
    let mut i: usize = 0;
    while i < targets.len()
        invariant
            i <= targets.len(),
            targets.len() == results.len(),
            langs == targets.deep_view(),
            outcomes == outcomes_of(results@),
            lines.deep_view() == batch_lines(source@, langs.take(i as int), outcomes.take(i as int)),
        decreases targets.len() - i,
    {
        assert(langs.take(i + 1).drop_last() =~= langs.take(i as int));
        assert(outcomes.take(i + 1).drop_last() =~= outcomes.take(i as int));
        match keep_text(source, &results[i]) {
            Some(t) => {
                let mut line = "**".to_string();
                line.append(language_name(targets[i].as_str()));
                line.append(":** ");
                line.append(t.as_str());
                let ghost before = lines.deep_view();
                lines.push(line);
                assert(lines.deep_view() =~= before.push(public_line(langs[i as int], t@)));
            },
            None => {},
        }
        i += 1;
    }
    assert(langs.take(targets.len() as int) =~= langs);
    assert(outcomes.take(targets.len() as int) =~= outcomes);
    lines
}

/// The public reply that holds `lines`.
pub fn compose_batch_reply(lines: &Vec<String>) -> (reply: String)
    ensures
        reply@ == batch_reply(lines.deep_view()),
{
    let mut reply = "🌐 ".to_string();
    let body = join(lines, "\n");
    reply.append(body.as_str());
    reply
}

/// The public reply that holds a translation into English.
pub fn compose_english_reply(text: &str) -> (reply: String)
    ensures
        reply@ == english_reply(text@),
{
    let mut reply = "🌐 **Translation:** ".to_string();
    reply.append(text);
    reply
}

/// The private message that carries a translation.
pub fn compose_private_text(channel_name: &str, author_name: &str, text: &str) -> (content: String)
    ensures
        content@ == private_text(channel_name@, author_name@, text@),
{
    let mut content = "[#".to_string();
    content.append(channel_name);
    content.append("] **");
    content.append(author_name);
    content.append("** said:\n");
    content.append(text);
    content
}

/// A copy of a list of strings.
pub fn copy_strings(items: &Vec<String>) -> (copy: Vec<String>)
    ensures
        copy.deep_view() == items.deep_view(),
{
    let mut copy: Vec<String> = Vec::new();
    let mut i: usize = 0;
    while i < items.len()
        invariant
            i <= items.len(),
            copy.len() == i,
            forall|k: int| 0 <= k < i ==> copy[k]@ == items[k]@,
        decreases items.len() - i,
    {
        copy.push(items[i].clone());
        i += 1;
    }
    assert(copy.deep_view() =~= items.deep_view());
    copy
}

/// The deliveries for the groups whose translation is delivered.
pub(crate) fn collect_deliveries(
    source: &str,
    groups: &Vec<Group>,
    results: &Vec<Result<Translation, BackendError>>,
) -> (deliveries: Vec<Delivery>)
    requires
        groups.len() == results.len(),
    ensures
        deliveries.deep_view() == group_deliveries(
            source@,
            groups.deep_view(),
            outcomes_of(results@),
        ),
{
    let mut deliveries: Vec<Delivery> = Vec::new();
    let ghost all = groups.deep_view();
    let ghost outcomes = outcomes_of(results@);
    let mut i: usize = 0;
    while i < groups.len()
        invariant
            i <= groups.len(),
            groups.len() == results.len(),
            all == groups.deep_view(),
            outcomes == outcomes_of(results@),
            deliveries.deep_view() == group_deliveries(
                source@,
                all.take(i as int),
                outcomes.take(i as int),
            ),
        decreases groups.len() - i,
    {
        assert(all.take(i + 1).drop_last() =~= all.take(i as int));
        assert(outcomes.take(i + 1).drop_last() =~= outcomes.take(i as int));
        match keep_text(source, &results[i]) {
            Some(text) => {
                let ghost before = deliveries.deep_view();
                let delivery = Delivery { recipients: copy_strings(&groups[i].subscribers), text };
                deliveries.push(delivery);
                assert(deliveries.deep_view() =~= before.push(
                    DeliveryView { recipients: all[i as int].subscribers, text: text@ },
                ));
            },
            None => {},
        }
        i += 1;
    }
    assert(all.take(groups.len() as int) =~= all);
    assert(outcomes.take(groups.len() as int) =~= outcomes);
    deliveries
}

/// Whether `user` is among the recipients of one of `deliveries`.
pub fn is_addressed(deliveries: &Vec<Delivery>, user: &str) -> (b: bool)
    ensures
        b == addressed(deliveries.deep_view(), user@),
{
    let mut i: usize = 0;
    while i < deliveries.len()
        invariant
            i <= deliveries.len(),
            forall|k: int|
                0 <= k < i ==> !(#[trigger] deliveries.deep_view()[k]).recipients.contains(user@),
        decreases deliveries.len() - i,
    {
        if is_listed(&deliveries[i].recipients, user) {
            assert(deliveries.deep_view()[i as int].recipients.contains(user@));
            return true;
        }
        i += 1;
    }
    false
}

/// The private messages for `deliveries`. The author of the source message
/// is passed over unless `author_included` holds.
pub fn compose_private_messages(
    deliveries: &Vec<Delivery>,
    channel_name: &str,
    author: &str,
    author_name: &str,
    author_included: bool,
) -> (effects: Vec<Effect>)
    ensures
        effects.deep_view() == private_messages(
            deliveries.deep_view(),
            channel_name@,
            author@,
            author_name@,
            author_included,
        ),
{
    let mut effects: Vec<Effect> = Vec::new();
    let ghost all = deliveries.deep_view();
    let mut i: usize = 0;
    while i < deliveries.len()
        invariant
            i <= deliveries.len(),
            all == deliveries.deep_view(),
            effects.deep_view() == private_messages(
                all.take(i as int),
                channel_name@,
                author@,
                author_name@,
                author_included,
            ),
        decreases deliveries.len() - i,
    {
        assert(all.take(i + 1).drop_last() =~= all.take(i as int));
        let content = compose_private_text(channel_name, author_name, deliveries[i].text.as_str());
        let recipients = &deliveries[i].recipients;
        let ghost users = recipients.deep_view();
        let ghost done = effects.deep_view();
        let mut j: usize = 0;
        while j < recipients.len()
            invariant
                j <= recipients.len(),
                users == recipients.deep_view(),
                effects.deep_view() == done + messages_to(
                    users.take(j as int),
                    content@,
                    author@,
                    author_included,
                ),
            decreases recipients.len() - j,
        {
            assert(users.take(j + 1).drop_last() =~= users.take(j as int));
            if !recipients[j].as_str().eq(author) || author_included {
                let ghost before = effects.deep_view();
                effects.push(
                    Effect::PrivateMessage { user: recipients[j].clone(), content: content.clone() },
                );
                assert(effects.deep_view() =~= before.push(
                    EffectView::PrivateMessage { user: users[j as int], content: content@ },
                ));
            }
            j += 1;
        }
        assert(users.take(recipients.len() as int) =~= users);
        i += 1;
    }
    assert(all.take(deliveries.len() as int) =~= all);
    effects
}

} // verus!

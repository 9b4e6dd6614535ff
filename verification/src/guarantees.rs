//! What holds of the dispatcher whatever the message, the registry and the
//! backend say. Each statement here is proved from the definitions of the
//! transition and of the delivery functions.

use vstd::prelude::*;
use crate::delivery::{
    addressed, batch_lines, batch_reply, group_deliveries, group_index, grouping, kept_text,
    messages_to, private_messages, private_text, public_line, sent_to, with_member, without_english,
    DeliveryView, EffectView, GroupView, Outcome, SubscriberView,
};
use crate::dispatcher::{
    aborted, after_channel_name, after_english, after_group_translations, after_public_batch,
    delivering, finished, next, AnswerView, DispatchError, MessageView, StageView, StepView,
};
use crate::mode::ChannelMode;
use crate::text::{is_blank, lemma_trimmed_is_tight, lowercase};

verus! {

/// The dispatcher stops as soon as it has said what to deliver or has given
/// the message up, and only then: a step that asks leaves it waiting, any
/// other leaves it finished.
pub proof fn lemma_only_asking_goes_on(m: MessageView, stage: StageView, answer: AnswerView)
    ensures
        next(m, stage, answer).1 is Ask <==> !(next(m, stage, answer).0 is Finished),
{
}

/// An upper bound on the exchanges that a message still needs from a stage on.
pub open spec fn exchanges_left(stage: StageView) -> nat {
    match stage {
        StageView::AwaitingMode => 7,
        StageView::AwaitingDetection { .. } => 6,
        StageView::AwaitingLanguages => 5,
        StageView::AwaitingSubscriptions => 5,
        StageView::AwaitingDialects { .. } => 4,
        StageView::AwaitingEnglish { .. } => 4,
        StageView::AwaitingGroupTranslations { .. } => 3,
        StageView::AwaitingEnglishSubscribers { .. } => 3,
        StageView::AwaitingChannelName { .. } => 2,
        StageView::AwaitingPublicBatch { .. } => 1,
        StageView::AwaitingDebug { .. } => 1,
        StageView::Finished => 0,
    }
}

/// Every answer brings a message closer to its end: no message takes more
/// than seven exchanges, whatever the registry and the backend say.
pub proof fn lemma_every_step_makes_progress(m: MessageView, stage: StageView, answer: AnswerView)
    requires
        !(stage is Finished),
    ensures
        exchanges_left(next(m, stage, answer).0) < exchanges_left(stage),
{
}

/// Once finished, the dispatcher asks nothing and delivers nothing.
pub proof fn lemma_finished_stays_silent(m: MessageView, answer: AnswerView)
    ensures
        next(m, StageView::Finished, answer).0 is Finished,
        next(m, StageView::Finished, answer).1 is Abort,
{
}

/// In a channel whose mode is off a message ends with the answer that says
/// so: the registry is not read again, the backend is not called, and
/// nothing is delivered.
pub proof fn lemma_off_ends_message(m: MessageView)
    ensures
        next(m, StageView::AwaitingMode, AnswerView::Mode(ChannelMode::Off)) == finished(),
{
}

/// A message whose text is empty or whitespace ends once the mode is known,
/// whatever the mode: it is not classified, so the backend is not called.
pub proof fn lemma_blank_ends_message(m: MessageView, mode: ChannelMode)
    requires
        is_blank(m.text),
    ensures
        next(m, StageView::AwaitingMode, AnswerView::Mode(mode)) == finished(),
{
    lemma_trimmed_is_tight(m.text);
}

/// The anti-loop guard keeps no text that agrees with the source up to letter case.
pub proof fn lemma_echo_is_dropped(source: Seq<char>, translated: Seq<char>)
    requires
        lowercase(source) == lowercase(translated),
    ensures
        kept_text(source, Outcome::Text(translated)) is None,
{
}

/// Where no translation is kept, a public reply has no lines.
pub proof fn lemma_nothing_kept_no_lines(
    source: Seq<char>,
    targets: Seq<Seq<char>>,
    outcomes: Seq<Outcome>,
)
    requires
        targets.len() == outcomes.len(),
        forall|i: int| 0 <= i < outcomes.len() ==> kept_text(source, #[trigger] outcomes[i]) is None,
    ensures
        batch_lines(source, targets, outcomes).len() == 0,
    decreases targets.len(),
{
    if targets.len() > 0 {
        assert(outcomes.last() == outcomes[outcomes.len() - 1]);
        lemma_nothing_kept_no_lines(source, targets.drop_last(), outcomes.drop_last());
    }
}

/// Where no translation is kept, no group gets a delivery.
pub proof fn lemma_nothing_kept_no_deliveries(
    source: Seq<char>,
    groups: Seq<GroupView>,
    outcomes: Seq<Outcome>,
)
    requires
        groups.len() == outcomes.len(),
        forall|i: int| 0 <= i < outcomes.len() ==> kept_text(source, #[trigger] outcomes[i]) is None,
    ensures
        group_deliveries(source, groups, outcomes).len() == 0,
    decreases groups.len(),
{
    if groups.len() > 0 {
        assert(outcomes.last() == outcomes[outcomes.len() - 1]);
        lemma_nothing_kept_no_deliveries(source, groups.drop_last(), outcomes.drop_last());
    }
}

/// An English message whose translations all agree with it up to letter case
/// is delivered to nobody: not in a transparent channel, where the reply has
/// no lines, and not in any other, where no group gets a delivery. This
/// holds for every target language.
pub proof fn lemma_echoed_message_is_not_delivered(
    m: MessageView,
    targets: Seq<Seq<char>>,
    groups: Seq<GroupView>,
    translations: Seq<Seq<char>>,
)
    requires
        forall|i: int|
            0 <= i < translations.len() ==> lowercase(#[trigger] translations[i]) == lowercase(
                m.text,
            ),
    ensures
        targets.len() == translations.len() ==> after_public_batch(
            m,
            targets,
            Seq::new(translations.len(), |i: int| Outcome::Text(translations[i])),
        ) == finished(),
        groups.len() == translations.len() ==> after_group_translations(
            m,
            groups,
            Seq::new(translations.len(), |i: int| Outcome::Text(translations[i])),
        ) == finished(),
{
    let outcomes = Seq::new(translations.len(), |i: int| Outcome::Text(translations[i]));
    assert forall|i: int| 0 <= i < outcomes.len() implies kept_text(m.text, #[trigger] outcomes[i])
        is None by {
        assert(lowercase(translations[i]) == lowercase(m.text));
    }
    if targets.len() == translations.len() {
        lemma_nothing_kept_no_lines(m.text, targets, outcomes);
    }
    if groups.len() == translations.len() {
        lemma_nothing_kept_no_deliveries(m.text, groups, outcomes);
    }
}

/// A translation into English that agrees with the source up to letter case
/// is neither posted nor sent, in any mode.
pub proof fn lemma_echoed_english_is_not_delivered(
    m: MessageView,
    mode: ChannelMode,
    translated: Seq<char>,
)
    requires
        lowercase(translated) == lowercase(m.text),
    ensures
        after_english(m, mode, seq![Outcome::Text(translated)]) == finished(),
{
}

/// Every line of the public reply is the line of a translation that is kept.
pub proof fn lemma_every_line_is_kept(
    source: Seq<char>,
    targets: Seq<Seq<char>>,
    outcomes: Seq<Outcome>,
    k: int,
)
    requires
        targets.len() == outcomes.len(),
        0 <= k < batch_lines(source, targets, outcomes).len(),
    ensures
        exists|i: int|
            0 <= i < targets.len() && kept_text(source, #[trigger] outcomes[i]) is Some
                && batch_lines(source, targets, outcomes)[k] == public_line(
                targets[i],
                kept_text(source, outcomes[i])->0,
            ),
    decreases targets.len(),
{
    let before = batch_lines(source, targets.drop_last(), outcomes.drop_last());
    let all = batch_lines(source, targets, outcomes);
    let last = targets.len() - 1;
    assert(outcomes.last() == outcomes[last]);
    if k < before.len() {
        lemma_every_line_is_kept(source, targets.drop_last(), outcomes.drop_last(), k);
        let i = choose|i: int|
            0 <= i < targets.drop_last().len() && kept_text(
                source,
                #[trigger] outcomes.drop_last()[i],
            ) is Some && before[k] == public_line(
                targets.drop_last()[i],
                kept_text(source, outcomes.drop_last()[i])->0,
            );
        assert(outcomes[i] == outcomes.drop_last()[i]);
        assert(all[k] == before[k]);
    } else {
        assert(kept_text(source, outcomes[last]) is Some);
        assert(all[k] == public_line(targets[last], kept_text(source, outcomes[last])->0));
    }
}

/// Every private delivery carries a translation that is kept, to the
/// members of the group it was made for.
pub proof fn lemma_every_delivery_is_kept(
    source: Seq<char>,
    groups: Seq<GroupView>,
    outcomes: Seq<Outcome>,
    k: int,
)
    requires
        groups.len() == outcomes.len(),
        0 <= k < group_deliveries(source, groups, outcomes).len(),
    ensures
        exists|i: int|
            0 <= i < groups.len() && kept_text(source, #[trigger] outcomes[i]) is Some
                && group_deliveries(source, groups, outcomes)[k] == (DeliveryView {
                recipients: groups[i].subscribers,
                text: kept_text(source, outcomes[i])->0,
            }),
    decreases groups.len(),
{
    let before = group_deliveries(source, groups.drop_last(), outcomes.drop_last());
    let all = group_deliveries(source, groups, outcomes);
    let last = groups.len() - 1;
    assert(outcomes.last() == outcomes[last]);
    if k < before.len() {
        lemma_every_delivery_is_kept(source, groups.drop_last(), outcomes.drop_last(), k);
        let i = choose|i: int|
            0 <= i < groups.drop_last().len() && kept_text(
                source,
                #[trigger] outcomes.drop_last()[i],
            ) is Some && before[k] == (DeliveryView {
                recipients: groups.drop_last()[i].subscribers,
                text: kept_text(source, outcomes.drop_last()[i])->0,
            });
        assert(outcomes[i] == outcomes.drop_last()[i]);
        assert(groups[i] == groups.drop_last()[i]);
        assert(all[k] == before[k]);
    } else {
        assert(kept_text(source, outcomes[last]) is Some);
        assert(all[k] == (DeliveryView {
            recipients: groups[last].subscribers,
            text: kept_text(source, outcomes[last])->0,
        }));
    }
}

/// Every translation that is kept has its line in the public reply.
pub proof fn lemma_kept_translation_has_line(
    source: Seq<char>,
    targets: Seq<Seq<char>>,
    outcomes: Seq<Outcome>,
    i: int,
)
    requires
        targets.len() == outcomes.len(),
        0 <= i < targets.len(),
        kept_text(source, outcomes[i]) is Some,
    ensures
        batch_lines(source, targets, outcomes).contains(
            public_line(targets[i], kept_text(source, outcomes[i])->0),
        ),
    decreases targets.len(),
{
    let before = batch_lines(source, targets.drop_last(), outcomes.drop_last());
    let all = batch_lines(source, targets, outcomes);
    if i == targets.len() - 1 {
        assert(all == before.push(public_line(targets[i], kept_text(source, outcomes[i])->0)));
        assert(all[all.len() - 1] == public_line(targets[i], kept_text(source, outcomes[i])->0));
    } else {
        lemma_kept_translation_has_line(source, targets.drop_last(), outcomes.drop_last(), i);
        let line = public_line(targets[i], kept_text(source, outcomes[i])->0);
        let k = choose|k: int| 0 <= k < before.len() && before[k] == line;
        assert(all[k] == line);
    }
}

/// In a transparent channel an English message gets one public reply at the
/// most, however many languages are subscribed to. The reply holds the line
/// of every translation that is kept, and nothing is sent privately.
pub proof fn lemma_transparent_replies_once(
    m: MessageView,
    targets: Seq<Seq<char>>,
    outcomes: Seq<Outcome>,
)
    requires
        targets.len() == outcomes.len(),
    ensures
        after_public_batch(m, targets, outcomes).0 is Finished,
        after_public_batch(m, targets, outcomes).1 matches StepView::Finish(effects) && (
        effects.len() == 0 || effects == seq![
            EffectView::PublicReply { content: batch_reply(batch_lines(m.text, targets, outcomes)) },
        ]),
        forall|i: int|
            0 <= i < targets.len() && kept_text(m.text, outcomes[i]) is Some
                ==> after_public_batch(m, targets, outcomes).1 == StepView::Finish(
                seq![
                    EffectView::PublicReply {
                        content: batch_reply(batch_lines(m.text, targets, outcomes)),
                    },
                ],
            ) && batch_lines(m.text, targets, outcomes).contains(
                public_line(targets[i], kept_text(m.text, outcomes[i])->0),
            ),
{
    assert forall|i: int|
        0 <= i < targets.len() && kept_text(m.text, outcomes[i]) is Some implies batch_lines(
        m.text,
        targets,
        outcomes,
    ).contains(public_line(targets[i], kept_text(m.text, outcomes[i])->0)) by {
        lemma_kept_translation_has_line(m.text, targets, outcomes, i);
    }
}

/// Without the author's consent no private message goes to the author.
pub proof fn lemma_messages_pass_author_over(
    recipients: Seq<Seq<char>>,
    content: Seq<char>,
    author: Seq<char>,
)
    ensures
        forall|k: int|
            0 <= k < messages_to(recipients, content, author, false).len() ==> !sent_to(
                #[trigger] messages_to(recipients, content, author, false)[k],
                author,
            ),
    decreases recipients.len(),
{
    if recipients.len() > 0 {
        lemma_messages_pass_author_over(recipients.drop_last(), content, author);
        let all = messages_to(recipients, content, author, false);
        let before = messages_to(recipients.drop_last(), content, author, false);
        assert forall|k: int| 0 <= k < all.len() implies !sent_to(#[trigger] all[k], author) by {
            if k < before.len() {
                assert(all[k] == before[k]);
            }
        }
    }
}

/// With the author's consent every recipient gets the message, the author too.
pub proof fn lemma_messages_reach_everyone(
    recipients: Seq<Seq<char>>,
    content: Seq<char>,
    author: Seq<char>,
    user: Seq<char>,
)
    requires
        recipients.contains(user),
    ensures
        messages_to(recipients, content, author, true).contains(
            EffectView::PrivateMessage { user, content },
        ),
    decreases recipients.len(),
{
    let all = messages_to(recipients, content, author, true);
    let before = messages_to(recipients.drop_last(), content, author, true);
    assert(all == before.push(EffectView::PrivateMessage { user: recipients.last(), content }));
    if recipients.last() == user {
        assert(all[all.len() - 1] == EffectView::PrivateMessage { user, content });
    } else {
        let at = choose|at: int| 0 <= at < recipients.len() && recipients[at] == user;
        assert(recipients.drop_last()[at] == user);
        lemma_messages_reach_everyone(recipients.drop_last(), content, author, user);
        let k = choose|k: int|
            0 <= k < before.len() && before[k] == EffectView::PrivateMessage { user, content };
        assert(all[k] == EffectView::PrivateMessage { user, content });
    }
}

/// A subscriber who has not switched debugging on is never sent a
/// translation of their own message.
pub proof fn lemma_author_without_debug_gets_nothing(
    deliveries: Seq<DeliveryView>,
    channel_name: Seq<char>,
    author: Seq<char>,
    author_name: Seq<char>,
)
    ensures
        forall|k: int|
            0 <= k < private_messages(deliveries, channel_name, author, author_name, false).len()
                ==> !sent_to(
                #[trigger] private_messages(deliveries, channel_name, author, author_name, false)[k],
                author,
            ),
    decreases deliveries.len(),
{
    if deliveries.len() > 0 {
        lemma_author_without_debug_gets_nothing(
            deliveries.drop_last(),
            channel_name,
            author,
            author_name,
        );
        lemma_messages_pass_author_over(
            deliveries.last().recipients,
            private_text(channel_name, author_name, deliveries.last().text),
            author,
        );
        let all = private_messages(deliveries, channel_name, author, author_name, false);
        let before = private_messages(
            deliveries.drop_last(),
            channel_name,
            author,
            author_name,
            false,
        );
        let tail = messages_to(
            deliveries.last().recipients,
            private_text(channel_name, author_name, deliveries.last().text),
            author,
            false,
        );
        assert(all == before + tail);
        assert forall|k: int| 0 <= k < all.len() implies !sent_to(#[trigger] all[k], author) by {
            if k < before.len() {
                assert(all[k] == before[k]);
            } else {
                assert(all[k] == tail[k - before.len()]);
            }
        }
    }
}

/// A subscriber who has switched debugging on is sent every translation of
/// their own message that goes to a group they belong to.
pub proof fn lemma_author_with_debug_gets_translation(
    deliveries: Seq<DeliveryView>,
    channel_name: Seq<char>,
    author: Seq<char>,
    author_name: Seq<char>,
    i: int,
)
    requires
        0 <= i < deliveries.len(),
        deliveries[i].recipients.contains(author),
    ensures
        private_messages(deliveries, channel_name, author, author_name, true).contains(
            EffectView::PrivateMessage {
                user: author,
                content: private_text(channel_name, author_name, deliveries[i].text),
            },
        ),
    decreases deliveries.len(),
{
    let all = private_messages(deliveries, channel_name, author, author_name, true);
    let before = private_messages(deliveries.drop_last(), channel_name, author, author_name, true);
    let tail = messages_to(
        deliveries.last().recipients,
        private_text(channel_name, author_name, deliveries.last().text),
        author,
        true,
    );
    let wanted = EffectView::PrivateMessage {
        user: author,
        content: private_text(channel_name, author_name, deliveries[i].text),
    };
    assert(all == before + tail);
    if i == deliveries.len() - 1 {
        lemma_messages_reach_everyone(
            deliveries.last().recipients,
            private_text(channel_name, author_name, deliveries.last().text),
            author,
            author,
        );
        let k = choose|k: int| 0 <= k < tail.len() && tail[k] == wanted;
        assert(all[before.len() + k] == wanted);
    } else {
        lemma_author_with_debug_gets_translation(
            deliveries.drop_last(),
            channel_name,
            author,
            author_name,
            i,
        );
        let k = choose|k: int| 0 <= k < before.len() && before[k] == wanted;
        assert(all[k] == wanted);
    }
}

/// The two statements above, of the dispatcher: with the author's debug flag
/// off, what is delivered holds no message to the author; with the flag on
/// it holds one for every delivery that lists the author.
pub proof fn lemma_debug_flag_decides(
    m: MessageView,
    deliveries: Seq<DeliveryView>,
    channel_name: Seq<char>,
    i: int,
)
    requires
        0 <= i < deliveries.len(),
        deliveries[i].recipients.contains(m.author),
    ensures
        next(
            m,
            StageView::AwaitingDebug { deliveries, channel_name },
            AnswerView::DebugFlag(false),
        ) == delivering(private_messages(deliveries, channel_name, m.author, m.author_name, false)),
        !private_messages(deliveries, channel_name, m.author, m.author_name, false).contains(
            EffectView::PrivateMessage {
                user: m.author,
                content: private_text(channel_name, m.author_name, deliveries[i].text),
            },
        ),
        next(
            m,
            StageView::AwaitingDebug { deliveries, channel_name },
            AnswerView::DebugFlag(true),
        ) == delivering(private_messages(deliveries, channel_name, m.author, m.author_name, true)),
        private_messages(deliveries, channel_name, m.author, m.author_name, true).contains(
            EffectView::PrivateMessage {
                user: m.author,
                content: private_text(channel_name, m.author_name, deliveries[i].text),
            },
        ),
{
    lemma_author_without_debug_gets_nothing(deliveries, channel_name, m.author, m.author_name);
    lemma_author_with_debug_gets_translation(deliveries, channel_name, m.author, m.author_name, i);
}

/// A registry that cannot be read ends the message where it stands, at
/// every stage and whatever was asked of the registry: nothing more is
/// asked, nothing is posted and nothing is sent.
pub proof fn lemma_unreadable_registry_aborts(m: MessageView, stage: StageView)
    requires
        !(stage is Finished),
    ensures
        next(m, stage, AnswerView::Unavailable) == aborted(DispatchError::RegistryUnavailable),
{
}

/// Where the author is among the recipients, nothing is sent before the
/// author's debug flag was asked for.
pub proof fn lemma_author_is_asked_about(
    m: MessageView,
    deliveries: Seq<DeliveryView>,
    name: Option<Seq<char>>,
)
    requires
        addressed(deliveries, m.author),
    ensures
        after_channel_name(m, deliveries, name).1 is Ask,
{
}

/// No two of the groups are for the same language and dialect.
pub open spec fn distinct_groups(groups: Seq<GroupView>) -> bool {
    forall|i: int, j: int|
        0 <= i < j < groups.len() ==> !((#[trigger] groups[i]).language == (
        #[trigger] groups[j]).language && groups[i].dialect == groups[j].dialect)
}

/// Where no group is found for a language and dialect, there is none.
pub proof fn lemma_group_index_none(
    groups: Seq<GroupView>,
    language: Seq<char>,
    dialect: Option<Seq<char>>,
)
    requires
        group_index(groups, language, dialect) is None,
    ensures
        forall|i: int|
            0 <= i < groups.len() ==> !((#[trigger] groups[i]).language == language
                && groups[i].dialect == dialect),
    decreases groups.len(),
{
    if groups.len() > 0 {
        lemma_group_index_none(groups.drop_last(), language, dialect);
        assert forall|i: int| 0 <= i < groups.len() implies !((#[trigger] groups[i]).language
            == language && groups[i].dialect == dialect) by {
            if i < groups.len() - 1 {
                assert(groups.drop_last()[i] == groups[i]);
            }
        }
    }
}

/// The private path asks for one translation for each pair of language and
/// dialect that is subscribed to: no two groups are for the same pair.
pub proof fn lemma_one_group_for_each_pair(
    subscribers: Seq<SubscriberView>,
    dialects: Seq<Option<Seq<char>>>,
)
    requires
        subscribers.len() == dialects.len(),
    ensures
        distinct_groups(grouping(subscribers, dialects)),
    decreases subscribers.len(),
{
    if subscribers.len() > 0 {
        let before = grouping(subscribers.drop_last(), dialects.drop_last());
        let language = subscribers.last().language;
        let dialect = dialects.last();
        let after = grouping(subscribers, dialects);
        lemma_one_group_for_each_pair(subscribers.drop_last(), dialects.drop_last());
        crate::delivery::lemma_group_index_found(before, language, dialect);
        assert(after == with_member(before, language, dialect, subscribers.last().user));
        match group_index(before, language, dialect) {
            Some(at) => {
                assert forall|i: int, j: int| 0 <= i < j < after.len() implies !((
                #[trigger] after[i]).language == (#[trigger] after[j]).language && after[i].dialect
                    == after[j].dialect) by {
                    assert(after[i].language == before[i].language);
                    assert(after[i].dialect == before[i].dialect);
                    assert(after[j].language == before[j].language);
                    assert(after[j].dialect == before[j].dialect);
                }
            },
            None => {
                lemma_group_index_none(before, language, dialect);
                assert forall|i: int, j: int| 0 <= i < j < after.len() implies !((
                #[trigger] after[i]).language == (#[trigger] after[j]).language && after[i].dialect
                    == after[j].dialect) by {
                    assert(after[i] == before[i]);
                    if j < before.len() {
                        assert(after[j] == before[j]);
                    }
                }
            },
        }
    }
}

/// Every subscriber is a member of the group for their language and dialect.
pub proof fn lemma_every_subscriber_is_grouped(
    subscribers: Seq<SubscriberView>,
    dialects: Seq<Option<Seq<char>>>,
    k: int,
)
    requires
        subscribers.len() == dialects.len(),
        0 <= k < subscribers.len(),
    ensures
        group_index(grouping(subscribers, dialects), subscribers[k].language, dialects[k])
            matches Some(at) && 0 <= at < grouping(subscribers, dialects).len() && grouping(
            subscribers,
            dialects,
        )[at].subscribers.contains(subscribers[k].user),
    decreases subscribers.len(),
{
    let before = grouping(subscribers.drop_last(), dialects.drop_last());
    let language = subscribers.last().language;
    let dialect = dialects.last();
    let user = subscribers.last().user;
    let after = grouping(subscribers, dialects);
    assert(after == with_member(before, language, dialect, user));
    crate::delivery::lemma_group_index_found(before, language, dialect);
    if k == subscribers.len() - 1 {
        match group_index(before, language, dialect) {
            Some(at) => {
                lemma_group_index_kept(before, after, language, dialect);
                let members = after[at].subscribers;
                assert(members[members.len() - 1] == user);
            },
            None => {
                lemma_group_index_none(before, language, dialect);
                lemma_group_index_of_new(before, language, dialect, user);
                let members = after[before.len() as int].subscribers;
                assert(members[0] == user);
            },
        }
    } else {
        lemma_every_subscriber_is_grouped(subscribers.drop_last(), dialects.drop_last(), k);
        assert(subscribers.drop_last()[k] == subscribers[k]);
        assert(dialects.drop_last()[k] == dialects[k]);
        let wanted_language = subscribers[k].language;
        let wanted_dialect = dialects[k];
        let at = group_index(before, wanted_language, wanted_dialect)->0;
        crate::delivery::lemma_group_index_found(before, wanted_language, wanted_dialect);
        let found = choose|i: int|
            0 <= i < before[at].subscribers.len() && before[at].subscribers[i] == subscribers[k].user;
        match group_index(before, language, dialect) {
            Some(changed) => {
                lemma_group_index_kept(before, after, wanted_language, wanted_dialect);
                assert(after[at].subscribers[found] == subscribers[k].user);
            },
            None => {
                assert(after.drop_last() =~= before);
                assert(after[at] == before[at]);
            },
        }
    }
}

/// Groups that agree in their languages and dialects are found alike.
pub proof fn lemma_group_index_kept(
    before: Seq<GroupView>,
    after: Seq<GroupView>,
    language: Seq<char>,
    dialect: Option<Seq<char>>,
)
    requires
        before.len() == after.len(),
        forall|i: int|
            0 <= i < before.len() ==> (#[trigger] before[i]).language == after[i].language
                && before[i].dialect == after[i].dialect,
    ensures
        group_index(after, language, dialect) == group_index(before, language, dialect),
    decreases before.len(),
{
    if before.len() > 0 {
        assert forall|i: int| 0 <= i < before.drop_last().len() implies (
        #[trigger] before.drop_last()[i]).language == after.drop_last()[i].language
            && before.drop_last()[i].dialect == after.drop_last()[i].dialect by {
            assert(before.drop_last()[i] == before[i]);
            assert(after.drop_last()[i] == after[i]);
        }
        lemma_group_index_kept(before.drop_last(), after.drop_last(), language, dialect);
        assert(before.last() == before[before.len() - 1]);
    }
}

/// A group that is added for a language and dialect is found for them.
pub proof fn lemma_group_index_of_new(
    groups: Seq<GroupView>,
    language: Seq<char>,
    dialect: Option<Seq<char>>,
    user: Seq<char>,
)
    requires
        group_index(groups, language, dialect) is None,
    ensures
        group_index(
            groups.push(GroupView { language, dialect, subscribers: seq![user] }),
            language,
            dialect,
        ) == Some(groups.len() as int),
{
    let grown = groups.push(GroupView { language, dialect, subscribers: seq![user] });
    assert(grown.drop_last() =~= groups);
}

/// In a transparent channel one translation is asked for each language that
/// is subscribed to, English left out: no target occurs twice, and none is
/// English.
pub proof fn lemma_one_target_for_each_language(languages: Seq<Seq<char>>)
    ensures
        forall|i: int, j: int|
            0 <= i < j < without_english(languages).len() ==> without_english(languages)[i]
                != without_english(languages)[j],
        forall|i: int|
            0 <= i < without_english(languages).len() ==> #[trigger] without_english(languages)[i]
                != "en"@,
    decreases languages.len(),
{
    if languages.len() > 0 {
        lemma_one_target_for_each_language(languages.drop_last());
        let before = without_english(languages.drop_last());
        let after = without_english(languages);
        if after.len() > before.len() {
            assert(after == before.push(languages.last()));
            assert forall|i: int, j: int| 0 <= i < j < after.len() implies after[i] != after[j] by {
                if j == before.len() {
                    assert(before[i] == after[i]);
                    assert(!before.contains(languages.last()));
                }
            }
        }
    }
}

} // verus!

//! The subscription and dialect registry, kept in memory.
//!
//! The registry records what the pipeline reads for every message: the mode
//! of each channel, who subscribed to which language where, the dialect each
//! user prefers for a language, and the message last shown to a user who
//! caught up on a channel. Each record stands under a key of its own, so no
//! operation touches more than one key's records.

use vstd::prelude::*;
use crate::delivery::Subscriber;
use crate::dispatcher::{Answer, AnswerView, Query, QueryView};
use crate::mode::ChannelMode;

verus! {

/// Values under keys made of strings. Writing under a key replaces what
/// stood there: the last write wins.
pub struct KeyedStore<V> {
    entries: Vec<(Vec<String>, V)>,
}

/// The map that a list of entries stands for. A later entry hides an
/// earlier one with the same key.
pub open spec fn entries_map<V>(entries: Seq<(Vec<String>, V)>) -> Map<Seq<Seq<char>>, V>
    decreases entries.len(),
{
    if entries.len() == 0 {
        Map::empty()
    } else {
        entries_map(entries.drop_last()).insert(entries.last().0.deep_view(), entries.last().1)
    }
}

/// The key made of the given parts.
pub open spec fn key_of(parts: Seq<&str>) -> Seq<Seq<char>> {
    Seq::new(parts.len(), |i: int| parts[i]@)
}

impl<V> View for KeyedStore<V> {
    type V = Map<Seq<Seq<char>>, V>;

    closed spec fn view(&self) -> Map<Seq<Seq<char>>, V> {
        entries_map(self.entries@)
    }
}

/// Whether the stored key holds the given parts.
fn key_matches(stored: &Vec<String>, parts: &[&str]) -> (b: bool)
    ensures
        b == (stored.deep_view() == key_of(parts@)),
{
    if stored.len() != parts.len() {
        assert(stored.deep_view().len() != key_of(parts@).len());
        return false;
    }
    let mut i: usize = 0;
    while i < stored.len()
        invariant
            i <= stored.len(),
            stored.len() == parts.len(),
            forall|k: int| 0 <= k < i ==> stored[k]@ == parts[k]@,
        decreases stored.len() - i,
    {
        if !stored[i].as_str().eq(parts[i]) {
            assert(stored.deep_view()[i as int] != key_of(parts@)[i as int]);
            return false;
        }
        i += 1;
    }
    assert(stored.deep_view() =~= key_of(parts@));
    true
}

/// The stored form of a key.
fn make_key(parts: &[&str]) -> (key: Vec<String>)
    ensures
        key.deep_view() == key_of(parts@),
{
    let mut key: Vec<String> = Vec::new();
    let mut i: usize = 0;
    while i < parts.len()
        invariant
            i <= parts.len(),
            key.len() == i,
            forall|k: int| 0 <= k < i ==> key[k]@ == parts[k]@,
        decreases parts.len() - i,
    {
        key.push(parts[i].to_string());
        i += 1;
    }
    assert(key.deep_view() =~= key_of(parts@));
    key
}

impl<V> KeyedStore<V> {
    /// A store that holds nothing.
    pub fn new() -> (store: Self)
        ensures
            store@ == Map::<Seq<Seq<char>>, V>::empty(),
    {
        KeyedStore { entries: Vec::new() }
    }

    /// The value under the key, if there is one.
    pub fn get(&self, parts: &[&str]) -> (value: Option<&V>)
        ensures
            match value {
                Some(v) => self@.dom().contains(key_of(parts@)) && self@[key_of(parts@)] == *v,
                None => !self@.dom().contains(key_of(parts@)),
            },
    {
        let ghost key = key_of(parts@);
        let mut i: usize = self.entries.len();
        assert(self.entries@.take(self.entries.len() as int) =~= self.entries@);
        while i > 0
            invariant
                i <= self.entries.len(),
                key == key_of(parts@),
                self@.dom().contains(key) == entries_map(self.entries@.take(i as int)).dom().contains(
                    key,
                ),
                self@.dom().contains(key) ==> self@[key] == entries_map(
                    self.entries@.take(i as int),
                )[key],
            decreases i,
        {
            assert(self.entries@.take(i as int).drop_last() =~= self.entries@.take(i - 1));
            i -= 1;
            if key_matches(&self.entries[i].0, parts) {
                return Some(&self.entries[i].1);
            }
        }
        None
    }

    /// Removes what stands under the key.
    pub fn remove(&mut self, parts: &[&str])
        ensures
            final(self)@ == old(self)@.remove(key_of(parts@)),
    {
        let ghost key = key_of(parts@);
        let ghost before = self.entries@;
        let mut kept: Vec<(Vec<String>, V)> = Vec::new();
        let mut rest: Vec<(Vec<String>, V)> = Vec::new();
        core::mem::swap(&mut self.entries, &mut rest);
        // entries are taken from the end of `rest` and come out reversed
        let mut reversed: Vec<(Vec<String>, V)> = Vec::new();
        while rest.len() > 0
            invariant
                rest@.len() + reversed@.len() == before.len(),
                rest@ == before.take(rest@.len() as int),
                forall|k: int|
                    0 <= k < reversed@.len() ==> reversed@[k] == before[before.len() - 1 - k],
            decreases rest.len(),
        {
            let entry = rest.pop().unwrap();
            reversed.push(entry);
        }
        while reversed.len() > 0
            invariant
                key == key_of(parts@),
                reversed@.len() <= before.len(),
                forall|k: int|
                    0 <= k < reversed@.len() ==> reversed@[k] == before[before.len() - 1 - k],
                entries_map(kept@) == entries_map(
                    before.take(before.len() - reversed@.len()),
                ).remove(key),
            decreases reversed.len(),
        {
            let ghost n = before.len() - reversed@.len();
            assert(before.take(n + 1).drop_last() =~= before.take(n));
            let entry = reversed.pop().unwrap();
            assert(entry == before[n]);
            if !key_matches(&entry.0, parts) {
                let ghost prior = kept@;
                kept.push(entry);
                assert(kept@.drop_last() =~= prior);
                assert(entries_map(kept@) =~= entries_map(before.take(n + 1)).remove(key));
            } else {
                assert(entries_map(kept@) =~= entries_map(before.take(n + 1)).remove(key));
            }
        }
        assert(before.take(before.len() as int) =~= before);
        self.entries = kept;
    }

    /// Puts `value` under the key, in place of what stood there.
    pub fn put(&mut self, parts: &[&str], value: V)
        ensures
            final(self)@ == old(self)@.insert(key_of(parts@), value),
    {
        self.remove(parts);
        let ghost cleared = self.entries@;
        let key = make_key(parts);
        self.entries.push((key, value));
        assert(self.entries@.drop_last() =~= cleared);
        assert(self@ =~= old(self)@.insert(key_of(parts@), value));
    }
}

/// One subscription: a user reads a language in a channel of a guild.
#[derive(Clone, Debug)]
pub struct SubscriptionRecord {
    pub guild: String,
    pub channel: String,
    pub user: String,
    pub language: String,
    /// When the subscription was made, in seconds since the Unix epoch.
    pub created_at: i64,
    /// Whether the user is sent translations of their own messages.
    pub debug: bool,
}

/// A `SubscriptionRecord` as plain values.
pub struct SubscriptionView {
    pub guild: Seq<char>,
    pub channel: Seq<char>,
    pub user: Seq<char>,
    pub language: Seq<char>,
    pub created_at: i64,
    pub debug: bool,
}

impl DeepView for SubscriptionRecord {
    type V = SubscriptionView;

    open spec fn deep_view(&self) -> SubscriptionView {
        SubscriptionView {
            guild: self.guild@,
            channel: self.channel@,
            user: self.user@,
            language: self.language@,
            created_at: self.created_at,
            debug: self.debug,
        }
    }
}

/// The registry.
pub struct Registry {
    modes: KeyedStore<ChannelMode>,
    dialects: KeyedStore<String>,
    cursors: KeyedStore<u64>,
    subscriptions: Vec<SubscriptionRecord>,
}

/// What a registry holds.
pub struct RegistryView {
    /// The mode of each channel for which one was set, under guild and channel.
    pub modes: Map<Seq<Seq<char>>, ChannelMode>,
    /// The dialect preferences, under user and language.
    pub dialects: Map<Seq<Seq<char>>, Seq<char>>,
    /// The message last shown, under guild, channel and user.
    pub cursors: Map<Seq<Seq<char>>, u64>,
    /// The subscriptions, in the order in which they were made.
    pub subscriptions: Seq<SubscriptionView>,
}

impl View for Registry {
    type V = RegistryView;

    closed spec fn view(&self) -> RegistryView {
        RegistryView {
            modes: self.modes@,
            dialects: self.dialects@.map_values(|d: String| d@),
            cursors: self.cursors@,
            subscriptions: self.subscriptions.deep_view(),
        }
    }
}

/// Whether a subscription is that of `user` to `language` in the channel.
pub open spec fn is_subscription(
    s: SubscriptionView,
    guild: Seq<char>,
    channel: Seq<char>,
    user: Seq<char>,
    language: Seq<char>,
) -> bool {
    s.guild == guild && s.channel == channel && s.user == user && s.language == language
}

/// Whether a subscription is one of `user` in the channel.
pub open spec fn is_of_user(s: SubscriptionView, guild: Seq<char>, channel: Seq<char>, user: Seq<char>)
    -> bool {
    s.guild == guild && s.channel == channel && s.user == user
}

/// Whether a subscription is one in the channel.
pub open spec fn is_in_channel(s: SubscriptionView, guild: Seq<char>, channel: Seq<char>) -> bool {
    s.guild == guild && s.channel == channel
}

/// Whether `user` is subscribed to `language` in the channel.
pub open spec fn subscribed(
    subs: Seq<SubscriptionView>,
    guild: Seq<char>,
    channel: Seq<char>,
    user: Seq<char>,
    language: Seq<char>,
) -> bool
    decreases subs.len(),
{
    if subs.len() == 0 {
        false
    } else {
        is_subscription(subs.last(), guild, channel, user, language) || subscribed(
            subs.drop_last(),
            guild,
            channel,
            user,
            language,
        )
    }
}

/// No subscription occurs twice.
pub open spec fn distinct_subscriptions(subs: Seq<SubscriptionView>) -> bool
    decreases subs.len(),
{
    if subs.len() == 0 {
        true
    } else {
        distinct_subscriptions(subs.drop_last()) && !subscribed(
            subs.drop_last(),
            subs.last().guild,
            subs.last().channel,
            subs.last().user,
            subs.last().language,
        )
    }
}

/// The subscriptions but that of `user` to `language` in the channel.
pub open spec fn without_subscription(
    subs: Seq<SubscriptionView>,
    guild: Seq<char>,
    channel: Seq<char>,
    user: Seq<char>,
    language: Seq<char>,
) -> Seq<SubscriptionView>
    decreases subs.len(),
{
    if subs.len() == 0 {
        Seq::empty()
    } else if is_subscription(subs.last(), guild, channel, user, language) {
        without_subscription(subs.drop_last(), guild, channel, user, language)
    } else {
        without_subscription(subs.drop_last(), guild, channel, user, language).push(subs.last())
    }
}

/// The subscriptions but those of `user` in the channel.
pub open spec fn without_user(
    subs: Seq<SubscriptionView>,
    guild: Seq<char>,
    channel: Seq<char>,
    user: Seq<char>,
) -> Seq<SubscriptionView>
    decreases subs.len(),
{
    if subs.len() == 0 {
        Seq::empty()
    } else if is_of_user(subs.last(), guild, channel, user) {
        without_user(subs.drop_last(), guild, channel, user)
    } else {
        without_user(subs.drop_last(), guild, channel, user).push(subs.last())
    }
}

/// The subscriptions, with the debug flag of those of `user` in the channel set to `flag`.
pub open spec fn with_debug(
    subs: Seq<SubscriptionView>,
    guild: Seq<char>,
    channel: Seq<char>,
    user: Seq<char>,
    flag: bool,
) -> Seq<SubscriptionView> {
    Seq::new(
        subs.len(),
        |i: int|
            if is_of_user(subs[i], guild, channel, user) {
                SubscriptionView { debug: flag, ..subs[i] }
            } else {
                subs[i]
            },
    )
}

/// The languages that `user` reads in the channel.
pub open spec fn languages_of(
    subs: Seq<SubscriptionView>,
    guild: Seq<char>,
    channel: Seq<char>,
    user: Seq<char>,
) -> Seq<Seq<char>>
    decreases subs.len(),
{
    if subs.len() == 0 {
        Seq::empty()
    } else if is_of_user(subs.last(), guild, channel, user) {
        languages_of(subs.drop_last(), guild, channel, user).push(subs.last().language)
    } else {
        languages_of(subs.drop_last(), guild, channel, user)
    }
}

/// The users who read `language` in the channel.
pub open spec fn readers_of(
    subs: Seq<SubscriptionView>,
    guild: Seq<char>,
    channel: Seq<char>,
    language: Seq<char>,
) -> Seq<Seq<char>>
    decreases subs.len(),
{
    if subs.len() == 0 {
        Seq::empty()
    } else if is_in_channel(subs.last(), guild, channel) && subs.last().language == language {
        readers_of(subs.drop_last(), guild, channel, language).push(subs.last().user)
    } else {
        readers_of(subs.drop_last(), guild, channel, language)
    }
}

/// The subscriptions in the channel to languages other than English.
pub open spec fn foreign_in(subs: Seq<SubscriptionView>, guild: Seq<char>, channel: Seq<char>) -> Seq<
    crate::delivery::SubscriberView,
>
    decreases subs.len(),
{
    if subs.len() == 0 {
        Seq::empty()
    } else if is_in_channel(subs.last(), guild, channel) && subs.last().language != "en"@ {
        foreign_in(subs.drop_last(), guild, channel).push(
            crate::delivery::SubscriberView {
                user: subs.last().user,
                language: subs.last().language,
            },
        )
    } else {
        foreign_in(subs.drop_last(), guild, channel)
    }
}

/// The languages read in the channel, each once, in the order in which they
/// were first subscribed to.
pub open spec fn languages_in(subs: Seq<SubscriptionView>, guild: Seq<char>, channel: Seq<char>) -> Seq<
    Seq<char>,
>
    decreases subs.len(),
{
    if subs.len() == 0 {
        Seq::empty()
    } else {
        let before = languages_in(subs.drop_last(), guild, channel);
        if is_in_channel(subs.last(), guild, channel) && !before.contains(subs.last().language) {
            before.push(subs.last().language)
        } else {
            before
        }
    }
}

/// The debug flag of `user` in the channel: that of the user's first
/// subscription there, and off where there is none.
pub open spec fn debug_of(
    subs: Seq<SubscriptionView>,
    guild: Seq<char>,
    channel: Seq<char>,
    user: Seq<char>,
) -> bool
    decreases subs.len(),
{
    if subs.len() == 0 {
        false
    } else if is_of_user(subs[0], guild, channel, user) {
        subs[0].debug
    } else {
        debug_of(subs.drop_first(), guild, channel, user)
    }
}

/// When `user` subscribed to `language` in the channel, if the user did.
pub open spec fn created_of(
    subs: Seq<SubscriptionView>,
    guild: Seq<char>,
    channel: Seq<char>,
    user: Seq<char>,
    language: Seq<char>,
) -> Option<i64>
    decreases subs.len(),
{
    if subs.len() == 0 {
        None
    } else if is_subscription(subs[0], guild, channel, user, language) {
        Some(subs[0].created_at)
    } else {
        created_of(subs.drop_first(), guild, channel, user, language)
    }
}

impl RegistryView {
    /// The mode of a channel. A channel for which none was set is off.
    pub open spec fn mode(self, guild: Seq<char>, channel: Seq<char>) -> ChannelMode {
        if self.modes.dom().contains(seq![guild, channel]) {
            self.modes[seq![guild, channel]]
        } else {
            ChannelMode::Off
        }
    }

    /// The dialect that `user` prefers for `language`, if any.
    pub open spec fn dialect(self, user: Seq<char>, language: Seq<char>) -> Option<Seq<char>> {
        if self.dialects.dom().contains(seq![user, language]) {
            Some(self.dialects[seq![user, language]])
        } else {
            None
        }
    }

    /// The message last shown to `user` in the channel, if any.
    pub open spec fn cursor(self, guild: Seq<char>, channel: Seq<char>, user: Seq<char>) -> Option<
        u64,
    > {
        if self.cursors.dom().contains(seq![guild, channel, user]) {
            Some(self.cursors[seq![guild, channel, user]])
        } else {
            None
        }
    }

    /// No subscription occurs twice.
    pub open spec fn wf(self) -> bool {
        distinct_subscriptions(self.subscriptions)
    }
}

/// Removing subscriptions adds none.
pub proof fn lemma_without_subscription_keeps(
    subs: Seq<SubscriptionView>,
    guild: Seq<char>,
    channel: Seq<char>,
    user: Seq<char>,
    language: Seq<char>,
    g: Seq<char>,
    c: Seq<char>,
    u: Seq<char>,
    l: Seq<char>,
)
    ensures
        subscribed(without_subscription(subs, guild, channel, user, language), g, c, u, l)
            ==> subscribed(subs, g, c, u, l),
        !subscribed(
            without_subscription(subs, guild, channel, user, language),
            guild,
            channel,
            user,
            language,
        ),
        distinct_subscriptions(subs) ==> distinct_subscriptions(
            without_subscription(subs, guild, channel, user, language),
        ),
    decreases subs.len(),
{
    if subs.len() > 0 {
        let rest = subs.drop_last();
        lemma_without_subscription_keeps(rest, guild, channel, user, language, g, c, u, l);
        lemma_without_subscription_keeps(
            rest,
            guild,
            channel,
            user,
            language,
            subs.last().guild,
            subs.last().channel,
            subs.last().user,
            subs.last().language,
        );
        if !is_subscription(subs.last(), guild, channel, user, language) {
            assert(without_subscription(subs, guild, channel, user, language).drop_last()
                =~= without_subscription(rest, guild, channel, user, language));
        }
    }
}

/// Removing a user's subscriptions adds none and leaves none of the user's.
pub proof fn lemma_without_user_keeps(
    subs: Seq<SubscriptionView>,
    guild: Seq<char>,
    channel: Seq<char>,
    user: Seq<char>,
    g: Seq<char>,
    c: Seq<char>,
    u: Seq<char>,
    l: Seq<char>,
)
    ensures
        subscribed(without_user(subs, guild, channel, user), g, c, u, l) ==> subscribed(
            subs,
            g,
            c,
            u,
            l,
        ),
        !subscribed(without_user(subs, guild, channel, user), guild, channel, user, l),
        distinct_subscriptions(subs) ==> distinct_subscriptions(
            without_user(subs, guild, channel, user),
        ),
    decreases subs.len(),
{
    if subs.len() > 0 {
        let rest = subs.drop_last();
        lemma_without_user_keeps(rest, guild, channel, user, g, c, u, l);
        lemma_without_user_keeps(
            rest,
            guild,
            channel,
            user,
            subs.last().guild,
            subs.last().channel,
            subs.last().user,
            subs.last().language,
        );
        if !is_of_user(subs.last(), guild, channel, user) {
            assert(without_user(subs, guild, channel, user).drop_last() =~= without_user(
                rest,
                guild,
                channel,
                user,
            ));
        }
    }
}

/// Setting debug flags changes who is subscribed to what for nobody.
pub proof fn lemma_with_debug_keeps(
    subs: Seq<SubscriptionView>,
    guild: Seq<char>,
    channel: Seq<char>,
    user: Seq<char>,
    flag: bool,
    g: Seq<char>,
    c: Seq<char>,
    u: Seq<char>,
    l: Seq<char>,
)
    ensures
        subscribed(with_debug(subs, guild, channel, user, flag), g, c, u, l) == subscribed(
            subs,
            g,
            c,
            u,
            l,
        ),
        distinct_subscriptions(subs) ==> distinct_subscriptions(
            with_debug(subs, guild, channel, user, flag),
        ),
    decreases subs.len(),
{
    if subs.len() > 0 {
        let rest = subs.drop_last();
        lemma_with_debug_keeps(rest, guild, channel, user, flag, g, c, u, l);
        lemma_with_debug_keeps(
            rest,
            guild,
            channel,
            user,
            flag,
            subs.last().guild,
            subs.last().channel,
            subs.last().user,
            subs.last().language,
        );
        assert(with_debug(subs, guild, channel, user, flag).drop_last() =~= with_debug(
            rest,
            guild,
            channel,
            user,
            flag,
        ));
    }
}

/// The key made of two parts.
fn key2<'a>(a: &'a str, b: &'a str) -> (key: Vec<&'a str>)
    ensures
        key_of(key@) == seq![a@, b@],
{
    let mut key: Vec<&str> = Vec::new();
    key.push(a);
    key.push(b);
    assert(key_of(key@) =~= seq![a@, b@]);
    key
}

/// The key made of three parts.
fn key3<'a>(a: &'a str, b: &'a str, c: &'a str) -> (key: Vec<&'a str>)
    ensures
        key_of(key@) == seq![a@, b@, c@],
{
    let mut key: Vec<&str> = Vec::new();
    key.push(a);
    key.push(b);
    key.push(c);
    assert(key_of(key@) =~= seq![a@, b@, c@]);
    key
}

impl Registry {
    /// A registry that holds nothing.
    pub fn new() -> (registry: Self)
        ensures
            registry@.modes == Map::<Seq<Seq<char>>, ChannelMode>::empty(),
            registry@.dialects == Map::<Seq<Seq<char>>, Seq<char>>::empty(),
            registry@.cursors == Map::<Seq<Seq<char>>, u64>::empty(),
            registry@.subscriptions == Seq::<SubscriptionView>::empty(),
            registry@.wf(),
    {
        let registry = Registry {
            modes: KeyedStore::new(),
            dialects: KeyedStore::new(),
            cursors: KeyedStore::new(),
            subscriptions: Vec::new(),
        };
        assert(registry@.dialects =~= Map::<Seq<Seq<char>>, Seq<char>>::empty());
        assert(registry@.subscriptions =~= Seq::<SubscriptionView>::empty());
        registry
    }

    /// The mode of a channel.
    pub fn mode(&self, guild: &str, channel: &str) -> (mode: ChannelMode)
        ensures
            mode == self@.mode(guild@, channel@),
    {
        let key = key2(guild, channel);
        match self.modes.get(key.as_slice()) {
            Some(mode) => *mode,
            None => ChannelMode::Off,
        }
    }

    /// Sets the mode of a channel. It holds for every message after this one.
    pub fn set_mode(&mut self, guild: &str, channel: &str, mode: ChannelMode)
        ensures
            final(self)@ == (RegistryView {
                modes: old(self)@.modes.insert(seq![guild@, channel@], mode),
                ..old(self)@
            }),
    {
        let key = key2(guild, channel);
        self.modes.put(key.as_slice(), mode);
    }

    /// Whether messages are processed in a channel.
    pub fn is_translation_enabled(&self, guild: &str, channel: &str) -> (enabled: bool)
        ensures
            enabled == self@.mode(guild@, channel@).active(),
    {
        self.mode(guild, channel).is_active()
    }

    /// The dialect that `user` prefers for `language`, if any.
    pub fn dialect(&self, user: &str, language: &str) -> (dialect: Option<String>)
        ensures
            dialect.deep_view() == self@.dialect(user@, language@),
    {
        let key = key2(user, language);
        match self.dialects.get(key.as_slice()) {
            Some(d) => Some(d.clone()),
            None => None,
        }
    }

    /// Records the dialect that `user` prefers for `language`, in place of
    /// any earlier preference.
    pub fn set_dialect(&mut self, user: &str, language: &str, dialect: &str)
        ensures
            final(self)@ == (RegistryView {
                dialects: old(self)@.dialects.insert(seq![user@, language@], dialect@),
                ..old(self)@
            }),
    {
        let key = key2(user, language);
        let value = dialect.to_string();
        self.dialects.put(key.as_slice(), value);
        assert(self@.dialects =~= old(self)@.dialects.insert(seq![user@, language@], dialect@));
    }

    /// Forgets the dialect that `user` prefers for `language`.
    pub fn clear_dialect(&mut self, user: &str, language: &str)
        ensures
            final(self)@ == (RegistryView {
                dialects: old(self)@.dialects.remove(seq![user@, language@]),
                ..old(self)@
            }),
    {
        let key = key2(user, language);
        self.dialects.remove(key.as_slice());
        assert(self@.dialects =~= old(self)@.dialects.remove(seq![user@, language@]));
    }

    /// The message last shown to `user` in the channel, if any.
    pub fn cursor(&self, guild: &str, channel: &str, user: &str) -> (cursor: Option<u64>)
        ensures
            cursor == self@.cursor(guild@, channel@, user@),
    {
        let key = key3(guild, channel, user);
        match self.cursors.get(key.as_slice()) {
            Some(id) => Some(*id),
            None => None,
        }
    }

    /// Records that `message` was shown to `user` in the channel. The record
    /// only ever moves forward: an earlier message than the one on record
    /// leaves it as it is.
    pub fn advance_cursor(&mut self, guild: &str, channel: &str, user: &str, message: u64)
        ensures
            final(self)@ == (RegistryView {
                cursors: old(self)@.cursors.insert(
                    seq![guild@, channel@, user@],
                    match old(self)@.cursor(guild@, channel@, user@) {
                        Some(shown) => if shown > message {
                            shown
                        } else {
                            message
                        },
                        None => message,
                    },
                ),
                ..old(self)@
            }),
    {
        let key = key3(guild, channel, user);
        let shown = match self.cursors.get(key.as_slice()) {
            Some(id) => *id,
            None => 0,
        };
        let newest = if shown > message {
            shown
        } else {
            message
        };
        self.cursors.put(key.as_slice(), newest);
    }

    /// Whether `user` is subscribed to `language` in the channel.
    pub fn is_subscribed(&self, guild: &str, channel: &str, user: &str, language: &str) -> (b: bool)
        ensures
            b == subscribed(self@.subscriptions, guild@, channel@, user@, language@),
    {
        let ghost all = self.subscriptions.deep_view();
        let mut i: usize = 0;
        while i < self.subscriptions.len()
            invariant
                i <= self.subscriptions.len(),
                all == self.subscriptions.deep_view(),
                !subscribed(all.take(i as int), guild@, channel@, user@, language@),
            decreases self.subscriptions.len() - i,
        {
            assert(all.take(i + 1).drop_last() =~= all.take(i as int));
            let s = &self.subscriptions[i];
            if s.guild.as_str().eq(guild) && s.channel.as_str().eq(channel) && s.user.as_str().eq(
                user,
            ) && s.language.as_str().eq(language) {
                proof {
                    lemma_subscribed_later(all, i + 1, guild@, channel@, user@, language@);
                }
                return true;
            }
            i += 1;
        }
        assert(all.take(self.subscriptions.len() as int) =~= all);
        false
    }

    /// When `user` subscribed to `language` in the channel, if the user did.
    pub fn subscribed_since(&self, guild: &str, channel: &str, user: &str, language: &str) -> (since:
        Option<i64>)
        ensures
            since == created_of(self@.subscriptions, guild@, channel@, user@, language@),
    {
        let ghost all = self.subscriptions.deep_view();
        let mut i: usize = 0;
        assert(all.skip(0) =~= all);
        while i < self.subscriptions.len()
            invariant
                i <= self.subscriptions.len(),
                all == self.subscriptions.deep_view(),
                created_of(all, guild@, channel@, user@, language@) == created_of(
                    all.skip(i as int),
                    guild@,
                    channel@,
                    user@,
                    language@,
                ),
            decreases self.subscriptions.len() - i,
        {
            assert(all.skip(i as int).drop_first() =~= all.skip(i + 1));
            let s = &self.subscriptions[i];
            if s.guild.as_str().eq(guild) && s.channel.as_str().eq(channel) && s.user.as_str().eq(
                user,
            ) && s.language.as_str().eq(language) {
                return Some(s.created_at);
            }
            i += 1;
        }
        None
    }

    /// Subscribes `user` to `language` in the channel at the time `now`, and
    /// says whether that changed anything: subscribing again is no change,
    /// and leaves the time of the first subscription and the debug flag as
    /// they are.
    pub fn subscribe(
        &mut self,
        guild: &str,
        channel: &str,
        user: &str,
        language: &str,
        now: i64,
    ) -> (added: bool)
        ensures
            added == !subscribed(old(self)@.subscriptions, guild@, channel@, user@, language@),
            !added ==> final(self)@ == old(self)@,
            added ==> final(self)@ == (RegistryView {
                subscriptions: old(self)@.subscriptions.push(
                    SubscriptionView {
                        guild: guild@,
                        channel: channel@,
                        user: user@,
                        language: language@,
                        created_at: now,
                        debug: false,
                    },
                ),
                ..old(self)@
            }),
            old(self)@.wf() ==> final(self)@.wf(),
    {
        if self.is_subscribed(guild, channel, user, language) {
            return false;
        }
        let ghost before = self.subscriptions.deep_view();
        self.subscriptions.push(
            SubscriptionRecord {
                guild: guild.to_string(),
                channel: channel.to_string(),
                user: user.to_string(),
                language: language.to_string(),
                created_at: now,
                debug: false,
            },
        );
        assert(self.subscriptions.deep_view() =~= before.push(
            SubscriptionView {
                guild: guild@,
                channel: channel@,
                user: user@,
                language: language@,
                created_at: now,
                debug: false,
            },
        ));
        assert(self.subscriptions.deep_view().drop_last() =~= before);
        true
    }

    /// Ends the subscription of `user` to `language` in the channel.
    pub fn unsubscribe(&mut self, guild: &str, channel: &str, user: &str, language: &str)
        ensures
            final(self)@ == (RegistryView {
                subscriptions: without_subscription(
                    old(self)@.subscriptions,
                    guild@,
                    channel@,
                    user@,
                    language@,
                ),
                ..old(self)@
            }),
            old(self)@.wf() ==> final(self)@.wf(),
    {
        let ghost all = self.subscriptions.deep_view();
        let mut kept: Vec<SubscriptionRecord> = Vec::new();
        let mut i: usize = 0;
        while i < self.subscriptions.len()
            invariant
                i <= self.subscriptions.len(),
                all == self.subscriptions.deep_view(),
                kept.deep_view() == without_subscription(
                    all.take(i as int),
                    guild@,
                    channel@,
                    user@,
                    language@,
                ),
            decreases self.subscriptions.len() - i,
        {
            assert(all.take(i + 1).drop_last() =~= all.take(i as int));
            let s = &self.subscriptions[i];
            if !(s.guild.as_str().eq(guild) && s.channel.as_str().eq(channel) && s.user.as_str().eq(
                user,
            ) && s.language.as_str().eq(language)) {
                let ghost before = kept.deep_view();
                kept.push(copy_record(s));
                assert(kept.deep_view() =~= before.push(all[i as int]));
            }
            i += 1;
        }
        assert(all.take(self.subscriptions.len() as int) =~= all);
        proof {
            lemma_without_subscription_keeps(
                all,
                guild@,
                channel@,
                user@,
                language@,
                guild@,
                channel@,
                user@,
                language@,
            );
        }
        self.subscriptions = kept;
    }

    /// Ends every subscription of `user` in the channel, in one step.
    pub fn unsubscribe_all(&mut self, guild: &str, channel: &str, user: &str)
        ensures
            final(self)@ == (RegistryView {
                subscriptions: without_user(old(self)@.subscriptions, guild@, channel@, user@),
                ..old(self)@
            }),
            old(self)@.wf() ==> final(self)@.wf(),
    {
        let ghost all = self.subscriptions.deep_view();
        let mut kept: Vec<SubscriptionRecord> = Vec::new();
        let mut i: usize = 0;
        while i < self.subscriptions.len()
            invariant
                i <= self.subscriptions.len(),
                all == self.subscriptions.deep_view(),
                kept.deep_view() == without_user(all.take(i as int), guild@, channel@, user@),
            decreases self.subscriptions.len() - i,
        {
            assert(all.take(i + 1).drop_last() =~= all.take(i as int));
            let s = &self.subscriptions[i];
            if !(s.guild.as_str().eq(guild) && s.channel.as_str().eq(channel) && s.user.as_str().eq(
                user,
            )) {
                let ghost before = kept.deep_view();
                kept.push(copy_record(s));
                assert(kept.deep_view() =~= before.push(all[i as int]));
            }
            i += 1;
        }
        assert(all.take(self.subscriptions.len() as int) =~= all);
        proof {
            lemma_without_user_keeps(all, guild@, channel@, user@, guild@, channel@, user@, user@);
        }
        self.subscriptions = kept;
    }

    /// Sets the debug flag of `user` in the channel, on every subscription
    /// the user has there.
    pub fn set_debug(&mut self, guild: &str, channel: &str, user: &str, enabled: bool)
        ensures
            final(self)@ == (RegistryView {
                subscriptions: with_debug(
                    old(self)@.subscriptions,
                    guild@,
                    channel@,
                    user@,
                    enabled,
                ),
                ..old(self)@
            }),
            old(self)@.wf() ==> final(self)@.wf(),
    {
        let ghost all = self.subscriptions.deep_view();
        let mut changed: Vec<SubscriptionRecord> = Vec::new();
        let mut i: usize = 0;
        while i < self.subscriptions.len()
            invariant
                i <= self.subscriptions.len(),
                all == self.subscriptions.deep_view(),
                changed.len() == i,
                forall|k: int|
                    0 <= k < i ==> (#[trigger] changed[k]).deep_view() == with_debug(
                        all,
                        guild@,
                        channel@,
                        user@,
                        enabled,
                    )[k],
            decreases self.subscriptions.len() - i,
        {
            let s = &self.subscriptions[i];
            let mut record = copy_record(s);
            if s.guild.as_str().eq(guild) && s.channel.as_str().eq(channel) && s.user.as_str().eq(
                user,
            ) {
                record.debug = enabled;
            }
            changed.push(record);
            i += 1;
        }
        assert(changed.deep_view() =~= with_debug(all, guild@, channel@, user@, enabled));
        proof {
            lemma_with_debug_keeps(
                all,
                guild@,
                channel@,
                user@,
                enabled,
                guild@,
                channel@,
                user@,
                user@,
            );
        }
        self.subscriptions = changed;
    }

    /// Whether `user` is sent translations of their own messages in the channel.
    pub fn debug(&self, guild: &str, channel: &str, user: &str) -> (enabled: bool)
        ensures
            enabled == debug_of(self@.subscriptions, guild@, channel@, user@),
    {
        let ghost all = self.subscriptions.deep_view();
        let mut i: usize = 0;
        assert(all.skip(0) =~= all);
        while i < self.subscriptions.len()
            invariant
                i <= self.subscriptions.len(),
                all == self.subscriptions.deep_view(),
                debug_of(all, guild@, channel@, user@) == debug_of(
                    all.skip(i as int),
                    guild@,
                    channel@,
                    user@,
                ),
            decreases self.subscriptions.len() - i,
        {
            assert(all.skip(i as int).drop_first() =~= all.skip(i + 1));
            let s = &self.subscriptions[i];
            if s.guild.as_str().eq(guild) && s.channel.as_str().eq(channel) && s.user.as_str().eq(
                user,
            ) {
                return s.debug;
            }
            i += 1;
        }
        false
    }

    /// The languages that `user` reads in the channel.
    pub fn subscriptions_of(&self, guild: &str, channel: &str, user: &str) -> (languages: Vec<
        String,
    >)
        ensures
            languages.deep_view() == languages_of(self@.subscriptions, guild@, channel@, user@),
    {
        let ghost all = self.subscriptions.deep_view();
        let mut languages: Vec<String> = Vec::new();
        let mut i: usize = 0;
        while i < self.subscriptions.len()
            invariant
                i <= self.subscriptions.len(),
                all == self.subscriptions.deep_view(),
                languages.deep_view() == languages_of(all.take(i as int), guild@, channel@, user@),
            decreases self.subscriptions.len() - i,
        {
            assert(all.take(i + 1).drop_last() =~= all.take(i as int));
            let s = &self.subscriptions[i];
            if s.guild.as_str().eq(guild) && s.channel.as_str().eq(channel) && s.user.as_str().eq(
                user,
            ) {
                let ghost before = languages.deep_view();
                languages.push(s.language.clone());
                assert(languages.deep_view() =~= before.push(all[i as int].language));
            }
            i += 1;
        }
        assert(all.take(self.subscriptions.len() as int) =~= all);
        languages
    }

    /// The users who read `language` in the channel.
    pub fn subscribers_for_language(&self, guild: &str, channel: &str, language: &str) -> (users:
        Vec<String>)
        ensures
            users.deep_view() == readers_of(self@.subscriptions, guild@, channel@, language@),
    {
        let ghost all = self.subscriptions.deep_view();
        let mut users: Vec<String> = Vec::new();
        let mut i: usize = 0;
        while i < self.subscriptions.len()
            invariant
                i <= self.subscriptions.len(),
                all == self.subscriptions.deep_view(),
                users.deep_view() == readers_of(all.take(i as int), guild@, channel@, language@),
            decreases self.subscriptions.len() - i,
        {
            assert(all.take(i + 1).drop_last() =~= all.take(i as int));
            let s = &self.subscriptions[i];
            if s.guild.as_str().eq(guild) && s.channel.as_str().eq(channel)
                && s.language.as_str().eq(language) {
                let ghost before = users.deep_view();
                users.push(s.user.clone());
                assert(users.deep_view() =~= before.push(all[i as int].user));
            }
            i += 1;
        }
        assert(all.take(self.subscriptions.len() as int) =~= all);
        users
    }

    /// The subscriptions in the channel to languages other than English.
    pub fn non_english_subscriptions(&self, guild: &str, channel: &str) -> (found: Vec<Subscriber>)
        ensures
            found.deep_view() == foreign_in(self@.subscriptions, guild@, channel@),
    {
        let ghost all = self.subscriptions.deep_view();
        let mut found: Vec<Subscriber> = Vec::new();
        let mut i: usize = 0;
        while i < self.subscriptions.len()
            invariant
                i <= self.subscriptions.len(),
                all == self.subscriptions.deep_view(),
                found.deep_view() == foreign_in(all.take(i as int), guild@, channel@),
            decreases self.subscriptions.len() - i,
        {
            assert(all.take(i + 1).drop_last() =~= all.take(i as int));
            let s = &self.subscriptions[i];
            if s.guild.as_str().eq(guild) && s.channel.as_str().eq(channel)
                && !s.language.as_str().eq("en") {
                let ghost before = found.deep_view();
                found.push(Subscriber { user: s.user.clone(), language: s.language.clone() });
                assert(found.deep_view() =~= before.push(
                    crate::delivery::SubscriberView {
                        user: all[i as int].user,
                        language: all[i as int].language,
                    },
                ));
            }
            i += 1;
        }
        assert(all.take(self.subscriptions.len() as int) =~= all);
        found
    }

    /// The languages read in the channel, each once.
    pub fn subscribed_languages(&self, guild: &str, channel: &str) -> (languages: Vec<String>)
        ensures
            languages.deep_view() == languages_in(self@.subscriptions, guild@, channel@),
    {
        let ghost all = self.subscriptions.deep_view();
        let mut languages: Vec<String> = Vec::new();
        let mut i: usize = 0;
        while i < self.subscriptions.len()
            invariant
                i <= self.subscriptions.len(),
                all == self.subscriptions.deep_view(),
                languages.deep_view() == languages_in(all.take(i as int), guild@, channel@),
            decreases self.subscriptions.len() - i,
        {
            assert(all.take(i + 1).drop_last() =~= all.take(i as int));
            let s = &self.subscriptions[i];
            if s.guild.as_str().eq(guild) && s.channel.as_str().eq(channel)
                && !crate::delivery::is_listed(&languages, s.language.as_str()) {
                let ghost before = languages.deep_view();
                languages.push(s.language.clone());
                assert(languages.deep_view() =~= before.push(all[i as int].language));
            }
            i += 1;
        }
        assert(all.take(self.subscriptions.len() as int) =~= all);
        languages
    }
}

/// What the registry answers to a query of the dispatcher about a channel.
/// Queries to the backend and to the platform are not the registry's to
/// answer.
pub open spec fn registry_answer(
    registry: RegistryView,
    guild: Seq<char>,
    channel: Seq<char>,
    query: QueryView,
) -> Option<AnswerView> {
    match query {
        QueryView::ChannelMode => Some(AnswerView::Mode(registry.mode(guild, channel))),
        QueryView::SubscribedLanguages => Some(
            AnswerView::Languages(languages_in(registry.subscriptions, guild, channel)),
        ),
        QueryView::NonEnglishSubscriptions => Some(
            AnswerView::Subscriptions(foreign_in(registry.subscriptions, guild, channel)),
        ),
        QueryView::Dialects { subscribers } => Some(
            AnswerView::Dialects(
                Seq::new(
                    subscribers.len(),
                    |i: int| registry.dialect(subscribers[i].user, subscribers[i].language),
                ),
            ),
        ),
        QueryView::Subscribers { language } => Some(
            AnswerView::Subscribers(readers_of(registry.subscriptions, guild, channel, language)),
        ),
        QueryView::DebugFlag { user } => Some(
            AnswerView::DebugFlag(debug_of(registry.subscriptions, guild, channel, user)),
        ),
        _ => None,
    }
}

impl Registry {
    /// Answers a query of the dispatcher about a channel, where the query
    /// is one to the registry.
    pub fn answer(&self, guild: &str, channel: &str, query: &Query) -> (answer: Option<Answer>)
        ensures
            answer.deep_view() == registry_answer(self@, guild@, channel@, query.deep_view()),
    {
        match query {
            Query::ChannelMode => Some(Answer::Mode(self.mode(guild, channel))),
            Query::SubscribedLanguages => Some(
                Answer::Languages(self.subscribed_languages(guild, channel)),
            ),
            Query::NonEnglishSubscriptions => Some(
                Answer::Subscriptions(self.non_english_subscriptions(guild, channel)),
            ),
            Query::Dialects { subscribers } => {
                let mut dialects: Vec<Option<String>> = Vec::new();
                let mut i: usize = 0;
                while i < subscribers.len()
                    invariant
                        i <= subscribers.len(),
                        dialects.len() == i,
                        forall|k: int|
                            0 <= k < i ==> (#[trigger] dialects[k]).deep_view() == self@.dialect(
                                subscribers[k].user@,
                                subscribers[k].language@,
                            ),
                    decreases subscribers.len() - i,
                {
                    dialects.push(
                        self.dialect(subscribers[i].user.as_str(), subscribers[i].language.as_str()),
                    );
                    i += 1;
                }
                assert(dialects.deep_view() =~= Seq::new(
                    subscribers.deep_view().len(),
                    |i: int|
                        self@.dialect(
                            subscribers.deep_view()[i].user,
                            subscribers.deep_view()[i].language,
                        ),
                ));
                Some(Answer::Dialects(dialects))
            },
            Query::Subscribers { language } => Some(
                Answer::Subscribers(self.subscribers_for_language(guild, channel, language.as_str())),
            ),
            Query::DebugFlag { user } => Some(
                Answer::DebugFlag(self.debug(guild, channel, user.as_str())),
            ),
            _ => None,
        }
    }
}

/// A copy of a subscription.
fn copy_record(record: &SubscriptionRecord) -> (copy: SubscriptionRecord)
    ensures
        copy.deep_view() == record.deep_view(),
{
    SubscriptionRecord {
        guild: record.guild.clone(),
        channel: record.channel.clone(),
        user: record.user.clone(),
        language: record.language.clone(),
        created_at: record.created_at,
        debug: record.debug,
    }
}

/// A subscription among the first `n` is one among all.
pub proof fn lemma_subscribed_later(
    subs: Seq<SubscriptionView>,
    n: int,
    guild: Seq<char>,
    channel: Seq<char>,
    user: Seq<char>,
    language: Seq<char>,
)
    requires
        0 <= n <= subs.len(),
        subscribed(subs.take(n), guild, channel, user, language),
    ensures
        subscribed(subs, guild, channel, user, language),
    decreases subs.len() - n,
{
    if n == subs.len() {
        assert(subs.take(n) =~= subs);
    } else {
        assert(subs.drop_last().take(n) =~= subs.take(n));
        lemma_subscribed_later(subs.drop_last(), n, guild, channel, user, language);
    }
}

/// Who has subscribed is subscribed, and subscribing once more changes
/// nothing: a subscription is never held twice.
pub proof fn lemma_subscription_is_held_once(
    subs: Seq<SubscriptionView>,
    guild: Seq<char>,
    channel: Seq<char>,
    user: Seq<char>,
    language: Seq<char>,
    created_at: i64,
)
    requires
        distinct_subscriptions(subs),
        !subscribed(subs, guild, channel, user, language),
    ensures
        subscribed(
            subs.push(SubscriptionView { guild, channel, user, language, created_at, debug: false }),
            guild,
            channel,
            user,
            language,
        ),
        distinct_subscriptions(
            subs.push(SubscriptionView { guild, channel, user, language, created_at, debug: false }),
        ),
{
    let grown = subs.push(SubscriptionView { guild, channel, user, language, created_at, debug: false });
    assert(grown.drop_last() =~= subs);
}

/// A dialect that was set is the dialect that is read, until it is set
/// again or cleared; once cleared, none is read.
pub proof fn lemma_dialect_round_trip(
    registry: RegistryView,
    user: Seq<char>,
    language: Seq<char>,
    dialect: Seq<char>,
)
    ensures
        (RegistryView {
            dialects: registry.dialects.insert(seq![user, language], dialect),
            ..registry
        }).dialect(user, language) == Some(dialect),
        (RegistryView { dialects: registry.dialects.remove(seq![user, language]), ..registry }).dialect(
            user,
            language,
        ) is None,
{
}

/// A dialect preference stands under its own key: setting or clearing it
/// leaves every other preference as it was.
pub proof fn lemma_dialect_is_keyed(
    registry: RegistryView,
    user: Seq<char>,
    language: Seq<char>,
    dialect: Seq<char>,
    other_user: Seq<char>,
    other_language: Seq<char>,
)
    requires
        other_user != user || other_language != language,
    ensures
        (RegistryView {
            dialects: registry.dialects.insert(seq![user, language], dialect),
            ..registry
        }).dialect(other_user, other_language) == registry.dialect(other_user, other_language),
        (RegistryView { dialects: registry.dialects.remove(seq![user, language]), ..registry }).dialect(
            other_user,
            other_language,
        ) == registry.dialect(other_user, other_language),
{
    assert(seq![other_user, other_language] != seq![user, language]) by {
        if seq![other_user, other_language] == seq![user, language] {
            assert(seq![other_user, other_language][0] == seq![user, language][0]);
            assert(seq![other_user, other_language][1] == seq![user, language][1]);
        }
    }
}

/// The message on record as shown last never moves back.
pub proof fn lemma_cursor_moves_forward(shown: Option<u64>, message: u64)
    ensures
        ({
            let recorded = match shown {
                Some(s) => if s > message {
                    s
                } else {
                    message
                },
                None => message,
            };
            recorded >= message && (shown matches Some(s) ==> recorded >= s)
        }),
{
}

} // verus!

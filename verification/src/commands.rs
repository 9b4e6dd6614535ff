//! What a command comes to, decided from what the user typed and what the
//! registry holds.
//!
//! The caller reads the registry, asks here what is to be done, and then
//! writes to the registry and replies. Nothing is written that these
//! functions do not ask for.

use vstd::prelude::*;
use crate::delivery::is_listed;
use crate::language::{
    is_supported_language, normalize_language, normalized_language, supported_language,
};
use crate::mode::{mode_named, ChannelMode};
use crate::replies::{unsubscribe_request, UnsubscribeRequest};
use crate::text::lowercase;

verus! {

/// What a command to set a channel's mode comes to.
#[derive(Clone, Copy, Debug, PartialEq, Eq, Structural)]
pub enum ModeChange {
    /// The user may not change the mode: it stays as it is.
    NotPermitted,
    /// What was typed names no mode: the mode stays as it is.
    Invalid,
    /// The channel's mode becomes this one, for every message from now on.
    To(ChannelMode),
}

/// What a command to subscribe comes to.
#[derive(Clone, Debug)]
pub enum SubscriptionChange {
    /// The language is not offered.
    Unsupported,
    /// The user reads this language in the channel already: nothing is written.
    Already(String),
    /// The user is to be subscribed to this language.
    Add(String),
}

/// What a command to unsubscribe comes to.
#[derive(Clone, Debug)]
pub enum UnsubscriptionChange {
    /// Every subscription of the user in the channel is to end, in one step.
    All,
    /// The user does not read this language in the channel: nothing is written.
    NotHeld(String),
    /// The user's subscription to this language is to end.
    Remove(String),
    /// No language was named: the subscriptions are shown.
    List,
}

/// What a command to switch debugging comes to.
#[derive(Clone, Copy, Debug, PartialEq, Eq, Structural)]
pub enum DebugChange {
    /// The user has no subscription in the channel: there is no flag to switch.
    SubscribeFirst,
    /// The flag is to be set to this.
    To(bool),
}

/// A `SubscriptionChange` as plain values.
pub enum SubscriptionChangeView {
    Unsupported,
    Already(Seq<char>),
    Add(Seq<char>),
}

/// An `UnsubscriptionChange` as plain values.
pub enum UnsubscriptionChangeView {
    All,
    NotHeld(Seq<char>),
    Remove(Seq<char>),
    List,
}

impl DeepView for SubscriptionChange {
    type V = SubscriptionChangeView;

    open spec fn deep_view(&self) -> SubscriptionChangeView {
        match self {
            SubscriptionChange::Unsupported => SubscriptionChangeView::Unsupported,
            SubscriptionChange::Already(code) => SubscriptionChangeView::Already(code@),
            SubscriptionChange::Add(code) => SubscriptionChangeView::Add(code@),
        }
    }
}

impl DeepView for UnsubscriptionChange {
    type V = UnsubscriptionChangeView;

    open spec fn deep_view(&self) -> UnsubscriptionChangeView {
        match self {
            UnsubscriptionChange::All => UnsubscriptionChangeView::All,
            UnsubscriptionChange::NotHeld(code) => UnsubscriptionChangeView::NotHeld(code@),
            UnsubscriptionChange::Remove(code) => UnsubscriptionChangeView::Remove(code@),
            UnsubscriptionChange::List => UnsubscriptionChangeView::List,
        }
    }
}

/// What setting a channel's mode comes to. Only a user who is permitted
/// changes the mode, and only to one of the four modes, named in any letter
/// case.
pub open spec fn mode_change(permitted: bool, typed: Seq<char>) -> ModeChange {
    if !permitted {
        ModeChange::NotPermitted
    } else {
        match mode_named(lowercase(typed)) {
            Some(mode) => ModeChange::To(mode),
            None => ModeChange::Invalid,
        }
    }
}

/// What subscribing comes to. `held` are the languages that the user reads
/// in the channel. A language that the user reads already is not
/// subscribed to again.
pub open spec fn subscription_change(typed: Seq<char>, held: Seq<Seq<char>>)
    -> SubscriptionChangeView {
    let code = normalized_language(typed);
    if !supported_language(code) {
        SubscriptionChangeView::Unsupported
    } else if held.contains(code) {
        SubscriptionChangeView::Already(code)
    } else {
        SubscriptionChangeView::Add(code)
    }
}

/// What unsubscribing comes to. `held` are the languages that the user
/// reads in the channel.
pub open spec fn unsubscription_change(language: Option<Seq<char>>, held: Seq<Seq<char>>)
    -> UnsubscriptionChangeView {
    match unsubscribe_request(language) {
        None => UnsubscriptionChangeView::List,
        Some(None) => UnsubscriptionChangeView::All,
        Some(Some(code)) => if held.contains(code) {
            UnsubscriptionChangeView::Remove(code)
        } else {
            UnsubscriptionChangeView::NotHeld(code)
        },
    }
}

/// What switching debugging comes to. `held` are the languages that the
/// user reads in the channel, `current` is the user's flag there.
pub open spec fn debug_change(held: Seq<Seq<char>>, current: bool) -> DebugChange {
    if held.len() == 0 {
        DebugChange::SubscribeFirst
    } else {
        DebugChange::To(!current)
    }
}

/// Decides what a command to set a channel's mode comes to.
pub fn decide_mode_change(permitted: bool, typed: &str) -> (change: ModeChange)
    ensures
        change == mode_change(permitted, typed@),
{
    if !permitted {
        return ModeChange::NotPermitted;
    }
    match ChannelMode::parse(typed) {
        Some(mode) => ModeChange::To(mode),
        None => ModeChange::Invalid,
    }
}

/// Decides what a command to subscribe comes to.
pub fn decide_subscription(typed: &str, held: &Vec<String>) -> (change: SubscriptionChange)
    ensures
        change.deep_view() == subscription_change(typed@, held.deep_view()),
{
    let code = normalize_language(typed);
    if !is_supported_language(code.as_str()) {
        SubscriptionChange::Unsupported
    } else if is_listed(held, code.as_str()) {
        SubscriptionChange::Already(code)
    } else {
        SubscriptionChange::Add(code)
    }
}

/// Decides what a command to unsubscribe comes to.
pub fn decide_unsubscription(language: Option<&str>, held: &Vec<String>) -> (change:
    UnsubscriptionChange)
    ensures
        change.deep_view() == unsubscription_change(
            match language {
                Some(l) => Some(l@),
                None => None,
            },
            held.deep_view(),
        ),
{
    match UnsubscribeRequest::read(language) {
        UnsubscribeRequest::List => UnsubscriptionChange::List,
        UnsubscribeRequest::All => UnsubscriptionChange::All,
        UnsubscribeRequest::One(code) => {
            if is_listed(held, code.as_str()) {
                UnsubscriptionChange::Remove(code)
            } else {
                UnsubscriptionChange::NotHeld(code)
            }
        },
    }
}

/// Decides what a command to switch debugging comes to.
pub fn decide_debug(held: &Vec<String>, current: bool) -> (change: DebugChange)
    ensures
        change == debug_change(held.deep_view(), current),
{
    if held.len() == 0 {
        DebugChange::SubscribeFirst
    } else {
        DebugChange::To(!current)
    }
}

/// Subscribing to a language that is held writes nothing, whatever the user
/// typed for it.
pub proof fn lemma_subscribing_again_writes_nothing(typed: Seq<char>, held: Seq<Seq<char>>)
    requires
        held.contains(normalized_language(typed)),
    ensures
        !(subscription_change(typed, held) is Add),
{
}

/// The mode of a channel changes only for a user who is permitted, and only
/// to the mode that was named.
pub proof fn lemma_mode_changes_only_by_permission(permitted: bool, typed: Seq<char>)
    ensures
        mode_change(permitted, typed) matches ModeChange::To(mode) ==> permitted && mode_named(
            lowercase(typed),
        ) == Some(mode),
{
}

} // verus!

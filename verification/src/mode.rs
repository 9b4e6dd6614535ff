//! The translation mode of a channel.
//!
//! A channel is in exactly one of four modes. Nothing changes a mode but an
//! authorised command, and a channel for which none was ever set is `Off`.

use vstd::prelude::*;
use crate::text::lowercase;

verus! {

/// How translations are delivered in a channel.
#[derive(Clone, Copy, Debug, PartialEq, Eq, Structural)]
pub enum ChannelMode {
    /// Messages are ignored.
    Off,
    /// Every translation is delivered privately.
    Silent,
    /// Translations into English are posted, all others delivered privately.
    On,
    /// Every translation is posted in the channel.
    Transparent,
}

/// The mode that a stored or typed name stands for, if it names one.
pub open spec fn mode_named(name: Seq<char>) -> Option<ChannelMode> {
    if name == "off"@ {
        Some(ChannelMode::Off)
    } else if name == "silent"@ {
        Some(ChannelMode::Silent)
    } else if name == "on"@ {
        Some(ChannelMode::On)
    } else if name == "transparent"@ {
        Some(ChannelMode::Transparent)
    } else {
        None
    }
}

/// The mode of a channel, given what the store holds for it. A channel
/// without a stored mode is off, and so is one whose stored value names no
/// mode.
pub open spec fn stored_mode(stored: Option<Seq<char>>) -> ChannelMode {
    match stored {
        Some(name) => match mode_named(name) {
            Some(mode) => mode,
            None => ChannelMode::Off,
        },
        None => ChannelMode::Off,
    }
}

impl ChannelMode {
    /// The name under which the mode is stored and typed.
    pub open spec fn name(self) -> Seq<char> {
        match self {
            ChannelMode::Off => "off"@,
            ChannelMode::Silent => "silent"@,
            ChannelMode::On => "on"@,
            ChannelMode::Transparent => "transparent"@,
        }
    }

    /// Whether messages are processed at all in this mode.
    pub open spec fn active(self) -> bool {
        self != ChannelMode::Off
    }

    /// What a user is told after setting the mode.
    pub open spec fn announcement(self) -> Seq<char> {
        match self {
            ChannelMode::Off => "Translation is **disabled**. Messages will not be processed."@,
            ChannelMode::Silent =>
                "Translation mode: **silent**\n• Non-English → English: DM to English subscribers only\n• English → Other: DM to language subscribers"@,
            ChannelMode::On =>
                "Translation mode: **on**\n• Non-English → English: Posted publicly\n• English → Other: DM to language subscribers"@,
            ChannelMode::Transparent =>
                "Translation mode: **transparent**\n• All translations posted publicly in channel"@,
        }
    }

    /// What a user is told when asking for the mode.
    pub open spec fn summary(self) -> Seq<char> {
        match self {
            ChannelMode::Off => "**off** - No translation"@,
            ChannelMode::Silent => "**silent** - DM translations only"@,
            ChannelMode::On => "**on** - DM + public English translations"@,
            ChannelMode::Transparent => "**transparent** - All translations public"@,
        }
    }

    /// Reads a mode's name.
    pub fn from_name(name: &str) -> (mode: Option<ChannelMode>)
        ensures
            mode == mode_named(name@),
    {
        if name.eq("off") {
            Some(ChannelMode::Off)
        } else if name.eq("silent") {
            Some(ChannelMode::Silent)
        } else if name.eq("on") {
            Some(ChannelMode::On)
        } else if name.eq("transparent") {
            Some(ChannelMode::Transparent)
        } else {
            None
        }
    }

    /// Reads what a user typed as a mode, in any letter case.
    pub fn parse(input: &str) -> (mode: Option<ChannelMode>)
        ensures
            mode == mode_named(lowercase(input@)),
    {
        let lower = input.to_lowercase();
        ChannelMode::from_name(lower.as_str())
    }

    /// The mode of a channel, given what the store holds for it.
    pub fn from_stored(stored: Option<&str>) -> (mode: ChannelMode)
        ensures
            mode == stored_mode(
                match stored {
                    Some(s) => Some(s@),
                    None => None,
                },
            ),
    {
        match stored {
            Some(name) => match ChannelMode::from_name(name) {
                Some(mode) => mode,
                None => ChannelMode::Off,
            },
            None => ChannelMode::Off,
        }
    }

    /// The name under which the mode is stored and typed.
    pub fn as_str(&self) -> (name: &'static str)
        ensures
            name@ == self.name(),
    {
        match self {
            ChannelMode::Off => "off",
            ChannelMode::Silent => "silent",
            ChannelMode::On => "on",
            ChannelMode::Transparent => "transparent",
        }
    }

    /// Whether messages are processed at all in this mode.
    pub fn is_active(&self) -> (b: bool)
        ensures
            b == self.active(),
    {
        match self {
            ChannelMode::Off => false,
            _ => true,
        }
    }

    /// What to tell a user after setting the mode.
    pub fn describe_change(&self) -> (text: &'static str)
        ensures
            text@ == self.announcement(),
    {
        match self {
            ChannelMode::Off => "Translation is **disabled**. Messages will not be processed.",
            ChannelMode::Silent =>
                "Translation mode: **silent**\n• Non-English → English: DM to English subscribers only\n• English → Other: DM to language subscribers",
            ChannelMode::On =>
                "Translation mode: **on**\n• Non-English → English: Posted publicly\n• English → Other: DM to language subscribers",
            ChannelMode::Transparent =>
                "Translation mode: **transparent**\n• All translations posted publicly in channel",
        }
    }

    /// What to tell a user who asks for the mode.
    pub fn describe(&self) -> (text: &'static str)
        ensures
            text@ == self.summary(),
    {
        match self {
            ChannelMode::Off => "**off** - No translation",
            ChannelMode::Silent => "**silent** - DM translations only",
            ChannelMode::On => "**on** - DM + public English translations",
            ChannelMode::Transparent => "**transparent** - All translations public",
        }
    }
}

/// A mode's name reads back as the mode.
pub proof fn lemma_name_round_trip(mode: ChannelMode)
    ensures
        mode_named(mode.name()) == Some(mode),
{
    reveal_strlit("off");
    reveal_strlit("silent");
    reveal_strlit("on");
    reveal_strlit("transparent");
    assert("silent"@.len() == 6);
    assert("on"@.len() == 2);
    assert("off"@.len() == 3);
    assert("transparent"@.len() == 11);
}

} // verus!

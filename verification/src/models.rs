//! The records that the store keeps.

use vstd::prelude::*;
use crate::clock::unix_time_now;
use crate::text::lowercase;

verus! {

/// A user's self-reported status.
#[derive(Clone, Debug)]
pub struct UserStatus {
    pub discord_id: String,
    pub status: String,
    pub message: Option<String>,
    /// When the status was set, in seconds since the Unix epoch.
    pub updated_at: i64,
    pub timezone: Option<String>,
    pub preferred_hours_start: Option<String>,
    pub preferred_hours_end: Option<String>,
}

/// A subscription to translations.
#[derive(Clone, Debug)]
pub struct TranslationSubscription {
    pub discord_id: String,
    pub language: String,
    pub created_at: i64,
}

/// A user's settings.
#[derive(Clone, Debug)]
pub struct UserSettings {
    pub discord_id: String,
    pub timezone: String,
    pub time_format: String,
    /// Whether the user is listed among the team even when busy for long.
    pub always_show_me: bool,
}

/// How much of a watched project's activity a channel is told.
#[derive(Clone, Copy, Debug, PartialEq, Eq, Structural)]
pub enum WatchLevel {
    /// Every event.
    All,
    /// Pull requests, releases, milestones.
    Important,
    /// Releases and merged pull requests only.
    Minimal,
    /// Nothing.
    Off,
}

/// The sign shown for a status.
pub open spec fn status_emoji(status: Seq<char>) -> Seq<char> {
    if status == "available"@ {
        "🟢"@
    } else if status == "busy"@ {
        "🟡"@
    } else if status == "away"@ {
        "🔴"@
    } else {
        "⚫"@
    }
}

/// The word shown for a status.
pub open spec fn status_label(status: Seq<char>) -> Seq<char> {
    if status == "available"@ {
        "Available"@
    } else if status == "busy"@ {
        "Busy"@
    } else if status == "away"@ {
        "Away"@
    } else {
        "Unknown"@
    }
}

/// The watch level that a name stands for, if it names one.
pub open spec fn watch_level_named(name: Seq<char>) -> Option<WatchLevel> {
    if name == "all"@ {
        Some(WatchLevel::All)
    } else if name == "important"@ {
        Some(WatchLevel::Important)
    } else if name == "minimal"@ {
        Some(WatchLevel::Minimal)
    } else if name == "off"@ {
        Some(WatchLevel::Off)
    } else {
        None
    }
}

/// Whether an event of the given type is told at a watch level.
pub open spec fn shown_at(level: WatchLevel, event_type: Seq<char>) -> bool {
    match level {
        WatchLevel::Off => false,
        WatchLevel::Minimal => event_type == "release"@ || event_type == "pr_merged"@,
        WatchLevel::Important => event_type == "release"@ || event_type == "pr_merged"@
            || event_type == "pr_opened"@ || event_type == "pr_closed"@ || event_type
            == "milestone"@,
        WatchLevel::All => true,
    }
}

impl UserStatus {
    /// Whether this is the record of `discord_id` with the given status and
    /// message, set at `now`, and nothing else.
    pub open spec fn is_fresh(
        self,
        discord_id: Seq<char>,
        status: Seq<char>,
        message: Option<String>,
        now: i64,
    ) -> bool {
        &&& self.discord_id@ == discord_id
        &&& self.status@ == status
        &&& self.message.deep_view() == message.deep_view()
        &&& self.updated_at == now
        &&& self.timezone is None
        &&& self.preferred_hours_start is None
        &&& self.preferred_hours_end is None
    }

    /// A status set at the time `now`.
    pub fn at(discord_id: &str, status: &str, message: Option<String>, now: i64) -> (record: Self)
        ensures
            record.is_fresh(discord_id@, status@, message, now),
    {
        UserStatus {
            discord_id: discord_id.to_string(),
            status: status.to_string(),
            message,
            updated_at: now,
            timezone: None,
            preferred_hours_start: None,
            preferred_hours_end: None,
        }
    }

    /// The status "available", set now.
    pub fn available(discord_id: &str, message: Option<String>) -> (record: Self)
        ensures
            record.is_fresh(discord_id@, "available"@, message, record.updated_at),
    {
        Self::at(discord_id, "available", message, unix_time_now())
    }

    /// The status "busy", set now.
    pub fn busy(discord_id: &str, message: Option<String>) -> (record: Self)
        ensures
            record.is_fresh(discord_id@, "busy"@, message, record.updated_at),
    {
        Self::at(discord_id, "busy", message, unix_time_now())
    }

    /// The status "away", set now.
    pub fn away(discord_id: &str, message: Option<String>) -> (record: Self)
        ensures
            record.is_fresh(discord_id@, "away"@, message, record.updated_at),
    {
        Self::at(discord_id, "away", message, unix_time_now())
    }

    /// The sign shown for this status.
    pub fn emoji(&self) -> (sign: &'static str)
        ensures
            sign@ == status_emoji(self.status@),
    {
        let status = self.status.as_str();
        if status.eq("available") {
            "🟢"
        } else if status.eq("busy") {
            "🟡"
        } else if status.eq("away") {
            "🔴"
        } else {
            "⚫"
        }
    }

    /// The word shown for this status.
    pub fn label(&self) -> (word: &'static str)
        ensures
            word@ == status_label(self.status@),
    {
        let status = self.status.as_str();
        if status.eq("available") {
            "Available"
        } else if status.eq("busy") {
            "Busy"
        } else if status.eq("away") {
            "Away"
        } else {
            "Unknown"
        }
    }
}

impl Default for UserSettings {
    /// The settings of a user who chose none: UTC, the 24-hour clock.
    fn default() -> (settings: Self)
        ensures
            settings.discord_id@.len() == 0,
            settings.timezone@ == "UTC"@,
            settings.time_format@ == "24h"@,
            !settings.always_show_me,
    {
        UserSettings {
            discord_id: String::new(),
            timezone: "UTC".to_string(),
            time_format: "24h".to_string(),
            always_show_me: false,
        }
    }
}

impl UserSettings {
    /// The settings of a user who chose none.
    pub fn new(discord_id: &str) -> (settings: Self)
        ensures
            settings.discord_id@ == discord_id@,
            settings.timezone@ == "UTC"@,
            settings.time_format@ == "24h"@,
            !settings.always_show_me,
    {
        UserSettings {
            discord_id: discord_id.to_string(),
            timezone: "UTC".to_string(),
            time_format: "24h".to_string(),
            always_show_me: false,
        }
    }

    /// Whether the user reads times on the 12-hour clock.
    pub open spec fn twelve_hour(self) -> bool {
        self.time_format@ == "12h"@
    }

    /// Whether the user reads times on the 12-hour clock.
    pub fn is_12h(&self) -> (b: bool)
        ensures
            b == self.twelve_hour(),
    {
        self.time_format.as_str().eq("12h")
    }
}

impl WatchLevel {
    /// The name of the level.
    pub open spec fn name(self) -> Seq<char> {
        match self {
            WatchLevel::All => "all"@,
            WatchLevel::Important => "important"@,
            WatchLevel::Minimal => "minimal"@,
            WatchLevel::Off => "off"@,
        }
    }

    /// The name of the level.
    pub fn as_str(&self) -> (name: &'static str)
        ensures
            name@ == self.name(),
    {
        match self {
            WatchLevel::All => "all",
            WatchLevel::Important => "important",
            WatchLevel::Minimal => "minimal",
            WatchLevel::Off => "off",
        }
    }

    /// Reads the name of a level, in any letter case.
    pub fn from_str(s: &str) -> (level: Option<Self>)
        ensures
            level == watch_level_named(lowercase(s@)),
    {
        let lower = s.to_lowercase();
        let l = lower.as_str();
        if l.eq("all") {
            Some(WatchLevel::All)
        } else if l.eq("important") {
            Some(WatchLevel::Important)
        } else if l.eq("minimal") {
            Some(WatchLevel::Minimal)
        } else if l.eq("off") {
            Some(WatchLevel::Off)
        } else {
            None
        }
    }

    /// Whether an event of the given type is told at this level.
    pub fn should_show(&self, event_type: &str) -> (b: bool)
        ensures
            b == shown_at(*self, event_type@),
    {
        match self {
            WatchLevel::Off => false,
            WatchLevel::Minimal => event_type.eq("release") || event_type.eq("pr_merged"),
            WatchLevel::Important => event_type.eq("release") || event_type.eq("pr_merged")
                || event_type.eq("pr_opened") || event_type.eq("pr_closed") || event_type.eq(
                "milestone",
            ),
            WatchLevel::All => true,
        }
    }
}

} // verus!

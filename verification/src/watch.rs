//! Watching the activity of a repository or a project from a channel.

use vstd::prelude::*;
use crate::models::{watch_level_named, WatchLevel};
use crate::text::lowercase;

verus! {

/// What can be watched.
#[derive(Clone, Copy, Debug, PartialEq, Eq, Structural)]
pub enum WatchTarget {
    /// A repository on the code host.
    Github,
    /// A project in the tracker.
    Plane,
}

/// What is watched under a name, if the name stands for anything.
pub open spec fn watch_target_named(name: Seq<char>) -> Option<WatchTarget> {
    if name == "github"@ {
        Some(WatchTarget::Github)
    } else if name == "plane"@ {
        Some(WatchTarget::Plane)
    } else {
        None
    }
}

/// What a channel is told at a watch level.
pub open spec fn level_text(level: WatchLevel) -> Seq<char> {
    match level {
        WatchLevel::All => "• All pushes, PRs, issues, comments, and releases"@,
        WatchLevel::Important => "• PRs (opened, merged, closed)\n• Releases\n• Milestones"@,
        WatchLevel::Minimal => "• Releases only\n• Merged PRs"@,
        WatchLevel::Off => "• Nothing (muted)"@,
    }
}

/// The level at which a channel watches, given what the user typed for it:
/// the level named, and `Important` where none was typed or what was typed
/// names none.
pub open spec fn chosen_level(input: Option<Seq<char>>) -> WatchLevel {
    match input {
        Some(name) => match watch_level_named(lowercase(name)) {
            Some(level) => level,
            None => WatchLevel::Important,
        },
        None => WatchLevel::Important,
    }
}

impl WatchTarget {
    /// Reads what a user typed as the kind of thing to watch, in any letter case.
    pub fn parse(input: &str) -> (target: Option<WatchTarget>)
        ensures
            target == watch_target_named(lowercase(input@)),
    {
        let lower = input.to_lowercase();
        if lower.as_str().eq("github") {
            Some(WatchTarget::Github)
        } else if lower.as_str().eq("plane") {
            Some(WatchTarget::Plane)
        } else {
            None
        }
    }
}

/// What a channel is told at a watch level.
pub fn level_description(level: &WatchLevel) -> (text: &'static str)
    ensures
        text@ == level_text(*level),
{
    match level {
        WatchLevel::All => "• All pushes, PRs, issues, comments, and releases",
        WatchLevel::Important => "• PRs (opened, merged, closed)\n• Releases\n• Milestones",
        WatchLevel::Minimal => "• Releases only\n• Merged PRs",
        WatchLevel::Off => "• Nothing (muted)",
    }
}

/// The level at which a channel watches, given what the user typed for it.
pub fn choose_level(input: Option<&str>) -> (level: WatchLevel)
    ensures
        level == chosen_level(
            match input {
                Some(s) => Some(s@),
                None => None,
            },
        ),
{
    match input {
        Some(name) => match WatchLevel::from_str(name) {
            Some(level) => level,
            None => WatchLevel::Important,
        },
        None => WatchLevel::Important,
    }
}

} // verus!

//! What the bot says in answer to commands.
//!
//! The texts are composed here, from values that the caller has read: the
//! functions neither read the registry nor write to it.

use vstd::prelude::*;
use vstd::string::StringExecFns;
use crate::language::{language_name, language_name_of, normalize_language, normalized_language};
use crate::number::{decimal, write_decimal};
use crate::schedule::{day_name, day_name_of};
use crate::text::lowercase;

verus! {

/// Told to a user who manages subscriptions outside a server.
pub const SUBSCRIPTIONS_NEED_SERVER: &'static str =
    "⚠️ Translation subscriptions are only available in servers.";

/// Told to a user who manages translation settings outside a server.
pub const SETTINGS_NEED_SERVER: &'static str = "⚠️ Translation settings are only available in servers.";

/// Told to a user who uses a server command outside a server.
pub const COMMAND_NEEDS_SERVER: &'static str = "⚠️ This command is only available in servers.";

/// Told to a user who ended every subscription in a channel.
pub const UNSUBSCRIBED_ALL: &'static str = "✅ Unsubscribed from all translation DMs in this channel.";

/// Told to a user who switches debugging without a subscription.
pub const SUBSCRIBE_FIRST: &'static str =
    "⚠️ You need to subscribe to translations first with `/fabrica translate subscribe <language>`";

/// Told to a user who may not change the translation mode.
pub const MODE_NOT_PERMITTED: &'static str =
    "⚠️ You need a configured role or MANAGE_CHANNELS permission to change translation settings.\nServer admins can configure roles with `/fabrica server allow mode @role`";

/// Told to a user who named no mode.
pub const INVALID_MODE: &'static str =
    "⚠️ Invalid mode. Available modes:\n• **off** - No translation\n• **silent** - DM translations only (subscribe to `en` for English translations)\n• **on** - DM translations + public English translations\n• **transparent** - All translations shown publicly";

/// Told to a user who may not manage the server's settings.
pub const ADMIN_REQUIRED: &'static str =
    "⚠️ You need **ADMINISTRATOR** permission to manage server settings.";

/// Told to a user who named no permission.
pub const INVALID_PERMISSION: &'static str =
    "⚠️ Invalid permission. Available permissions:\n• **mode** - Can change translation modes\n• **admin** - Can manage all Fabrica settings";

/// Told to a user who typed something else in place of `everyone`.
pub const INVALID_TARGET: &'static str = "⚠️ Invalid target. Use `everyone` or select a role.";

/// Told to a user who grants a permission to nobody.
pub const GRANT_TARGET_MISSING: &'static str =
    "⚠️ Please specify a role or use `everyone` to grant permission to all users.\nExample: `/fabrica server allow mode @role` or `/fabrica server allow mode everyone:everyone`";

/// Told to a user who revokes a permission from nobody.
pub const REVOKE_TARGET_MISSING: &'static str =
    "⚠️ Please specify a role or use `everyone` to revoke permission.\nExample: `/fabrica server deny mode @role` or `/fabrica server deny mode everyone:everyone`";

/// Told to a user who sets hours outside a server.
pub const HOURS_NEED_SERVER: &'static str = "⚠️ Hours can only be set in a server.";

/// Told to a user who asks for hours outside a server.
pub const HOURS_VIEW_NEEDS_SERVER: &'static str = "⚠️ Hours can only be viewed in a server.";

/// Told to a user who asks for the team outside a server.
pub const TEAM_NEEDS_SERVER: &'static str = "⚠️ Team status can only be viewed in a server.";

/// Told to a user who cleared their status.
pub const STATUS_CLEARED: &'static str = "⚫ Your status has been cleared.";

/// Told to a user who asked to be listed always.
pub const ALWAYS_SHOWN_ON: &'static str =
    "✅ **Always show me** is now **ON**.\nYou'll appear in `/team` even when busy for a long time or away.";

/// Told to a user who asked not to be listed always.
pub const ALWAYS_SHOWN_OFF: &'static str =
    "✅ **Always show me** is now **OFF**.\nYou'll be hidden from `/team` when busy for more than 15 minutes or away.";

/// Told to a user who sets another user's time zone without being an administrator.
pub const TIMEZONE_NOT_PERMITTED: &'static str = "⚠️ Only admins can set timezone for other users.";

/// Told to a user who named no time format.
pub const INVALID_TIME_FORMAT: &'static str = "⚠️ Invalid format. Use `24h` or `12h`";

/// Told to a user who named nothing that can be watched.
pub const UNKNOWN_WATCH_TYPE: &'static str = "Unknown watch type. Use 'github' or 'plane'.";

/// Told to a user who calls the root command.
pub const ROOT_HELP: &'static str = "Palace Fabrica - Use `/fabrica help` for available commands";

/// What a user may mean by asking to unsubscribe.
#[derive(Clone, Debug)]
pub enum UnsubscribeRequest {
    /// End every subscription in the channel.
    All,
    /// End the subscription to this language.
    One(String),
    /// No language was named: show the subscriptions.
    List,
}

/// A dialect preference as it is listed.
#[derive(Clone, Debug)]
pub struct DialectEntry {
    pub language: String,
    pub dialect: String,
}

/// The hours of one day of the week.
#[derive(Clone, Debug)]
pub struct DayHours {
    pub day: u8,
    pub start: String,
    pub end: String,
}

/// Hours set for today alone.
#[derive(Clone, Debug)]
pub struct TodayHours {
    pub start: Option<String>,
    pub end: String,
}

/// A permission that the registry lists for a role or for everyone.
#[derive(Clone, Debug)]
pub struct Grant {
    /// The role's identifier, or the word `everyone`.
    pub role: String,
    /// The permission's name.
    pub permission: String,
}

/// Who a permission is granted to or revoked from.
#[derive(Clone, Debug)]
pub enum GrantTarget {
    /// Everybody on the server.
    Everyone,
    /// The members with this role.
    Role(String),
    /// What was typed in place of `everyone` is something else.
    Invalid,
    /// Neither a role nor `everyone` was given.
    Missing,
}

/// What a user is told who asked for a language that is not offered.
pub open spec fn unsupported_language(language: Seq<char>) -> Seq<char> {
    "Language '"@ + language + "' is not currently supported.\nSupported: English (en), Hindi (hi), French (fr), Spanish (es), German (de), Filipino (fil), Portuguese (pt), Korean (ko)"@
}

/// What a user is told who asked for a language that is not offered.
pub fn say_unsupported_language(language: &str) -> (text: String)
    ensures
        text@ == unsupported_language(language@),
{
    let mut text = "Language '".to_string();
    text.append(language);
    text.append("' is not currently supported.\nSupported: English (en), Hindi (hi), French (fr), Spanish (es), German (de), Filipino (fil), Portuguese (pt), Korean (ko)");
    text
}

/// What a user is told who subscribed to a language a second time.
pub open spec fn already_subscribed(code: Seq<char>) -> Seq<char> {
    "📖 You're already subscribed to **"@ + language_name_of(code) + "** translations in this channel."@
}

/// What a user is told who subscribed to a language a second time.
pub fn say_already_subscribed(code: &str) -> (text: String)
    ensures
        text@ == already_subscribed(code@),
{
    let mut text = "📖 You're already subscribed to **".to_string();
    text.append(language_name(code));
    text.append("** translations in this channel.");
    text
}

/// What a user is told who ended a subscription they do not have.
pub open spec fn not_subscribed(code: Seq<char>) -> Seq<char> {
    "📖 You're not subscribed to **"@ + language_name_of(code) + "** translations in this channel."@
}

/// What a user is told who ended a subscription they do not have.
pub fn say_not_subscribed(code: &str) -> (text: String)
    ensures
        text@ == not_subscribed(code@),
{
    let mut text = "📖 You're not subscribed to **".to_string();
    text.append(language_name(code));
    text.append("** translations in this channel.");
    text
}

/// What a user is told who ended their last subscription in a channel.
pub open spec fn unsubscribed_last(code: Seq<char>) -> Seq<char> {
    "✅ Unsubscribed from **"@ + language_name_of(code) + "** translations. You have no remaining subscriptions in this channel."@
}

/// What a user is told who ended their last subscription in a channel.
pub fn say_unsubscribed_last(code: &str) -> (text: String)
    ensures
        text@ == unsubscribed_last(code@),
{
    let mut text = "✅ Unsubscribed from **".to_string();
    text.append(language_name(code));
    text.append("** translations. You have no remaining subscriptions in this channel.");
    text
}

/// What a user is told who set a dialect preference.
pub open spec fn dialect_set(code: Seq<char>, dialect: Seq<char>) -> Seq<char> {
    "🗣️ Dialect preference set!\n**Language:** "@ + language_name_of(code) + "\n**Dialect:** "@ + dialect + "\n\nWhen others translate to "@ + language_name_of(code) + " for you, they'll use your preferred dialect."@
}

/// What a user is told who set a dialect preference.
pub fn say_dialect_set(code: &str, dialect: &str) -> (text: String)
    ensures
        text@ == dialect_set(code@, dialect@),
{
    let mut text = "🗣️ Dialect preference set!\n**Language:** ".to_string();
    text.append(language_name(code));
    text.append("\n**Dialect:** ");
    text.append(dialect);
    text.append("\n\nWhen others translate to ");
    text.append(language_name(code));
    text.append(" for you, they'll use your preferred dialect.");
    text
}

/// What a user is told who cleared a dialect preference.
pub open spec fn dialect_cleared(code: Seq<char>) -> Seq<char> {
    "🗣️ Cleared dialect preference for **"@ + language_name_of(code) + "**. Default dialect will be used."@
}

/// What a user is told who cleared a dialect preference.
pub fn say_dialect_cleared(code: &str) -> (text: String)
    ensures
        text@ == dialect_cleared(code@),
{
    let mut text = "🗣️ Cleared dialect preference for **".to_string();
    text.append(language_name(code));
    text.append("**. Default dialect will be used.");
    text
}

/// What a user is told who set a default language.
pub open spec fn default_set(code: Seq<char>) -> Seq<char> {
    "🌐 Default language set to **"@ + language_name_of(code) + "**!\n\nNow `/fabrica translate last` will translate to "@ + language_name_of(code) + " by default."@
}

/// What a user is told who set a default language.
pub fn say_default_set(code: &str) -> (text: String)
    ensures
        text@ == default_set(code@),
{
    let mut text = "🌐 Default language set to **".to_string();
    text.append(language_name(code));
    text.append("**!\n\nNow `/fabrica translate last` will translate to ");
    text.append(language_name(code));
    text.append(" by default.");
    text
}

/// What a user is told who asked for a channel's mode. `summary` is the mode's summary.
pub open spec fn mode_shown(summary: Seq<char>) -> Seq<char> {
    "📖 Channel translation mode: "@ + summary
}

/// What a user is told who asked for a channel's mode. `summary` is the mode's summary.
pub fn say_mode(summary: &str) -> (text: String)
    ensures
        text@ == mode_shown(summary@),
{
    let mut text = "📖 Channel translation mode: ".to_string();
    text.append(summary);
    text
}

/// What a user is told who set a channel's mode. `announcement` is the mode's announcement.
pub open spec fn mode_changed(announcement: Seq<char>) -> Seq<char> {
    "✅ "@ + announcement
}

/// What a user is told who set a channel's mode. `announcement` is the mode's announcement.
pub fn say_mode_changed(announcement: &str) -> (text: String)
    ensures
        text@ == mode_changed(announcement@),
{
    let mut text = "✅ ".to_string();
    text.append(announcement);
    text
}

/// What an administrator is told who granted a permission. `target` names who got it, `meaning` what it allows.
pub open spec fn permission_granted(target: Seq<char>, meaning: Seq<char>) -> Seq<char> {
    target + " can now "@ + meaning + "."@
}

/// What an administrator is told who granted a permission. `target` names who got it, `meaning` what it allows.
pub fn say_permission_granted(target: &str, meaning: &str) -> (text: String)
    ensures
        text@ == permission_granted(target@, meaning@),
{
    let mut text = target.to_string();
    text.append(" can now ");
    text.append(meaning);
    text.append(".");
    text
}

/// What an administrator is told who revoked a permission.
pub open spec fn permission_revoked(target: Seq<char>, meaning: Seq<char>) -> Seq<char> {
    target + " can no longer "@ + meaning + "."@
}

/// What an administrator is told who revoked a permission.
pub fn say_permission_revoked(target: &str, meaning: &str) -> (text: String)
    ensures
        text@ == permission_revoked(target@, meaning@),
{
    let mut text = target.to_string();
    text.append(" can no longer ");
    text.append(meaning);
    text.append(".");
    text
}

/// What a user is told whose schedule could not be read. `reason` says why.
pub open spec fn schedule_rejected(reason: Seq<char>) -> Seq<char> {
    "⚠️ Couldn't parse schedule: "@ + reason + "\n\n**Examples:**\n• `/fabrica hours Mon,Tue,Wed,Thu,Fri 9:30 to 23:30`\n• `/fabrica hours M-F 9:30 to 23:30`\n• `/fabrica hours today 9:30 to 23:30`\n• `/fabrica hours today until 23:30`\n• `/fabrica hours until 23:30`"@
}

/// What a user is told whose schedule could not be read. `reason` says why.
pub fn say_schedule_rejected(reason: &str) -> (text: String)
    ensures
        text@ == schedule_rejected(reason@),
{
    let mut text = "⚠️ Couldn't parse schedule: ".to_string();
    text.append(reason);
    text.append("\n\n**Examples:**\n• `/fabrica hours Mon,Tue,Wed,Thu,Fri 9:30 to 23:30`\n• `/fabrica hours M-F 9:30 to 23:30`\n• `/fabrica hours today 9:30 to 23:30`\n• `/fabrica hours today until 23:30`\n• `/fabrica hours until 23:30`");
    text
}

/// What a user is told who set weekly hours. `days` is how the days are shown.
pub open spec fn weekly_hours_set(days: Seq<char>, start: Seq<char>, end: Seq<char>) -> Seq<char> {
    "⏰ Set schedule: **"@ + days + "** from **"@ + start + "** to **"@ + end + "**"@
}

/// What a user is told who set weekly hours. `days` is how the days are shown.
pub fn say_weekly_hours_set(days: &str, start: &str, end: &str) -> (text: String)
    ensures
        text@ == weekly_hours_set(days@, start@, end@),
{
    let mut text = "⏰ Set schedule: **".to_string();
    text.append(days);
    text.append("** from **");
    text.append(start);
    text.append("** to **");
    text.append(end);
    text.append("**");
    text
}

/// What a user is told who set hours for today.
pub open spec fn today_hours_set(start: Seq<char>, end: Seq<char>) -> Seq<char> {
    "⏰ Set for today: **"@ + start + "** to **"@ + end + "**"@
}

/// What a user is told who set hours for today.
pub fn say_today_hours_set(start: &str, end: &str) -> (text: String)
    ensures
        text@ == today_hours_set(start@, end@),
{
    let mut text = "⏰ Set for today: **".to_string();
    text.append(start);
    text.append("** to **");
    text.append(end);
    text.append("**");
    text
}

/// What a user is told who set an end for today.
pub open spec fn today_until_set(end: Seq<char>) -> Seq<char> {
    "⏰ Available today until **"@ + end + "**"@
}

/// What a user is told who set an end for today.
pub fn say_today_until_set(end: &str) -> (text: String)
    ensures
        text@ == today_until_set(end@),
{
    let mut text = "⏰ Available today until **".to_string();
    text.append(end);
    text.append("**");
    text
}

/// What a user is told whose time zone is not known.
pub open spec fn unknown_timezone(input: Seq<char>) -> Seq<char> {
    "⚠️ Unknown timezone: `"@ + input + "`\n\nExamples: `London`, `New York`, `Tokyo`, `Europe/Paris`, `America/Los_Angeles`"@
}

/// What a user is told whose time zone is not known.
pub fn say_unknown_timezone(input: &str) -> (text: String)
    ensures
        text@ == unknown_timezone(input@),
{
    let mut text = "⚠️ Unknown timezone: `".to_string();
    text.append(input);
    text.append("`\n\nExamples: `London`, `New York`, `Tokyo`, `Europe/Paris`, `America/Los_Angeles`");
    text
}

/// What a user is told who set their own time zone.
pub open spec fn timezone_set(zone: Seq<char>) -> Seq<char> {
    "🌍 Timezone set to **"@ + zone + "**"@
}

/// What a user is told who set their own time zone.
pub fn say_timezone_set(zone: &str) -> (text: String)
    ensures
        text@ == timezone_set(zone@),
{
    let mut text = "🌍 Timezone set to **".to_string();
    text.append(zone);
    text.append("**");
    text
}

/// What an administrator is told who set the time zone of the user `user`.
pub open spec fn timezone_set_for(user: Seq<char>, zone: Seq<char>) -> Seq<char> {
    "🌍 Set <@"@ + user + "> timezone to **"@ + zone + "**"@
}

/// What an administrator is told who set the time zone of the user `user`.
pub fn say_timezone_set_for(user: &str, zone: &str) -> (text: String)
    ensures
        text@ == timezone_set_for(user@, zone@),
{
    let mut text = "🌍 Set <@".to_string();
    text.append(user);
    text.append("> timezone to **");
    text.append(zone);
    text.append("**");
    text
}

/// What a user is told who set their time format. `label` names the format.
pub open spec fn time_format_set(label: Seq<char>) -> Seq<char> {
    "🕐 Time format set to **"@ + label + "**"@
}

/// What a user is told who set their time format. `label` names the format.
pub fn say_time_format_set(label: &str) -> (text: String)
    ensures
        text@ == time_format_set(label@),
{
    let mut text = "🕐 Time format set to **".to_string();
    text.append(label);
    text.append("**");
    text
}

/// What is told about a repository.
pub open spec fn repository_overview(name: Seq<char>) -> Seq<char> {
    "📦 **Repository: "@ + name + "**\n\n⚠️ GitHub integration coming soon!\nThis will show repo stats, recent activity, and open PRs."@
}

/// What is told about a repository.
pub fn say_repository(name: &str) -> (text: String)
    ensures
        text@ == repository_overview(name@),
{
    let mut text = "📦 **Repository: ".to_string();
    text.append(name);
    text.append("**\n\n⚠️ GitHub integration coming soon!\nThis will show repo stats, recent activity, and open PRs.");
    text
}

/// What is told about the open pull requests of a repository.
pub open spec fn pull_requests_overview(repo: Seq<char>) -> Seq<char> {
    "🔀 **Open PRs for "@ + repo + "**\n\n⚠️ GitHub integration coming soon!"@
}

/// What is told about the open pull requests of a repository.
pub fn say_pull_requests(repo: &str) -> (text: String)
    ensures
        text@ == pull_requests_overview(repo@),
{
    let mut text = "🔀 **Open PRs for ".to_string();
    text.append(repo);
    text.append("**\n\n⚠️ GitHub integration coming soon!");
    text
}

/// What a channel is told that began to watch a repository. `level` names the level, `described` says what it tells.
pub open spec fn repository_watched(repo: Seq<char>, level: Seq<char>, described: Seq<char>) -> Seq<char> {
    "✅ This channel is now watching **"@ + repo + "** at **"@ + level + "** level.\nYou'll receive notifications about:\n"@ + described
}

/// What a channel is told that began to watch a repository. `level` names the level, `described` says what it tells.
pub fn say_repository_watched(repo: &str, level: &str, described: &str) -> (text: String)
    ensures
        text@ == repository_watched(repo@, level@, described@),
{
    let mut text = "✅ This channel is now watching **".to_string();
    text.append(repo);
    text.append("** at **");
    text.append(level);
    text.append("** level.\nYou'll receive notifications about:\n");
    text.append(described);
    text
}

/// What a channel is told that began to watch a project.
pub open spec fn project_watched(project: Seq<char>, level: Seq<char>) -> Seq<char> {
    "✅ This channel is now watching **"@ + project + "** at **"@ + level + "** level.\nYou'll receive notifications about project activity."@
}

/// What a channel is told that began to watch a project.
pub fn say_project_watched(project: &str, level: &str) -> (text: String)
    ensures
        text@ == project_watched(project@, level@),
{
    let mut text = "✅ This channel is now watching **".to_string();
    text.append(project);
    text.append("** at **");
    text.append(level);
    text.append("** level.\nYou'll receive notifications about project activity.");
    text
}

/// What a channel is told that stopped watching a repository or a project.
pub open spec fn watch_ended(name: Seq<char>) -> Seq<char> {
    "✅ This channel is no longer watching **"@ + name + "**."@
}

/// What a channel is told that stopped watching a repository or a project.
pub fn say_watch_ended(name: &str) -> (text: String)
    ensures
        text@ == watch_ended(name@),
{
    let mut text = "✅ This channel is no longer watching **".to_string();
    text.append(name);
    text.append("**.");
    text
}

/// What is told about a project.
pub open spec fn project_overview(name: Seq<char>) -> Seq<char> {
    "📊 **"@ + name + "**\n\n⚠️ Plane integration coming soon!\nThis will show project status, sprint progress, and open issues."@
}

/// What is told about a project.
pub fn say_project(name: &str) -> (text: String)
    ensures
        text@ == project_overview(name@),
{
    let mut text = "📊 **".to_string();
    text.append(name);
    text.append("**\n\n⚠️ Plane integration coming soon!\nThis will show project status, sprint progress, and open issues.");
    text
}

/// What is told about the issues of a project.
pub open spec fn issues_overview(project: Seq<char>, filter: Seq<char>) -> Seq<char> {
    "📋 **Issues for "@ + project + "** (filter: "@ + filter + ")\n\n⚠️ Plane integration coming soon!"@
}

/// What is told about the issues of a project.
pub fn say_issues(project: &str, filter: &str) -> (text: String)
    ensures
        text@ == issues_overview(project@, filter@),
{
    let mut text = "📋 **Issues for ".to_string();
    text.append(project);
    text.append("** (filter: ");
    text.append(filter);
    text.append(")\n\n⚠️ Plane integration coming soon!");
    text
}

/// What is told about the sprint of a project.
pub open spec fn sprint_overview(project: Seq<char>) -> Seq<char> {
    "🏃 **Sprint Status** for "@ + project + "\n\n⚠️ Plane integration coming soon!"@
}

/// What is told about the sprint of a project.
pub fn say_sprint(project: &str) -> (text: String)
    ensures
        text@ == sprint_overview(project@),
{
    let mut text = "🏃 **Sprint Status** for ".to_string();
    text.append(project);
    text.append("\n\n⚠️ Plane integration coming soon!");
    text
}

/// The names of the languages `codes`, with `, ` between them.
pub open spec fn language_names(codes: Seq<Seq<char>>) -> Seq<char>
    decreases codes.len(),
{
    if codes.len() == 0 {
        Seq::empty()
    } else if codes.len() == 1 {
        language_name_of(codes[0])
    } else {
        language_names(codes.drop_last()) + ", "@ + language_name_of(codes.last())
    }
}

/// The names of the languages `codes`, with `, ` between them.
pub fn list_language_names(codes: &Vec<String>) -> (text: String)
    ensures
        text@ == language_names(codes.deep_view()),
{
    let ghost all = codes.deep_view();
    let mut text = String::new();
    let mut i: usize = 0;
    while i < codes.len()
        invariant
            i <= codes.len(),
            all == codes.deep_view(),
            text@ == language_names(all.take(i as int)),
        decreases codes.len() - i,
    {
        assert(all.take(i + 1).drop_last() =~= all.take(i as int));
        if i > 0 {
            text.append(", ");
        } else {
            assert(Seq::<char>::empty() + language_name_of(all[0]) =~= language_name_of(all[0]));
        }
        text.append(language_name(codes[i].as_str()));
        i += 1;
    }
    assert(all.take(codes.len() as int) =~= all);
    text
}

/// What a user is told who subscribed to a language. `all` are the user's
/// subscriptions in the channel.
pub open spec fn subscribed_text(code: Seq<char>, all: Seq<Seq<char>>) -> Seq<char> {
    "✅ Subscribed to **"@ + language_name_of(code)
        + "** translations in this channel.\nYour subscriptions: **"@ + language_names(all)
        + "**\n\n⚠️ *Translations are machine-generated and may contain inaccuracies.*"@
}

/// What a user is told who subscribed to a language.
pub fn say_subscribed(code: &str, all: &Vec<String>) -> (text: String)
    ensures
        text@ == subscribed_text(code@, all.deep_view()),
{
    let mut text = "✅ Subscribed to **".to_string();
    text.append(language_name(code));
    text.append("** translations in this channel.\nYour subscriptions: **");
    text.append(list_language_names(all).as_str());
    text.append("**\n\n⚠️ *Translations are machine-generated and may contain inaccuracies.*");
    text
}

/// What a user is told who ended a subscription and has others left in the
/// channel; with none left, see `unsubscribed_last`.
pub open spec fn unsubscribed_text(code: Seq<char>, remaining: Seq<Seq<char>>) -> Seq<char> {
    if remaining.len() == 0 {
        unsubscribed_last(code)
    } else {
        "✅ Unsubscribed from **"@ + language_name_of(code)
            + "** translations.\nRemaining subscriptions: **"@ + language_names(remaining) + "**"@
    }
}

/// What a user is told who ended a subscription.
pub fn say_unsubscribed(code: &str, remaining: &Vec<String>) -> (text: String)
    ensures
        text@ == unsubscribed_text(code@, remaining.deep_view()),
{
    if remaining.len() == 0 {
        return say_unsubscribed_last(code);
    }
    let mut text = "✅ Unsubscribed from **".to_string();
    text.append(language_name(code));
    text.append("** translations.\nRemaining subscriptions: **");
    text.append(list_language_names(remaining).as_str());
    text.append("**");
    text
}

/// What a user is told who asked to unsubscribe without naming a language.
pub open spec fn subscriptions_text(subscriptions: Seq<Seq<char>>) -> Seq<char> {
    if subscriptions.len() == 0 {
        "📖 You have no translation subscriptions in this channel."@
    } else {
        "📖 Your subscriptions: **"@ + language_names(subscriptions)
            + "**\nTo unsubscribe, use `/fabrica translate unsubscribe <language>` or `all` to remove all."@
    }
}

/// What a user is told who asked to unsubscribe without naming a language.
pub fn say_subscriptions(subscriptions: &Vec<String>) -> (text: String)
    ensures
        text@ == subscriptions_text(subscriptions.deep_view()),
{
    if subscriptions.len() == 0 {
        return "📖 You have no translation subscriptions in this channel.".to_string();
    }
    let mut text = "📖 Your subscriptions: **".to_string();
    text.append(list_language_names(subscriptions).as_str());
    text.append(
        "**\nTo unsubscribe, use `/fabrica translate unsubscribe <language>` or `all` to remove all.",
    );
    text
}

/// What a user is told who asked how translation stands for them in a
/// channel. `mode` is the name of the channel's mode.
pub open spec fn translation_status_text(subscriptions: Seq<Seq<char>>, mode: Seq<char>, debug: bool)
    -> Seq<char> {
    if subscriptions.len() == 0 {
        "📖 You have no translation subscriptions in this channel.\nChannel mode: **"@ + mode
            + "**"@
    } else {
        "📖 Your subscriptions: **"@ + language_names(subscriptions) + "**\nChannel mode: **"@
            + mode + "**"@ + (if debug {
            "\n🔧 Debug mode: **ON**"@
        } else {
            Seq::empty()
        })
    }
}

/// What a user is told who asked how translation stands for them in a channel.
pub fn say_translation_status(subscriptions: &Vec<String>, mode: &str, debug: bool) -> (text: String)
    ensures
        text@ == translation_status_text(subscriptions.deep_view(), mode@, debug),
{
    if subscriptions.len() == 0 {
        let mut text =
            "📖 You have no translation subscriptions in this channel.\nChannel mode: **".to_string();
        text.append(mode);
        text.append("**");
        return text;
    }
    let mut text = "📖 Your subscriptions: **".to_string();
    text.append(list_language_names(subscriptions).as_str());
    text.append("**\nChannel mode: **");
    text.append(mode);
    text.append("**");
    if debug {
        text.append("\n🔧 Debug mode: **ON**");
    } else {
        assert(text@ + Seq::<char>::empty() =~= text@);
    }
    text
}

/// What a user is told who switched debugging on or off.
pub open spec fn debug_text(enabled: bool) -> Seq<char> {
    if enabled {
        "🔧 Debug mode **ON** - You'll receive DM translations of your own messages in this channel."@
    } else {
        "🔧 Debug mode **OFF** - You won't receive translations of your own messages in this channel."@
    }
}

/// What a user is told who switched debugging on or off.
pub fn say_debug(enabled: bool) -> (text: &'static str)
    ensures
        text@ == debug_text(enabled),
{
    if enabled {
        "🔧 Debug mode **ON** - You'll receive DM translations of your own messages in this channel."
    } else {
        "🔧 Debug mode **OFF** - You won't receive translations of your own messages in this channel."
    }
}

/// The lines of a list of dialect preferences.
pub open spec fn dialect_lines(entries: Seq<DialectEntry>) -> Seq<char>
    decreases entries.len(),
{
    if entries.len() == 0 {
        Seq::empty()
    } else {
        dialect_lines(entries.drop_last()) + "• **"@ + language_name_of(entries.last().language@)
            + "**: "@ + entries.last().dialect@ + "\n"@
    }
}

/// What a user is told who asked for their dialect preferences.
pub open spec fn dialects_text(entries: Seq<DialectEntry>) -> Seq<char> {
    if entries.len() == 0 {
        "🗣️ You have no dialect preferences set.\n\nUse `/fabrica translate dialect <language> <dialect>` to set one.\nExamples:\n• `/fabrica translate dialect filipino bisaya`\n• `/fabrica translate dialect chinese cantonese`\n• `/fabrica translate dialect spanish mexican`"@
    } else {
        "🗣️ **Your Dialect Preferences**\n\n"@ + dialect_lines(entries)
            + "\nUse `/fabrica translate dialect <language> <dialect>` to change."@
    }
}

/// What a user is told who asked for their dialect preferences.
pub fn say_dialects(entries: &Vec<DialectEntry>) -> (text: String)
    ensures
        text@ == dialects_text(entries@),
{
    if entries.len() == 0 {
        return "🗣️ You have no dialect preferences set.\n\nUse `/fabrica translate dialect <language> <dialect>` to set one.\nExamples:\n• `/fabrica translate dialect filipino bisaya`\n• `/fabrica translate dialect chinese cantonese`\n• `/fabrica translate dialect spanish mexican`".to_string();
    }
    let mut lines = String::new();
    let mut i: usize = 0;
    while i < entries.len()
        invariant
            i <= entries.len(),
            lines@ == dialect_lines(entries@.take(i as int)),
        decreases entries.len() - i,
    {
        assert(entries@.take(i + 1).drop_last() =~= entries@.take(i as int));
        lines.append("• **");
        lines.append(language_name(entries[i].language.as_str()));
        lines.append("**: ");
        lines.append(entries[i].dialect.as_str());
        lines.append("\n");
        i += 1;
    }
    assert(entries@.take(entries.len() as int) =~= entries@);
    let mut text = "🗣️ **Your Dialect Preferences**\n\n".to_string();
    text.append(lines.as_str());
    text.append("\nUse `/fabrica translate dialect <language> <dialect>` to change.");
    text
}

/// What a user is told who asked for their default language.
pub open spec fn default_text(default: Option<Seq<char>>) -> Seq<char> {
    match default {
        Some(code) => "🌐 Your default translation language is **"@ + language_name_of(code)
            + "**."@,
        None =>
            "🌐 You haven't set a default language yet.\n\nUse `/fabrica translate default <language>` to set one.\nWithout a default, `/fabrica translate last` uses your first subscription."@,
    }
}

/// What a user is told who asked for their default language.
pub fn say_default(default: &Option<String>) -> (text: String)
    ensures
        text@ == default_text(default.deep_view()),
{
    match default {
        Some(code) => {
            let mut text = "🌐 Your default translation language is **".to_string();
            text.append(language_name(code.as_str()));
            text.append("**.");
            text
        },
        None =>
            "🌐 You haven't set a default language yet.\n\nUse `/fabrica translate default <language>` to set one.\nWithout a default, `/fabrica translate last` uses your first subscription.".to_string(),
    }
}

/// What the user asks for by the language given to the unsubscribe
/// command: the word `all`, in any letter case, for every subscription, any
/// other word for the language it stands for.
pub open spec fn unsubscribe_request(language: Option<Seq<char>>) -> Option<Option<Seq<char>>> {
    match language {
        Some(l) => if lowercase(l) == "all"@ {
            Some(None)
        } else {
            Some(Some(normalized_language(l)))
        },
        None => None,
    }
}

impl UnsubscribeRequest {
    /// The request as plain values: nothing for the list, an empty
    /// something for all, and the language for one.
    pub open spec fn plain(self) -> Option<Option<Seq<char>>> {
        match self {
            UnsubscribeRequest::All => Some(None),
            UnsubscribeRequest::One(code) => Some(Some(code@)),
            UnsubscribeRequest::List => None,
        }
    }

    /// Reads the language given to the unsubscribe command.
    pub fn read(language: Option<&str>) -> (request: UnsubscribeRequest)
        ensures
            request.plain() == unsubscribe_request(
                match language {
                    Some(l) => Some(l@),
                    None => None,
                },
            ),
    {
        match language {
            Some(l) => {
                if l.to_lowercase().as_str().eq("all") {
                    UnsubscribeRequest::All
                } else {
                    UnsubscribeRequest::One(normalize_language(l))
                }
            },
            None => UnsubscribeRequest::List,
        }
    }
}

/// How a grantee is shown: everyone by that word, a role by its mention.
pub open spec fn grantee_text(role: Seq<char>) -> Seq<char> {
    if role == "everyone"@ {
        "**everyone**"@
    } else {
        "<@&"@ + role + ">"@
    }
}

/// The grantees of `permission` among `grants`, with `, ` between them.
pub open spec fn grantees(grants: Seq<Grant>, permission: Seq<char>) -> Seq<char>
    decreases grants.len(),
{
    if grants.len() == 0 {
        Seq::empty()
    } else {
        let before = grantees(grants.drop_last(), permission);
        if grants.last().permission@ == permission {
            if before.len() == 0 {
                grantee_text(grants.last().role@)
            } else {
                before + ", "@ + grantee_text(grants.last().role@)
            }
        } else {
            before
        }
    }
}

/// The list of a server's permissions under the heading `title`.
pub open spec fn permissions_text(title: Seq<char>, grants: Seq<Grant>) -> Seq<char> {
    if grants.len() == 0 {
        "📊 **"@ + title
            + "**\n\nNo custom role permissions configured.\nOnly users with **MANAGE_CHANNELS** or **ADMINISTRATOR** can manage translation settings.\n\nUse `/fabrica server allow mode @role` to grant a role permission to change translation modes."@
    } else {
        "📊 **"@ + title + "**\n\n"@ + (if grantees(grants, "admin"@).len() == 0 {
            Seq::empty()
        } else {
            "**Admin:** "@ + grantees(grants, "admin"@) + "\n"@
        }) + (if grantees(grants, "mode"@).len() == 0 {
            Seq::empty()
        } else {
            "**Mode:** "@ + grantees(grants, "mode"@) + "\n"@
        }) + "\n_Admin can manage all settings. Mode can change translation modes._"@
    }
}

/// The grantees of `permission` among `grants`.
fn list_grantees(grants: &Vec<Grant>, permission: &str) -> (text: String)
    ensures
        text@ == grantees(grants@, permission@),
{
    let mut text = String::new();
    let mut i: usize = 0;
    while i < grants.len()
        invariant
            i <= grants.len(),
            text@ == grantees(grants@.take(i as int), permission@),
        decreases grants.len() - i,
    {
        assert(grants@.take(i + 1).drop_last() =~= grants@.take(i as int));
        if grants[i].permission.as_str().eq(permission) {
            let ghost before = text@;
            if !text.as_str().is_empty() {
                text.append(", ");
            }
            if grants[i].role.as_str().eq("everyone") {
                text.append("**everyone**");
            } else {
                text.append("<@&");
                text.append(grants[i].role.as_str());
                text.append(">");
            }
            assert(text@ =~= if before.len() == 0 {
                grantee_text(grants[i as int].role@)
            } else {
                before + ", "@ + grantee_text(grants[i as int].role@)
            });
        }
        i += 1;
    }
    assert(grants@.take(grants.len() as int) =~= grants@);
    text
}

/// The list of a server's permissions under the heading `title`.
pub fn say_permissions(title: &str, grants: &Vec<Grant>) -> (text: String)
    ensures
        text@ == permissions_text(title@, grants@),
{
    let mut text = "📊 **".to_string();
    text.append(title);
    if grants.len() == 0 {
        text.append(
            "**\n\nNo custom role permissions configured.\nOnly users with **MANAGE_CHANNELS** or **ADMINISTRATOR** can manage translation settings.\n\nUse `/fabrica server allow mode @role` to grant a role permission to change translation modes.",
        );
        return text;
    }
    text.append("**\n\n");
    let ghost top = text@;
    let admins = list_grantees(grants, "admin");
    if !admins.as_str().is_empty() {
        text.append("**Admin:** ");
        text.append(admins.as_str());
        text.append("\n");
        assert(text@ =~= top + ("**Admin:** "@ + admins@ + "\n"@));
    } else {
        assert(text@ =~= top + Seq::<char>::empty());
    }
    let ghost middle = text@;
    let modes = list_grantees(grants, "mode");
    if !modes.as_str().is_empty() {
        text.append("**Mode:** ");
        text.append(modes.as_str());
        text.append("\n");
        assert(text@ =~= middle + ("**Mode:** "@ + modes@ + "\n"@));
    } else {
        assert(text@ =~= middle + Seq::<char>::empty());
    }
    text.append("\n_Admin can manage all settings. Mode can change translation modes._");
    text
}

/// Who a permission is meant for, given what the command was handed: the
/// word typed for everyone comes first, then the role.
pub open spec fn grant_target(everyone: Option<Seq<char>>, role: Option<Seq<char>>) -> Option<
    Option<Seq<char>>,
> {
    match everyone {
        Some(word) => if lowercase(word) == "everyone"@ {
            Some(Some("everyone"@))
        } else {
            Some(None)
        },
        None => match role {
            Some(id) => Some(Some(id)),
            None => None,
        },
    }
}

impl GrantTarget {
    /// The target as plain values: the grantee's name in the registry where
    /// there is a grantee, an empty something for an invalid word, and
    /// nothing where nothing was given.
    pub open spec fn plain(self) -> Option<Option<Seq<char>>> {
        match self {
            GrantTarget::Everyone => Some(Some("everyone"@)),
            GrantTarget::Role(id) => Some(Some(id@)),
            GrantTarget::Invalid => Some(None),
            GrantTarget::Missing => None,
        }
    }

    /// Decides who a permission is meant for.
    pub fn read(everyone: Option<&str>, role: Option<&str>) -> (target: GrantTarget)
        ensures
            target.plain() == grant_target(
                match everyone {
                    Some(w) => Some(w@),
                    None => None,
                },
                match role {
                    Some(r) => Some(r@),
                    None => None,
                },
            ),
            target is Everyone <==> (everyone matches Some(w) && lowercase(w@) == "everyone"@),
    {
        match everyone {
            Some(word) => {
                if word.to_lowercase().as_str().eq("everyone") {
                    GrantTarget::Everyone
                } else {
                    GrantTarget::Invalid
                }
            },
            None => match role {
                Some(id) => GrantTarget::Role(id.to_string()),
                None => GrantTarget::Missing,
            },
        }
    }
}

/// Whether the team list is to be visible to everyone, given what was typed
/// for its visibility.
pub open spec fn public_asked(visibility: Option<Seq<char>>) -> bool {
    match visibility {
        Some(v) => lowercase(crate::text::trimmed(v)) == "public"@ || crate::text::trimmed(v) == "!"@,
        None => false,
    }
}

/// The lines of a weekly schedule.
pub open spec fn hours_lines(week: Seq<DayHours>) -> Seq<char>
    decreases week.len(),
{
    if week.len() == 0 {
        Seq::empty()
    } else {
        hours_lines(week.drop_last()) + "  "@ + day_name_of(week.last().day) + ": "@
            + week.last().start@ + " to "@ + week.last().end@ + "\n"@
    }
}

/// What a user is told who asked for their hours.
pub open spec fn hours_text(today: Option<TodayHours>, week: Seq<DayHours>) -> Seq<char> {
    "⏰ **Your Schedule**\n\n"@ + (match today {
        Some(hours) => match hours.start {
            Some(start) => "**Today:** "@ + start@ + " to "@ + hours.end@ + "\n\n"@,
            None => "**Today:** until "@ + hours.end@ + "\n\n"@,
        },
        None => Seq::empty(),
    }) + (if week.len() == 0 {
        "No weekly schedule set."@
    } else {
        "**Weekly:**\n"@ + hours_lines(week)
    })
}

/// What a user is told who asked for their hours.
pub fn say_hours(today: &Option<TodayHours>, week: &Vec<DayHours>) -> (text: String)
    ensures
        text@ == hours_text(*today, week@),
{
    let mut text = "⏰ **Your Schedule**\n\n".to_string();
    let ghost top = text@;
    match today {
        Some(hours) => match &hours.start {
            Some(start) => {
                text.append("**Today:** ");
                text.append(start.as_str());
                text.append(" to ");
                text.append(hours.end.as_str());
                text.append("\n\n");
                assert(text@ =~= top + ("**Today:** "@ + start@ + " to "@ + hours.end@ + "\n\n"@));
            },
            None => {
                text.append("**Today:** until ");
                text.append(hours.end.as_str());
                text.append("\n\n");
                assert(text@ =~= top + ("**Today:** until "@ + hours.end@ + "\n\n"@));
            },
        },
        None => {
            assert(text@ =~= top + Seq::<char>::empty());
        },
    }
    if week.len() == 0 {
        text.append("No weekly schedule set.");
        return text;
    }
    let ghost middle = text@;
    let mut lines = String::new();
    let mut i: usize = 0;
    while i < week.len()
        invariant
            i <= week.len(),
            lines@ == hours_lines(week@.take(i as int)),
        decreases week.len() - i,
    {
        assert(week@.take(i + 1).drop_last() =~= week@.take(i as int));
        lines.append("  ");
        lines.append(day_name(week[i].day));
        lines.append(": ");
        lines.append(week[i].start.as_str());
        lines.append(" to ");
        lines.append(week[i].end.as_str());
        lines.append("\n");
        i += 1;
    }
    assert(week@.take(week.len() as int) =~= week@);
    text.append("**Weekly:**\n");
    text.append(lines.as_str());
    assert(text@ =~= middle + ("**Weekly:**\n"@ + hours_lines(week@)));
    text
}

/// What a user is told who asked for their settings. `format_label` names
/// the time format.
pub open spec fn settings_text(timezone: Seq<char>, format_label: Seq<char>, always_shown: bool)
    -> Seq<char> {
    "⚙️ **Your Settings**\n\n**Timezone:** "@ + timezone + "\n**Time format:** "@ + format_label
        + "\n**Always show me:** "@ + (if always_shown {
        "Yes"@
    } else {
        "No"@
    })
        + "\n\nUse `/fabrica settings timezone <zone>` to change timezone\nUse `/fabrica settings format 24h` or `/fabrica settings format 12h` to change format\nUse `/fabrica settings always-show-me` to toggle visibility in /team"@
}

/// What a user is told who asked for their settings.
pub fn say_settings(timezone: &str, format_label: &str, always_shown: bool) -> (text: String)
    ensures
        text@ == settings_text(timezone@, format_label@, always_shown),
{
    let mut text = "⚙️ **Your Settings**\n\n**Timezone:** ".to_string();
    text.append(timezone);
    text.append("\n**Time format:** ");
    text.append(format_label);
    text.append("\n**Always show me:** ");
    text.append(
        if always_shown {
            "Yes"
        } else {
            "No"
        },
    );
    text.append(
        "\n\nUse `/fabrica settings timezone <zone>` to change timezone\nUse `/fabrica settings format 24h` or `/fabrica settings format 12h` to change format\nUse `/fabrica settings always-show-me` to toggle visibility in /team",
    );
    text
}

/// What is told about the recent commits of a repository. Five are asked
/// for where no count is given.
pub open spec fn commits_text(repo: Seq<char>, count: Option<u32>) -> Seq<char> {
    "📝 **Recent "@ + decimal(
        match count {
            Some(n) => n as nat,
            None => 5,
        },
    ) + " commits for "@ + repo + "**\n\n⚠️ GitHub integration coming soon!"@
}

/// What is told about the recent commits of a repository.
pub fn say_commits(repo: &str, count: Option<u32>) -> (text: String)
    ensures
        text@ == commits_text(repo@, count),
{
    let shown: u32 = match count {
        Some(n) => n,
        None => 5,
    };
    let mut text = "📝 **Recent ".to_string();
    text.append(write_decimal(shown as u64).as_str());
    text.append(" commits for ");
    text.append(repo);
    text.append("**\n\n⚠️ GitHub integration coming soon!");
    text
}

/// Whether the key of the hosted backend is configured, in a word fit for a log.
pub open spec fn key_state(key: Seq<char>) -> Seq<char> {
    if key.len() == 0 {
        "EMPTY"@
    } else {
        "SET"@
    }
}

/// Whether the key of the hosted backend is configured, in a word fit for a log.
pub fn describe_key(key: &str) -> (state: &'static str)
    ensures
        state@ == key_state(key@),
{
    if key.is_empty() {
        "EMPTY"
    } else {
        "SET"
    }
}

/// Whether the team list is to be visible to everyone.
pub fn is_public_asked(visibility: Option<&str>) -> (public: bool)
    ensures
        public == public_asked(
            match visibility {
                Some(v) => Some(v@),
                None => None,
            },
        ),
{
    match visibility {
        Some(v) => {
            let word = crate::text::trim(v);
            word.as_str().to_lowercase().as_str().eq("public") || word.as_str().eq("!")
        },
        None => false,
    }
}

} // verus!

//! Presence: who is available, and what their day looks like.
//!
//! Everything here is self-reported. The functions compose what is shown and
//! read what users type for their settings.

use vstd::prelude::*;
use vstd::string::StringExecFns;
use crate::models::{UserSettings, UserStatus};
use crate::number::{bounded_value, decimal, parse_u8, two_digits, write_decimal, write_two_digits};
use crate::text::{find_char, from_chars, lowercase, position, to_chars, trim, trim_end, trim_trailing, trimmed};

verus! {

/// A busy user is listed among the team for this many seconds.
pub const BUSY_GRACE_SECONDS: i64 = 900;

/// Times further than this many seconds from the Unix epoch are not shown.
pub const CLOCK_LIMIT: i64 = 100_000_000_000;

/// A user as the team list shows them.
#[derive(Clone, Debug)]
pub struct TeamMember {
    pub status: UserStatus,
    pub settings: UserSettings,
    /// The end of today's hours, where the user set one.
    pub until: Option<String>,
}

/// Whether `chrono_tz` knows a time zone of this name.
pub uninterp spec fn zone_known(name: Seq<char>) -> bool;

/// Whether the two names are known to `chrono_tz` and name the same time zone.
pub uninterp spec fn zones_equal(a: Seq<char>, b: Seq<char>) -> bool;

/// The instant `now`, in seconds since the Unix epoch, as `chrono` writes it
/// in the time zone `zone` after the pattern `pattern`; nothing where the
/// zone is not known.
pub uninterp spec fn zone_format(zone: Seq<char>, now: i64, pattern: Seq<char>) -> Option<Seq<char>>;

/// The patterns in which times are written.
pub open spec fn clock_pattern(pattern: Seq<char>) -> bool {
    pattern == "%-I:%M%P"@ || pattern == "%H:%M"@ || pattern == "%Z"@
}

/// Asks `chrono_tz` whether it knows a time zone of this name, by parsing
/// the name as a `Tz`.
#[verifier::external_body]
fn is_known_zone(name: &str) -> (known: bool)
    ensures
        known == zone_known(name@),
{
    name.parse::<chrono_tz::Tz>().is_ok()
}

/// Parses both names as `chrono_tz::Tz` and compares the zones.
#[verifier::external_body]
fn is_same_zone(a: &str, b: &str) -> (same: bool)
    ensures
        same == zones_equal(a@, b@),
{
    match (a.parse::<chrono_tz::Tz>(), b.parse::<chrono_tz::Tz>()) {
        (Ok(x), Ok(y)) => x == y,
        _ => false,
    }
}

/// Writes the instant `now` in the time zone `zone` with `chrono`'s
/// `format`. The instant is kept within a range in which `chrono` can
/// represent the local time, and the pattern to those used here, which
/// `chrono` accepts.
#[verifier::external_body]
fn format_in_zone(zone: &str, now: i64, pattern: &str) -> (text: Option<String>)
    requires
        -CLOCK_LIMIT <= now <= CLOCK_LIMIT,
        clock_pattern(pattern@),
    ensures
        text.deep_view() == zone_format(zone@, now, pattern@),
{
    let tz = zone.parse::<chrono_tz::Tz>().ok()?;
    let local = chrono::DateTime::from_timestamp(now, 0)?.with_timezone(&tz);
    Some(local.format(pattern).to_string())
}

/// The hour on the 12-hour clock.
pub open spec fn half_day_hour(hour: nat) -> nat {
    if hour == 0 {
        12
    } else if hour <= 12 {
        hour
    } else {
        (hour - 12) as nat
    }
}

/// The half of the day that an hour falls in.
pub open spec fn half_day_mark(hour: nat) -> Seq<char> {
    if hour < 12 {
        "am"@
    } else {
        "pm"@
    }
}

/// A stored time as a user sees it. On the 12-hour clock a time of the form
/// `H:M` is rewritten; on the 24-hour clock, and for any other text, the
/// time is shown as it is stored.
pub open spec fn shown_time(time: Seq<char>, twelve_hour: bool) -> Seq<char> {
    if twelve_hour {
        match position(time, ':') {
            Some(at) => match (
                bounded_value(time.take(at), 255),
                bounded_value(time.skip(at + 1), 255),
            ) {
                (Some(hour), Some(minute)) => decimal(half_day_hour(hour)) + ":"@ + two_digits(
                    minute,
                ) + half_day_mark(hour),
                _ => time,
            },
            None => time,
        }
    } else {
        time
    }
}

/// The time format that a user's input stands for, if it names one.
pub open spec fn time_format_named(input: Seq<char>) -> Option<Seq<char>> {
    let l = lowercase(trimmed(input));
    if l == "24h"@ || l == "24"@ || l == "24-hour"@ || l == "24hour"@ {
        Some("24h"@)
    } else if l == "12h"@ || l == "12"@ || l == "12-hour"@ || l == "12hour"@ || l == "am-pm"@ || l
        == "ampm"@ || l == "am/pm"@ {
        Some("12h"@)
    } else {
        None
    }
}

/// How a time format is named to the user.
pub open spec fn time_format_label(format: Seq<char>) -> Seq<char> {
    if format == "12h"@ {
        "12-hour (am/pm)"@
    } else {
        "24-hour"@
    }
}

/// The time zone behind a city, a country or an abbreviation in lowercase.
pub open spec fn zone_alias(l: Seq<char>) -> Option<Seq<char>> {
    if l == "london"@ || l == "uk"@ || l == "gmt"@ || l == "bst"@ {
        Some("Europe/London"@)
    } else if l == "new york"@ || l == "nyc"@ || l == "est"@ || l == "edt"@ || l == "eastern"@ {
        Some("America/New_York"@)
    } else if l == "la"@ || l == "los angeles"@ || l == "pst"@ || l == "pdt"@ || l == "pacific"@ {
        Some("America/Los_Angeles"@)
    } else if l == "chicago"@ || l == "cst"@ || l == "cdt"@ || l == "central"@ {
        Some("America/Chicago"@)
    } else if l == "denver"@ || l == "mst"@ || l == "mdt"@ || l == "mountain"@ {
        Some("America/Denver"@)
    } else if l == "tokyo"@ || l == "jst"@ {
        Some("Asia/Tokyo"@)
    } else if l == "paris"@ || l == "cet"@ || l == "cest"@ {
        Some("Europe/Paris"@)
    } else if l == "berlin"@ {
        Some("Europe/Berlin"@)
    } else if l == "sydney"@ || l == "aest"@ || l == "aedt"@ {
        Some("Australia/Sydney"@)
    } else if l == "mumbai"@ || l == "ist"@ || l == "india"@ {
        Some("Asia/Kolkata"@)
    } else if l == "dubai"@ || l == "gst"@ {
        Some("Asia/Dubai"@)
    } else if l == "singapore"@ || l == "sgt"@ {
        Some("Asia/Singapore"@)
    } else if l == "hong kong"@ || l == "hkt"@ {
        Some("Asia/Hong_Kong"@)
    } else if l == "amsterdam"@ {
        Some("Europe/Amsterdam"@)
    } else if l == "toronto"@ {
        Some("America/Toronto"@)
    } else if l == "vancouver"@ {
        Some("America/Vancouver"@)
    } else if l == "seattle"@ {
        Some("America/Los_Angeles"@)
    } else if l == "san francisco"@ || l == "sf"@ {
        Some("America/Los_Angeles"@)
    } else {
        None
    }
}

/// The time zone that a user's input stands for: the input itself where it
/// is the name of a time zone, else the zone behind the alias it is.
pub open spec fn zone_named(input: Seq<char>) -> Option<Seq<char>> {
    let name = trimmed(input);
    if zone_known(name) {
        Some(name)
    } else {
        zone_alias(lowercase(name))
    }
}

/// How a user is referred to in a message.
pub open spec fn mention(user: Seq<char>) -> Seq<char> {
    "<@"@ + user + ">"@
}

/// What a user is told after setting a status.
pub open spec fn status_notice(emoji: Seq<char>, state: Seq<char>, message: Option<Seq<char>>) -> Seq<
    char,
> {
    match message {
        Some(m) => emoji + " You're now **"@ + state + "** - "@ + m,
        None => emoji + " You're now **"@ + state + "**"@,
    }
}

/// The line for one user in the list of who is available or busy.
pub open spec fn who_line(user: Seq<char>, message: Option<Seq<char>>) -> Seq<char> {
    match message {
        Some(m) => "  "@ + mention(user) + " - "@ + m + "\n"@,
        None => "  "@ + mention(user) + "\n"@,
    }
}

/// The lines for the users with one status.
pub open spec fn who_lines(statuses: Seq<UserStatus>) -> Seq<char>
    decreases statuses.len(),
{
    if statuses.len() == 0 {
        Seq::empty()
    } else {
        who_lines(statuses.drop_last()) + who_line(
            statuses.last().discord_id@,
            statuses.last().message.deep_view(),
        )
    }
}

/// The horizontal rule above and below a list.
pub open spec fn rule() -> Seq<char> {
    "───────────────────────────────"@
}

/// The list of who is available and who is busy.
pub open spec fn who_text(available: Seq<UserStatus>, busy: Seq<UserStatus>) -> Seq<char> {
    rule() + "\n"@ + "🟢 **Available** ("@ + decimal(available.len()) + ")\n"@ + (if available.len()
        == 0 {
        "  No one currently available\n"@
    } else {
        who_lines(available)
    }) + "\n"@ + "🟡 **Busy** ("@ + decimal(busy.len()) + ")\n"@ + (if busy.len() == 0 {
        "  No one currently busy\n"@
    } else {
        who_lines(busy)
    }) + rule()
}

/// Whether a user who has been busy since `since` is still listed at `now`.
pub open spec fn listed_when_busy(now: i64, since: i64, always_shown: bool) -> bool {
    now - since < BUSY_GRACE_SECONDS || always_shown
}

/// The pattern after which a viewer reads the time of day.
pub open spec fn viewer_pattern(twelve_hour: bool) -> Seq<char> {
    if twelve_hour {
        "%-I:%M%P"@
    } else {
        "%H:%M"@
    }
}

/// The part of a team member's line that tells their local time: nothing
/// where their time zone is not known or the time is out of range, and the
/// zone's abbreviation behind the time where the viewer lives in another zone.
pub open spec fn local_time_part(
    member_zone: Seq<char>,
    viewer_zone: Seq<char>,
    twelve_hour: bool,
    now: i64,
) -> Seq<char> {
    if -CLOCK_LIMIT <= now <= CLOCK_LIMIT {
        match zone_format(member_zone, now, viewer_pattern(twelve_hour)) {
            Some(time) => if zones_equal(member_zone, viewer_zone) {
                " 🕐 "@ + time
            } else {
                match zone_format(member_zone, now, "%Z"@) {
                    Some(abbreviation) => " 🕐 "@ + time + " "@ + abbreviation,
                    None => " 🕐 "@ + time,
                }
            },
            None => Seq::empty(),
        }
    } else {
        Seq::empty()
    }
}

/// The line for one member of the team.
pub open spec fn team_line(member: TeamMember, viewer: UserSettings, now: i64) -> Seq<char> {
    "  "@ + mention(member.status.discord_id@) + local_time_part(
        member.settings.timezone@,
        viewer.timezone@,
        viewer.twelve_hour(),
        now,
    ) + (match member.status.message {
        Some(m) => " - "@ + m@,
        None => Seq::empty(),
    }) + (match member.until {
        Some(end) => " (until "@ + shown_time(end@, viewer.twelve_hour()) + ")"@,
        None => Seq::empty(),
    }) + "\n"@
}

/// The line for one busy member: the member's line, and behind it the
/// minutes for which they have been busy, if it is a minute or more.
pub open spec fn busy_line(member: TeamMember, viewer: UserSettings, now: i64) -> Seq<char> {
    let minutes = (now - member.status.updated_at) / 60;
    if minutes > 0 {
        trim_end(team_line(member, viewer, now)) + " ("@ + decimal(minutes as nat) + "m)\n"@
    } else {
        team_line(member, viewer, now)
    }
}

/// The lines for the available members.
pub open spec fn available_lines(members: Seq<TeamMember>, viewer: UserSettings, now: i64) -> Seq<
    char,
>
    decreases members.len(),
{
    if members.len() == 0 {
        Seq::empty()
    } else {
        available_lines(members.drop_last(), viewer, now) + team_line(members.last(), viewer, now)
    }
}

/// The busy members that are listed, in their order.
pub open spec fn listed_busy(members: Seq<TeamMember>, now: i64) -> Seq<TeamMember>
    decreases members.len(),
{
    if members.len() == 0 {
        Seq::empty()
    } else if listed_when_busy(
        now,
        members.last().status.updated_at,
        members.last().settings.always_show_me,
    ) {
        listed_busy(members.drop_last(), now).push(members.last())
    } else {
        listed_busy(members.drop_last(), now)
    }
}

/// The lines for busy members.
pub open spec fn busy_lines(members: Seq<TeamMember>, viewer: UserSettings, now: i64) -> Seq<char>
    decreases members.len(),
{
    if members.len() == 0 {
        Seq::empty()
    } else {
        busy_lines(members.drop_last(), viewer, now) + busy_line(members.last(), viewer, now)
    }
}

/// The section of the team list for the available members.
pub open spec fn available_section(members: Seq<TeamMember>, viewer: UserSettings, now: i64) -> Seq<
    char,
> {
    if members.len() == 0 {
        Seq::empty()
    } else {
        "🟢 **Available**\n"@ + available_lines(members, viewer, now) + "\n"@
    }
}

/// The section of the team list for the busy members that are listed.
pub open spec fn busy_section(members: Seq<TeamMember>, viewer: UserSettings, now: i64) -> Seq<char> {
    if members.len() == 0 {
        Seq::empty()
    } else {
        "🟡 **Busy**\n"@ + busy_lines(members, viewer, now) + "\n"@
    }
}

/// The team list: the available members, then the busy members that are
/// listed. Members who are away are never listed.
pub open spec fn team_text(
    available: Seq<TeamMember>,
    busy: Seq<TeamMember>,
    viewer: UserSettings,
    now: i64,
) -> Seq<char> {
    if available.len() == 0 && listed_busy(busy, now).len() == 0 {
        "No team members are currently visible."@
    } else {
        rule() + "\n"@ + available_section(available, viewer, now) + busy_section(
            listed_busy(busy, now),
            viewer,
            now,
        ) + rule()
    }
}

/// Shows a stored time to a user.
pub fn format_time_for_user(time: &str, settings: &UserSettings) -> (text: String)
    ensures
        text@ == shown_time(time@, settings.twelve_hour()),
{
    if settings.is_12h() {
        let v = to_chars(time);
        match find_char(&v, ':') {
            Some(at) => {
                let first = from_chars(&v, 0, at);
                let second = from_chars(&v, at + 1, v.len());
                assert(first@ =~= time@.take(at as int));
                assert(second@ =~= time@.skip(at + 1));
                match parse_u8(first.as_str()) {
                    Some(hour) => match parse_u8(second.as_str()) {
                        Some(minute) => {
                            let shown: u8 = if hour == 0 {
                                12
                            } else if hour <= 12 {
                                hour
                            } else {
                                hour - 12
                            };
                            let mut text = write_decimal(shown as u64);
                            text.append(":");
                            text.append(write_two_digits(minute).as_str());
                            text.append(
                                if hour < 12 {
                                    "am"
                                } else {
                                    "pm"
                                },
                            );
                            return text;
                        },
                        None => {},
                    },
                    None => {},
                }
            },
            None => {},
        }
    }
    time.to_string()
}

/// Reads what a user typed as a time format.
pub fn normalize_time_format(input: &str) -> (format: Option<&'static str>)
    ensures
        match format {
            Some(f) => time_format_named(input@) == Some(f@),
            None => time_format_named(input@) is None,
        },
{
    let lower = trim(input).as_str().to_lowercase();
    let l = lower.as_str();
    if l.eq("24h") || l.eq("24") || l.eq("24-hour") || l.eq("24hour") {
        Some("24h")
    } else if l.eq("12h") || l.eq("12") || l.eq("12-hour") || l.eq("12hour") || l.eq("am-pm")
        || l.eq("ampm") || l.eq("am/pm") {
        Some("12h")
    } else {
        None
    }
}

/// How a time format is named to the user.
pub fn time_format_display(format: &str) -> (label: &'static str)
    ensures
        label@ == time_format_label(format@),
{
    if format.eq("12h") {
        "12-hour (am/pm)"
    } else {
        "24-hour"
    }
}

/// The time zone behind a city, a country or an abbreviation in lowercase.
pub fn timezone_alias(l: &str) -> (zone: Option<&'static str>)
    ensures
        match zone {
            Some(z) => zone_alias(l@) == Some(z@),
            None => zone_alias(l@) is None,
        },
{
    if l.eq("london") || l.eq("uk") || l.eq("gmt") || l.eq("bst") {
        Some("Europe/London")
    } else if l.eq("new york") || l.eq("nyc") || l.eq("est") || l.eq("edt") || l.eq("eastern") {
        Some("America/New_York")
    } else if l.eq("la") || l.eq("los angeles") || l.eq("pst") || l.eq("pdt") || l.eq("pacific") {
        Some("America/Los_Angeles")
    } else if l.eq("chicago") || l.eq("cst") || l.eq("cdt") || l.eq("central") {
        Some("America/Chicago")
    } else if l.eq("denver") || l.eq("mst") || l.eq("mdt") || l.eq("mountain") {
        Some("America/Denver")
    } else if l.eq("tokyo") || l.eq("jst") {
        Some("Asia/Tokyo")
    } else if l.eq("paris") || l.eq("cet") || l.eq("cest") {
        Some("Europe/Paris")
    } else if l.eq("berlin") {
        Some("Europe/Berlin")
    } else if l.eq("sydney") || l.eq("aest") || l.eq("aedt") {
        Some("Australia/Sydney")
    } else if l.eq("mumbai") || l.eq("ist") || l.eq("india") {
        Some("Asia/Kolkata")
    } else if l.eq("dubai") || l.eq("gst") {
        Some("Asia/Dubai")
    } else if l.eq("singapore") || l.eq("sgt") {
        Some("Asia/Singapore")
    } else if l.eq("hong kong") || l.eq("hkt") {
        Some("Asia/Hong_Kong")
    } else if l.eq("amsterdam") {
        Some("Europe/Amsterdam")
    } else if l.eq("toronto") {
        Some("America/Toronto")
    } else if l.eq("vancouver") {
        Some("America/Vancouver")
    } else if l.eq("seattle") {
        Some("America/Los_Angeles")
    } else if l.eq("san francisco") || l.eq("sf") {
        Some("America/Los_Angeles")
    } else {
        None
    }
}

/// Reads what a user typed as a time zone.
pub fn resolve_timezone(input: &str) -> (zone: Option<String>)
    ensures
        zone.deep_view() == zone_named(input@),
{
    let name = trim(input);
    if is_known_zone(name.as_str()) {
        Some(name)
    } else {
        match timezone_alias(name.as_str().to_lowercase().as_str()) {
            Some(z) => Some(z.to_string()),
            None => None,
        }
    }
}

/// What to tell a user after setting a status.
pub fn announce_status(emoji: &str, state: &str, message: &Option<String>) -> (text: String)
    ensures
        text@ == status_notice(emoji@, state@, message.deep_view()),
{
    let mut text = emoji.to_string();
    text.append(" You're now **");
    text.append(state);
    match message {
        Some(m) => {
            text.append("** - ");
            text.append(m.as_str());
        },
        None => {
            text.append("**");
        },
    }
    text
}

/// The lines for the users with one status.
fn compose_who_lines(statuses: &Vec<UserStatus>) -> (text: String)
    ensures
        text@ == who_lines(statuses@),
{
    let mut text = String::new();
    let mut i: usize = 0;
    while i < statuses.len()
        invariant
            i <= statuses.len(),
            text@ == who_lines(statuses@.take(i as int)),
        decreases statuses.len() - i,
    {
        assert(statuses@.take(i + 1).drop_last() =~= statuses@.take(i as int));
        let ghost before = text@;
        text.append("  ");
        text.append("<@");
        text.append(statuses[i].discord_id.as_str());
        text.append(">");
        match &statuses[i].message {
            Some(m) => {
                text.append(" - ");
                text.append(m.as_str());
            },
            None => {},
        }
        text.append("\n");
        assert(text@ =~= before + who_line(
            statuses[i as int].discord_id@,
            statuses[i as int].message.deep_view(),
        ));
        i += 1;
    }
    assert(statuses@.take(statuses.len() as int) =~= statuses@);
    text
}

/// The list of who is available and who is busy.
pub fn compose_who(available: &Vec<UserStatus>, busy: &Vec<UserStatus>) -> (text: String)
    ensures
        text@ == who_text(available@, busy@),
{
    let mut text = "───────────────────────────────".to_string();
    text.append("\n");
    text.append("🟢 **Available** (");
    text.append(write_decimal(available.len() as u64).as_str());
    text.append(")\n");
    if available.len() == 0 {
        text.append("  No one currently available\n");
    } else {
        text.append(compose_who_lines(available).as_str());
    }
    text.append("\n");
    text.append("🟡 **Busy** (");
    text.append(write_decimal(busy.len() as u64).as_str());
    text.append(")\n");
    if busy.len() == 0 {
        text.append("  No one currently busy\n");
    } else {
        text.append(compose_who_lines(busy).as_str());
    }
    text.append("───────────────────────────────");
    text
}

/// Whether a user who has been busy since `since` is still listed at `now`.
pub fn is_listed_when_busy(now: i64, since: i64, always_shown: bool) -> (listed: bool)
    ensures
        listed == listed_when_busy(now, since, always_shown),
{
    (now as i128) - (since as i128) < (BUSY_GRACE_SECONDS as i128) || always_shown
}

/// The part of a team member's line that tells their local time.
fn compose_local_time(member_zone: &str, viewer_zone: &str, twelve_hour: bool, now: i64) -> (text:
    String)
    ensures
        text@ == local_time_part(member_zone@, viewer_zone@, twelve_hour, now),
{
    if now < -CLOCK_LIMIT || now > CLOCK_LIMIT {
        return String::new();
    }
    let pattern = if twelve_hour {
        "%-I:%M%P"
    } else {
        "%H:%M"
    };
    match format_in_zone(member_zone, now, pattern) {
        Some(time) => {
            let mut text = " 🕐 ".to_string();
            text.append(time.as_str());
            if !is_same_zone(member_zone, viewer_zone) {
                match format_in_zone(member_zone, now, "%Z") {
                    Some(abbreviation) => {
                        text.append(" ");
                        text.append(abbreviation.as_str());
                    },
                    None => {},
                }
            }
            text
        },
        None => String::new(),
    }
}

/// The line for one member of the team.
pub fn compose_team_line(member: &TeamMember, viewer: &UserSettings, now: i64) -> (text: String)
    ensures
        text@ == team_line(*member, *viewer, now),
{
    let mut text = "  ".to_string();
    text.append("<@");
    text.append(member.status.discord_id.as_str());
    text.append(">");
    let ghost head = text@;
    assert(head =~= "  "@ + mention(member.status.discord_id@));
    let local = compose_local_time(
        member.settings.timezone.as_str(),
        viewer.timezone.as_str(),
        viewer.is_12h(),
        now,
    );
    text.append(local.as_str());
    let ghost timed = text@;
    match &member.status.message {
        Some(m) => {
            text.append(" - ");
            text.append(m.as_str());
            assert(text@ =~= timed + (" - "@ + m@));
        },
        None => {
            assert(text@ =~= timed + Seq::<char>::empty());
        },
    }
    let ghost told = text@;
    match &member.until {
        Some(end) => {
            let shown = format_time_for_user(end.as_str(), viewer);
            text.append(" (until ");
            text.append(shown.as_str());
            text.append(")");
            assert(text@ =~= told + (" (until "@ + shown@ + ")"@));
        },
        None => {
            assert(text@ =~= told + Seq::<char>::empty());
        },
    }
    text.append("\n");
    text
}

/// The line for one busy member of the team.
pub fn compose_busy_line(member: &TeamMember, viewer: &UserSettings, now: i64) -> (text: String)
    ensures
        text@ == busy_line(*member, *viewer, now),
{
    let line = compose_team_line(member, viewer, now);
    let minutes: i128 = ((now as i128) - (member.status.updated_at as i128)) / 60;
    if minutes > 0 {
        let mut text = trim_trailing(line.as_str());
        text.append(" (");
        text.append(write_decimal(minutes as u64).as_str());
        text.append("m)\n");
        text
    } else {
        line
    }
}

/// The team list.
pub fn compose_team(
    available: &Vec<TeamMember>,
    busy: &Vec<TeamMember>,
    viewer: &UserSettings,
    now: i64,
) -> (text: String)
    ensures
        text@ == team_text(available@, busy@, *viewer, now),
{
    let mut free = String::new();
    let mut i: usize = 0;
    while i < available.len()
        invariant
            i <= available.len(),
            free@ == available_lines(available@.take(i as int), *viewer, now),
        decreases available.len() - i,
    {
        assert(available@.take(i + 1).drop_last() =~= available@.take(i as int));
        free.append(compose_team_line(&available[i], viewer, now).as_str());
        i += 1;
    }
    assert(available@.take(available.len() as int) =~= available@);
    let mut occupied = String::new();
    let mut listed: usize = 0;
    let ghost mut shown: Seq<TeamMember> = Seq::empty();
    let mut j: usize = 0;
    while j < busy.len()
        invariant
            j <= busy.len(),
            listed <= j,
            shown == listed_busy(busy@.take(j as int), now),
            listed == shown.len(),
            occupied@ == busy_lines(shown, *viewer, now),
        decreases busy.len() - j,
    {
        assert(busy@.take(j + 1).drop_last() =~= busy@.take(j as int));
        if is_listed_when_busy(now, busy[j].status.updated_at, busy[j].settings.always_show_me) {
            occupied.append(compose_busy_line(&busy[j], viewer, now).as_str());
            listed += 1;
            proof {
                assert(shown.push(busy@[j as int]).drop_last() =~= shown);
                shown = shown.push(busy@[j as int]);
            }
        }
        j += 1;
    }
    assert(busy@.take(busy.len() as int) =~= busy@);
    if available.len() == 0 && listed == 0 {
        return "No team members are currently visible.".to_string();
    }
    let mut text = "───────────────────────────────".to_string();
    text.append("\n");
    let ghost top = text@;
    if available.len() > 0 {
        text.append("🟢 **Available**\n");
        text.append(free.as_str());
        text.append("\n");
        assert(text@ =~= top + available_section(available@, *viewer, now));
    } else {
        assert(text@ =~= top + available_section(available@, *viewer, now));
    }
    let ghost middle = text@;
    if listed > 0 {
        text.append("🟡 **Busy**\n");
        text.append(occupied.as_str());
        text.append("\n");
        assert(text@ =~= middle + busy_section(shown, *viewer, now));
    } else {
        assert(text@ =~= middle + busy_section(shown, *viewer, now));
    }
    text.append("───────────────────────────────");
    text
}

} // verus!

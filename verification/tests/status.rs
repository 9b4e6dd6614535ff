use fabrica::models::{UserSettings, UserStatus, WatchLevel};
use fabrica::status::{
    announce_status, compose_busy_line, compose_team, compose_team_line, compose_who,
    format_time_for_user, is_listed_when_busy, normalize_time_format, resolve_timezone,
    time_format_display, timezone_alias, TeamMember,
};
use fabrica::watch::{choose_level, level_description, WatchTarget};

const RULE: &str = "───────────────────────────────";

fn settings(zone: &str, format: &str) -> UserSettings {
    UserSettings {
        discord_id: "1".to_string(),
        timezone: zone.to_string(),
        time_format: format.to_string(),
        always_show_me: false,
    }
}

fn status(id: &str, state: &str, message: Option<&str>, since: i64) -> UserStatus {
    UserStatus::at(id, state, message.map(|m| m.to_string()), since)
}

fn member(id: &str, zone: &str, message: Option<&str>, since: i64, until: Option<&str>) -> TeamMember {
    TeamMember {
        status: status(id, "available", message, since),
        settings: settings(zone, "24h"),
        until: until.map(|u| u.to_string()),
    }
}

#[test]
fn fresh_status_records() {
    let s = UserStatus::at("7", "busy", Some("deep work".to_string()), 1234);
    assert_eq!(s.discord_id, "7");
    assert_eq!(s.status, "busy");
    assert_eq!(s.message.as_deref(), Some("deep work"));
    assert_eq!(s.updated_at, 1234);
    assert_eq!(s.timezone, None);
    assert_eq!(s.preferred_hours_start, None);
    assert_eq!(s.preferred_hours_end, None);
    let a = UserStatus::available("7", None);
    assert_eq!((a.status.as_str(), a.emoji(), a.label()), ("available", "🟢", "Available"));
    assert!(a.updated_at > 1_600_000_000);
    let b = UserStatus::busy("7", None);
    assert_eq!((b.status.as_str(), b.emoji(), b.label()), ("busy", "🟡", "Busy"));
    let c = UserStatus::away("7", Some("back at 5".to_string()));
    assert_eq!((c.status.as_str(), c.emoji(), c.label()), ("away", "🔴", "Away"));
    assert_eq!(c.message.as_deref(), Some("back at 5"));
    let d = UserStatus::at("7", "napping", None, 0);
    assert_eq!((d.emoji(), d.label()), ("⚫", "Unknown"));
}

#[test]
fn default_settings() {
    let s = UserSettings::new("42");
    assert_eq!(s.discord_id, "42");
    assert_eq!(s.timezone, "UTC");
    assert_eq!(s.time_format, "24h");
    assert!(!s.always_show_me);
    assert!(!s.is_12h());
    let d = UserSettings::default();
    assert_eq!(d.discord_id, "");
    assert_eq!(d.timezone, "UTC");
    assert_eq!(d.time_format, "24h");
    assert!(settings("UTC", "12h").is_12h());
    assert!(!settings("UTC", "12H").is_12h());
}

#[test]
fn watch_levels() {
    assert_eq!(WatchLevel::All.as_str(), "all");
    assert_eq!(WatchLevel::Important.as_str(), "important");
    assert_eq!(WatchLevel::Minimal.as_str(), "minimal");
    assert_eq!(WatchLevel::Off.as_str(), "off");
    assert_eq!(WatchLevel::from_str("ALL"), Some(WatchLevel::All));
    assert_eq!(WatchLevel::from_str("important"), Some(WatchLevel::Important));
    assert_eq!(WatchLevel::from_str("Minimal"), Some(WatchLevel::Minimal));
    assert_eq!(WatchLevel::from_str("off"), Some(WatchLevel::Off));
    assert_eq!(WatchLevel::from_str("loud"), None);
    for event in ["release", "pr_merged", "pr_opened", "pr_closed", "milestone", "push"] {
        assert!(WatchLevel::All.should_show(event));
        assert!(!WatchLevel::Off.should_show(event));
    }
    for event in ["release", "pr_merged"] {
        assert!(WatchLevel::Minimal.should_show(event));
        assert!(WatchLevel::Important.should_show(event));
    }
    for event in ["pr_opened", "pr_closed", "milestone"] {
        assert!(!WatchLevel::Minimal.should_show(event));
        assert!(WatchLevel::Important.should_show(event));
    }
    assert!(!WatchLevel::Important.should_show("push"));
    assert!(!WatchLevel::Minimal.should_show("push"));
}

#[test]
fn watching() {
    assert_eq!(WatchTarget::parse("GitHub"), Some(WatchTarget::Github));
    assert_eq!(WatchTarget::parse("plane"), Some(WatchTarget::Plane));
    assert_eq!(WatchTarget::parse("gitlab"), None);
    assert_eq!(choose_level(None), WatchLevel::Important);
    assert_eq!(choose_level(Some("all")), WatchLevel::All);
    assert_eq!(choose_level(Some("nonsense")), WatchLevel::Important);
    assert_eq!(level_description(&WatchLevel::All), "• All pushes, PRs, issues, comments, and releases");
    assert_eq!(
        level_description(&WatchLevel::Important),
        "• PRs (opened, merged, closed)\n• Releases\n• Milestones"
    );
    assert_eq!(level_description(&WatchLevel::Minimal), "• Releases only\n• Merged PRs");
    assert_eq!(level_description(&WatchLevel::Off), "• Nothing (muted)");
}

#[test]
fn times_are_shown_on_the_viewers_clock() {
    let twelve = settings("UTC", "12h");
    let twenty_four = settings("UTC", "24h");
    assert_eq!(format_time_for_user("00:05", &twelve), "12:05am");
    assert_eq!(format_time_for_user("09:30", &twelve), "9:30am");
    assert_eq!(format_time_for_user("12:00", &twelve), "12:00pm");
    assert_eq!(format_time_for_user("17:45", &twelve), "5:45pm");
    assert_eq!(format_time_for_user("23:59", &twelve), "11:59pm");
    assert_eq!(format_time_for_user("7:5", &twelve), "7:05am");
    assert_eq!(format_time_for_user("30:00", &twelve), "18:00pm");
    assert_eq!(format_time_for_user("12:30:45", &twelve), "12:30:45");
    assert_eq!(format_time_for_user("noon", &twelve), "noon");
    assert_eq!(format_time_for_user("x:30", &twelve), "x:30");
    assert_eq!(format_time_for_user("17:45", &twenty_four), "17:45");
    assert_eq!(format_time_for_user("noon", &twenty_four), "noon");
}

#[test]
fn time_formats() {
    for word in ["24h", "24", "24-hour", "24hour", " 24H "] {
        assert_eq!(normalize_time_format(word), Some("24h"));
    }
    for word in ["12h", "12", "12-hour", "12hour", "am-pm", "ampm", "AM/PM"] {
        assert_eq!(normalize_time_format(word), Some("12h"));
    }
    assert_eq!(normalize_time_format("metric"), None);
    assert_eq!(normalize_time_format(""), None);
    assert_eq!(time_format_display("12h"), "12-hour (am/pm)");
    assert_eq!(time_format_display("24h"), "24-hour");
    assert_eq!(time_format_display("anything"), "24-hour");
}

#[test]
fn time_zones_are_resolved() {
    assert_eq!(resolve_timezone("Europe/Paris"), Some("Europe/Paris".to_string()));
    assert_eq!(resolve_timezone("  America/Los_Angeles "), Some("America/Los_Angeles".to_string()));
    assert_eq!(resolve_timezone("UTC"), Some("UTC".to_string()));
    assert_eq!(resolve_timezone("London"), Some("Europe/London".to_string()));
    assert_eq!(resolve_timezone("NYC"), Some("America/New_York".to_string()));
    assert_eq!(resolve_timezone("sf"), Some("America/Los_Angeles".to_string()));
    assert_eq!(resolve_timezone("Hong Kong"), Some("Asia/Hong_Kong".to_string()));
    assert_eq!(resolve_timezone("ist"), Some("Asia/Kolkata".to_string()));
    assert_eq!(resolve_timezone("Atlantis"), None);
    assert_eq!(resolve_timezone(""), None);
    assert_eq!(timezone_alias("tokyo"), Some("Asia/Tokyo"));
    assert_eq!(timezone_alias("Tokyo"), None);
    assert_eq!(timezone_alias("seattle"), Some("America/Los_Angeles"));
    assert_eq!(timezone_alias("mountain"), Some("America/Denver"));
}

#[test]
fn status_is_announced() {
    assert_eq!(announce_status("🟢", "available", &None), "🟢 You're now **available**");
    assert_eq!(
        announce_status("🟡", "busy", &Some("reviewing".to_string())),
        "🟡 You're now **busy** - reviewing"
    );
}

#[test]
fn who_is_around() {
    let available = vec![status("1", "available", None, 0), status("2", "available", Some("coding"), 0)];
    let busy = vec![status("3", "busy", Some("call"), 0)];
    assert_eq!(
        compose_who(&available, &busy),
        format!(
            "{}\n🟢 **Available** (2)\n  <@1>\n  <@2> - coding\n\n🟡 **Busy** (1)\n  <@3> - call\n{}",
            RULE, RULE
        )
    );
    assert_eq!(
        compose_who(&vec![], &vec![]),
        format!(
            "{}\n🟢 **Available** (0)\n  No one currently available\n\n🟡 **Busy** (0)\n  No one currently busy\n{}",
            RULE, RULE
        )
    );
}

#[test]
fn busy_members_are_listed_for_a_while() {
    assert!(is_listed_when_busy(1000, 1000, false));
    assert!(is_listed_when_busy(1899, 1000, false));
    assert!(!is_listed_when_busy(1900, 1000, false));
    assert!(is_listed_when_busy(1900, 1000, true));
    assert!(is_listed_when_busy(0, 1000, false));
    assert!(!is_listed_when_busy(i64::MAX, i64::MIN, false));
    assert!(is_listed_when_busy(i64::MIN, i64::MAX, false));
}

#[test]
fn team_lines_tell_the_local_time() {
    // 1970-01-01 00:00:00 UTC
    let tokyo = member("1", "Asia/Tokyo", Some("hi"), 0, Some("17:30"));
    assert_eq!(
        compose_team_line(&tokyo, &settings("Europe/London", "24h"), 0),
        "  <@1> 🕐 09:00 JST - hi (until 17:30)\n"
    );
    assert_eq!(
        compose_team_line(&tokyo, &settings("Asia/Tokyo", "12h"), 0),
        "  <@1> 🕐 9:00am - hi (until 5:30pm)\n"
    );
    assert_eq!(
        compose_team_line(&tokyo, &settings("Nowhere", "12h"), 0),
        "  <@1> 🕐 9:00am JST - hi (until 5:30pm)\n"
    );
    let lost = member("2", "Nowhere", None, 0, None);
    assert_eq!(compose_team_line(&lost, &settings("UTC", "24h"), 0), "  <@2>\n");
    let utc = member("3", "UTC", None, 0, None);
    assert_eq!(compose_team_line(&utc, &settings("UTC", "24h"), 45_000), "  <@3> 🕐 12:30\n");
    assert_eq!(compose_team_line(&utc, &settings("UTC", "24h"), i64::MAX), "  <@3>\n");
    assert_eq!(compose_team_line(&utc, &settings("UTC", "24h"), i64::MIN), "  <@3>\n");
}

#[test]
fn busy_lines_tell_for_how_long() {
    let mut m = member("1", "Nowhere", Some("call  "), 1000, None);
    m.status.status = "busy".to_string();
    let viewer = settings("UTC", "24h");
    assert_eq!(compose_busy_line(&m, &viewer, 1059), "  <@1> - call  \n");
    assert_eq!(compose_busy_line(&m, &viewer, 1060), "  <@1> - call (1m)\n");
    assert_eq!(compose_busy_line(&m, &viewer, 1000 + 600), "  <@1> - call (10m)\n");
    assert_eq!(compose_busy_line(&m, &viewer, 0), "  <@1> - call  \n");
}

#[test]
fn team_list() {
    let viewer = settings("UTC", "24h");
    let now = 10_000;
    let free = vec![member("1", "Nowhere", None, 0, None)];
    let mut recent = member("2", "Nowhere", None, now - 120, None);
    recent.status.status = "busy".to_string();
    let mut long = member("3", "Nowhere", None, now - 5000, None);
    long.status.status = "busy".to_string();
    let mut pinned = member("4", "Nowhere", Some("focus"), now - 5000, None);
    pinned.settings.always_show_me = true;
    assert_eq!(
        compose_team(&free, &vec![recent.clone(), long.clone(), pinned], &viewer, now),
        format!(
            "{}\n🟢 **Available**\n  <@1>\n\n🟡 **Busy**\n  <@2> (2m)\n  <@4> - focus (83m)\n\n{}",
            RULE, RULE
        )
    );
    assert_eq!(
        compose_team(&free, &vec![long.clone()], &viewer, now),
        format!("{}\n🟢 **Available**\n  <@1>\n\n{}", RULE, RULE)
    );
    assert_eq!(
        compose_team(&vec![], &vec![recent], &viewer, now),
        format!("{}\n🟡 **Busy**\n  <@2> (2m)\n\n{}", RULE, RULE)
    );
    assert_eq!(compose_team(&vec![], &vec![long], &viewer, now), "No team members are currently visible.");
    assert_eq!(compose_team(&vec![], &vec![], &viewer, now), "No team members are currently visible.");
}

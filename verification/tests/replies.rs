use fabrica::replies::{
    describe_key, is_public_asked, list_language_names, say_already_subscribed, say_commits,
    say_debug, say_default, say_default_set, say_dialect_cleared, say_dialect_set, say_dialects,
    say_hours, say_issues, say_mode, say_mode_changed, say_not_subscribed, say_permission_granted,
    say_permission_revoked, say_permissions, say_project, say_project_watched, say_pull_requests,
    say_repository, say_repository_watched, say_schedule_rejected, say_settings, say_sprint,
    say_subscribed, say_subscriptions, say_time_format_set, say_timezone_set, say_timezone_set_for,
    say_today_hours_set, say_today_until_set, say_translation_status, say_unknown_timezone,
    say_unsubscribed, say_unsubscribed_last, say_unsupported_language, say_watch_ended,
    say_weekly_hours_set, DayHours, DialectEntry, Grant, GrantTarget, TodayHours,
    UnsubscribeRequest,
};

fn strings(items: &[&str]) -> Vec<String> {
    items.iter().map(|s| s.to_string()).collect()
}

#[test]
fn subscription_replies() {
    assert_eq!(
        say_unsupported_language("Klingon"),
        "Language 'Klingon' is not currently supported.\nSupported: English (en), Hindi (hi), French (fr), Spanish (es), German (de), Filipino (fil), Portuguese (pt), Korean (ko)"
    );
    assert_eq!(
        say_already_subscribed("fr"),
        "📖 You're already subscribed to **French** translations in this channel."
    );
    assert_eq!(
        say_subscribed("fr", &strings(&["es", "fr"])),
        "✅ Subscribed to **French** translations in this channel.\nYour subscriptions: **Spanish, French**\n\n⚠️ *Translations are machine-generated and may contain inaccuracies.*"
    );
    assert_eq!(
        say_not_subscribed("de"),
        "📖 You're not subscribed to **German** translations in this channel."
    );
    assert_eq!(
        say_unsubscribed_last("de"),
        "✅ Unsubscribed from **German** translations. You have no remaining subscriptions in this channel."
    );
    assert_eq!(say_unsubscribed("de", &vec![]), say_unsubscribed_last("de"));
    assert_eq!(
        say_unsubscribed("de", &strings(&["hi", "ko", "xx"])),
        "✅ Unsubscribed from **German** translations.\nRemaining subscriptions: **Hindi, Korean, Unknown**"
    );
    assert_eq!(say_subscriptions(&vec![]), "📖 You have no translation subscriptions in this channel.");
    assert_eq!(
        say_subscriptions(&strings(&["pt"])),
        "📖 Your subscriptions: **Portuguese**\nTo unsubscribe, use `/fabrica translate unsubscribe <language>` or `all` to remove all."
    );
    assert_eq!(list_language_names(&strings(&[])), "");
    assert_eq!(list_language_names(&strings(&["en", "fil"])), "English, Filipino");
}

#[test]
fn status_replies() {
    assert_eq!(
        say_translation_status(&vec![], "off", true),
        "📖 You have no translation subscriptions in this channel.\nChannel mode: **off**"
    );
    assert_eq!(
        say_translation_status(&strings(&["fr"]), "silent", false),
        "📖 Your subscriptions: **French**\nChannel mode: **silent**"
    );
    assert_eq!(
        say_translation_status(&strings(&["fr", "es"]), "on", true),
        "📖 Your subscriptions: **French, Spanish**\nChannel mode: **on**\n🔧 Debug mode: **ON**"
    );
    assert!(say_debug(true).starts_with("🔧 Debug mode **ON** - You'll receive"));
    assert!(say_debug(false).starts_with("🔧 Debug mode **OFF** - You won't receive"));
    assert_eq!(say_mode("**off** - No translation"), "📖 Channel translation mode: **off** - No translation");
    assert_eq!(say_mode_changed("Mode set."), "✅ Mode set.");
}

#[test]
fn dialect_and_default_replies() {
    assert_eq!(
        say_dialect_set("es", "mexican"),
        "🗣️ Dialect preference set!\n**Language:** Spanish\n**Dialect:** mexican\n\nWhen others translate to Spanish for you, they'll use your preferred dialect."
    );
    assert_eq!(
        say_dialect_cleared("es"),
        "🗣️ Cleared dialect preference for **Spanish**. Default dialect will be used."
    );
    assert!(say_dialects(&vec![]).starts_with("🗣️ You have no dialect preferences set.\n\nUse"));
    assert!(say_dialects(&vec![]).ends_with("• `/fabrica translate dialect spanish mexican`"));
    let entries = vec![
        DialectEntry { language: "fil".to_string(), dialect: "bisaya".to_string() },
        DialectEntry { language: "zh".to_string(), dialect: "cantonese".to_string() },
    ];
    assert_eq!(
        say_dialects(&entries),
        "🗣️ **Your Dialect Preferences**\n\n• **Filipino**: bisaya\n• **Unknown**: cantonese\n\nUse `/fabrica translate dialect <language> <dialect>` to change."
    );
    assert_eq!(
        say_default_set("ko"),
        "🌐 Default language set to **Korean**!\n\nNow `/fabrica translate last` will translate to Korean by default."
    );
    assert_eq!(say_default(&Some("hi".to_string())), "🌐 Your default translation language is **Hindi**.");
    assert!(say_default(&None).starts_with("🌐 You haven't set a default language yet."));
}

#[test]
fn unsubscribe_requests() {
    assert!(matches!(UnsubscribeRequest::read(None), UnsubscribeRequest::List));
    assert!(matches!(UnsubscribeRequest::read(Some("ALL")), UnsubscribeRequest::All));
    assert!(matches!(UnsubscribeRequest::read(Some("all")), UnsubscribeRequest::All));
    match UnsubscribeRequest::read(Some("French")) {
        UnsubscribeRequest::One(code) => assert_eq!(code, "fr"),
        other => panic!("unexpected request {:?}", other),
    }
    match UnsubscribeRequest::read(Some("allx")) {
        UnsubscribeRequest::One(code) => assert_eq!(code, "allx"),
        other => panic!("unexpected request {:?}", other),
    }
}

#[test]
fn permission_replies() {
    assert!(say_permissions("Server Status", &vec![])
        .starts_with("📊 **Server Status**\n\nNo custom role permissions configured.\n"));
    let grant = |role: &str, permission: &str| Grant {
        role: role.to_string(),
        permission: permission.to_string(),
    };
    let grants = vec![grant("11", "mode"), grant("everyone", "mode"), grant("22", "admin"), grant("33", "other")];
    assert_eq!(
        say_permissions("Server Permissions", &grants),
        "📊 **Server Permissions**\n\n**Admin:** <@&22>\n**Mode:** <@&11>, **everyone**\n\n_Admin can manage all settings. Mode can change translation modes._"
    );
    assert_eq!(
        say_permissions("Server Status", &vec![grant("11", "mode")]),
        "📊 **Server Status**\n\n**Mode:** <@&11>\n\n_Admin can manage all settings. Mode can change translation modes._"
    );
    assert_eq!(
        say_permissions("Server Status", &vec![grant("11", "other")]),
        "📊 **Server Status**\n\n\n_Admin can manage all settings. Mode can change translation modes._"
    );
    assert_eq!(say_permission_granted("<@&7>", "change translation modes"), "<@&7> can now change translation modes.");
    assert_eq!(
        say_permission_revoked("**everyone**", "manage all Fabrica settings"),
        "**everyone** can no longer manage all Fabrica settings."
    );
    assert!(matches!(GrantTarget::read(Some("Everyone"), Some("7")), GrantTarget::Everyone));
    assert!(matches!(GrantTarget::read(Some("all"), Some("7")), GrantTarget::Invalid));
    assert!(matches!(GrantTarget::read(None, None), GrantTarget::Missing));
    match GrantTarget::read(None, Some("7")) {
        GrantTarget::Role(id) => assert_eq!(id, "7"),
        other => panic!("unexpected target {:?}", other),
    }
}

#[test]
fn hours_and_settings_replies() {
    assert_eq!(
        say_schedule_rejected("Unknown day: x"),
        "⚠️ Couldn't parse schedule: Unknown day: x\n\n**Examples:**\n• `/fabrica hours Mon,Tue,Wed,Thu,Fri 9:30 to 23:30`\n• `/fabrica hours M-F 9:30 to 23:30`\n• `/fabrica hours today 9:30 to 23:30`\n• `/fabrica hours today until 23:30`\n• `/fabrica hours until 23:30`"
    );
    assert_eq!(say_weekly_hours_set("Mon-Fri", "09:30", "17:00"), "⏰ Set schedule: **Mon-Fri** from **09:30** to **17:00**");
    assert_eq!(say_today_hours_set("09:30", "17:00"), "⏰ Set for today: **09:30** to **17:00**");
    assert_eq!(say_today_until_set("23:30"), "⏰ Available today until **23:30**");
    assert_eq!(say_hours(&None, &vec![]), "⏰ **Your Schedule**\n\nNo weekly schedule set.");
    let week = vec![
        DayHours { day: 0, start: "09:00".to_string(), end: "17:00".to_string() },
        DayHours { day: 6, start: "10:00".to_string(), end: "12:00".to_string() },
    ];
    assert_eq!(
        say_hours(&Some(TodayHours { start: None, end: "20:00".to_string() }), &week),
        "⏰ **Your Schedule**\n\n**Today:** until 20:00\n\n**Weekly:**\n  Monday: 09:00 to 17:00\n  Sunday: 10:00 to 12:00\n"
    );
    assert_eq!(
        say_hours(&Some(TodayHours { start: Some("08:00".to_string()), end: "20:00".to_string() }), &vec![]),
        "⏰ **Your Schedule**\n\n**Today:** 08:00 to 20:00\n\nNo weekly schedule set."
    );
    assert!(say_settings("Europe/Paris", "24-hour", true)
        .starts_with("⚙️ **Your Settings**\n\n**Timezone:** Europe/Paris\n**Time format:** 24-hour\n**Always show me:** Yes\n\nUse"));
    assert!(say_settings("UTC", "12-hour (am/pm)", false).contains("**Always show me:** No\n"));
    assert_eq!(
        say_unknown_timezone("Atlantis"),
        "⚠️ Unknown timezone: `Atlantis`\n\nExamples: `London`, `New York`, `Tokyo`, `Europe/Paris`, `America/Los_Angeles`"
    );
    assert_eq!(say_timezone_set("Asia/Tokyo"), "🌍 Timezone set to **Asia/Tokyo**");
    assert_eq!(say_timezone_set_for("5", "Asia/Tokyo"), "🌍 Set <@5> timezone to **Asia/Tokyo**");
    assert_eq!(say_time_format_set("24-hour"), "🕐 Time format set to **24-hour**");
}

#[test]
fn integration_replies() {
    assert_eq!(
        say_repository("fabrica"),
        "📦 **Repository: fabrica**\n\n⚠️ GitHub integration coming soon!\nThis will show repo stats, recent activity, and open PRs."
    );
    assert_eq!(say_commits("fabrica", None), "📝 **Recent 5 commits for fabrica**\n\n⚠️ GitHub integration coming soon!");
    assert_eq!(say_commits("fabrica", Some(12)), "📝 **Recent 12 commits for fabrica**\n\n⚠️ GitHub integration coming soon!");
    assert_eq!(say_pull_requests("fabrica"), "🔀 **Open PRs for fabrica**\n\n⚠️ GitHub integration coming soon!");
    assert_eq!(
        say_repository_watched("fabrica", "minimal", "• Releases only\n• Merged PRs"),
        "✅ This channel is now watching **fabrica** at **minimal** level.\nYou'll receive notifications about:\n• Releases only\n• Merged PRs"
    );
    assert_eq!(
        say_project_watched("riff", "all"),
        "✅ This channel is now watching **riff** at **all** level.\nYou'll receive notifications about project activity."
    );
    assert_eq!(say_watch_ended("riff"), "✅ This channel is no longer watching **riff**.");
    assert_eq!(
        say_project("riff"),
        "📊 **riff**\n\n⚠️ Plane integration coming soon!\nThis will show project status, sprint progress, and open issues."
    );
    assert_eq!(say_issues("riff", "open"), "📋 **Issues for riff** (filter: open)\n\n⚠️ Plane integration coming soon!");
    assert_eq!(say_sprint("current"), "🏃 **Sprint Status** for current\n\n⚠️ Plane integration coming soon!");
}

#[test]
fn small_decisions() {
    assert_eq!(describe_key(""), "EMPTY");
    assert_eq!(describe_key("sk"), "SET");
    assert!(is_public_asked(Some("public")));
    assert!(is_public_asked(Some(" PUBLIC ")));
    assert!(is_public_asked(Some("!")));
    assert!(!is_public_asked(Some("private")));
    assert!(!is_public_asked(Some("")));
    assert!(!is_public_asked(None));
}

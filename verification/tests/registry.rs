use fabrica::delivery::Effect;
use fabrica::dispatcher::{Answer, Dispatcher, InboundMessage, Query, Step};
use fabrica::mode::ChannelMode;
use fabrica::translator::Translation;
use fabrica::permission::{
    has_admin_permission, has_translation_permission, is_global_admin, Member, PermissionKind,
};
use fabrica::registry::{KeyedStore, Registry};

fn strings(items: &[&str]) -> Vec<String> {
    items.iter().map(|s| s.to_string()).collect()
}

fn pairs(registry: &Registry, guild: &str, channel: &str) -> Vec<String> {
    registry
        .non_english_subscriptions(guild, channel)
        .iter()
        .map(|s| format!("{}:{}", s.user, s.language))
        .collect()
}

#[test]
fn dialect_preference_round_trip() {
    let mut registry = Registry::new();
    assert_eq!(registry.dialect("U", "pt"), None);
    registry.set_dialect("U", "pt", "brazilian");
    assert_eq!(registry.dialect("U", "pt"), Some("brazilian".to_string()));
    registry.clear_dialect("U", "pt");
    assert_eq!(registry.dialect("U", "pt"), None);
}

#[test]
fn dialect_preference_last_write_wins() {
    let mut registry = Registry::new();
    registry.set_dialect("U", "es", "mexican");
    registry.set_dialect("U", "fil", "bisaya");
    registry.set_dialect("V", "es", "rioplatense");
    registry.set_dialect("U", "es", "andalusian");
    assert_eq!(registry.dialect("U", "es"), Some("andalusian".to_string()));
    assert_eq!(registry.dialect("U", "fil"), Some("bisaya".to_string()));
    assert_eq!(registry.dialect("V", "es"), Some("rioplatense".to_string()));
    assert_eq!(registry.dialect("V", "fil"), None);
    registry.clear_dialect("U", "es");
    assert_eq!(registry.dialect("U", "es"), None);
    assert_eq!(registry.dialect("V", "es"), Some("rioplatense".to_string()));
    registry.clear_dialect("U", "nothing");
    assert_eq!(registry.dialect("U", "fil"), Some("bisaya".to_string()));
}

#[test]
fn keys_do_not_run_together() {
    let mut registry = Registry::new();
    registry.set_dialect("ab", "c", "one");
    registry.set_dialect("a", "bc", "two");
    assert_eq!(registry.dialect("ab", "c"), Some("one".to_string()));
    assert_eq!(registry.dialect("a", "bc"), Some("two".to_string()));
    assert_eq!(registry.dialect("abc", ""), None);
}

#[test]
fn channel_without_mode_is_off() {
    let mut registry = Registry::new();
    assert_eq!(registry.mode("g", "c"), ChannelMode::Off);
    assert!(!registry.is_translation_enabled("g", "c"));
    registry.set_mode("g", "c", ChannelMode::Silent);
    assert_eq!(registry.mode("g", "c"), ChannelMode::Silent);
    assert!(registry.is_translation_enabled("g", "c"));
    assert_eq!(registry.mode("g", "other"), ChannelMode::Off);
    assert_eq!(registry.mode("other", "c"), ChannelMode::Off);
    registry.set_mode("g", "c", ChannelMode::Transparent);
    assert_eq!(registry.mode("g", "c"), ChannelMode::Transparent);
    registry.set_mode("g", "c", ChannelMode::Off);
    assert!(!registry.is_translation_enabled("g", "c"));
}

#[test]
fn subscribing_twice_changes_nothing() {
    let mut registry = Registry::new();
    assert_eq!(registry.subscribed_since("g", "c", "u", "fr"), None);
    assert!(registry.subscribe("g", "c", "u", "fr", 1_700_000_000));
    registry.set_debug("g", "c", "u", true);
    assert!(!registry.subscribe("g", "c", "u", "fr", 1_800_000_000));
    assert_eq!(registry.subscribed_since("g", "c", "u", "fr"), Some(1_700_000_000));
    assert!(registry.debug("g", "c", "u"));
    registry.set_debug("g", "c", "u", false);
    assert!(registry.subscribe("g", "c", "u", "es", 1_700_000_000));
    assert!(registry.subscribe("g", "c", "v", "fr", 1_700_000_000));
    assert!(registry.subscribe("g", "d", "u", "fr", 1_700_000_000));
    assert_eq!(registry.subscriptions_of("g", "c", "u"), strings(&["fr", "es"]));
    assert!(registry.is_subscribed("g", "c", "u", "fr"));
    assert!(!registry.is_subscribed("g", "c", "u", "de"));
    assert!(!registry.is_subscribed("h", "c", "u", "fr"));
}

#[test]
fn registry_answers_what_the_pipeline_reads() {
    let mut registry = Registry::new();
    for (user, language) in [("1", "fr"), ("2", "en"), ("3", "es"), ("1", "en"), ("4", "fr")] {
        registry.subscribe("g", "c", user, language, 1_700_000_000);
    }
    registry.subscribe("g", "elsewhere", "9", "de", 1_700_000_000);
    assert_eq!(pairs(&registry, "g", "c"), vec!["1:fr", "3:es", "4:fr"]);
    assert_eq!(registry.subscribers_for_language("g", "c", "en"), strings(&["2", "1"]));
    assert_eq!(registry.subscribers_for_language("g", "c", "fr"), strings(&["1", "4"]));
    assert_eq!(registry.subscribers_for_language("g", "c", "de"), strings(&[]));
    assert_eq!(registry.subscribed_languages("g", "c"), strings(&["fr", "en", "es"]));
    assert_eq!(registry.subscribed_languages("g", "elsewhere"), strings(&["de"]));
    assert_eq!(registry.subscribed_languages("g", "empty"), strings(&[]));
}

#[test]
fn unsubscribing() {
    let mut registry = Registry::new();
    for language in ["fr", "es", "de"] {
        registry.subscribe("g", "c", "u", language, 1_700_000_000);
    }
    registry.subscribe("g", "c", "v", "fr", 1_700_000_000);
    registry.subscribe("g", "d", "u", "fr", 1_700_000_000);
    registry.unsubscribe("g", "c", "u", "es");
    assert_eq!(registry.subscriptions_of("g", "c", "u"), strings(&["fr", "de"]));
    registry.unsubscribe("g", "c", "u", "es");
    assert_eq!(registry.subscriptions_of("g", "c", "u"), strings(&["fr", "de"]));
    registry.unsubscribe_all("g", "c", "u");
    assert_eq!(registry.subscriptions_of("g", "c", "u"), strings(&[]));
    assert_eq!(registry.subscriptions_of("g", "c", "v"), strings(&["fr"]));
    assert_eq!(registry.subscriptions_of("g", "d", "u"), strings(&["fr"]));
    assert!(registry.subscribe("g", "c", "u", "fr", 1_700_000_000));
}

#[test]
fn debug_flag_belongs_to_user_and_channel() {
    let mut registry = Registry::new();
    assert!(!registry.debug("g", "c", "u"));
    registry.set_debug("g", "c", "u", true);
    assert!(!registry.debug("g", "c", "u"));
    registry.subscribe("g", "c", "u", "fr", 1_700_000_000);
    registry.subscribe("g", "c", "v", "fr", 1_700_000_000);
    registry.subscribe("g", "d", "u", "fr", 1_700_000_000);
    assert!(!registry.debug("g", "c", "u"));
    registry.set_debug("g", "c", "u", true);
    assert!(registry.debug("g", "c", "u"));
    assert!(!registry.debug("g", "c", "v"));
    assert!(!registry.debug("g", "d", "u"));
    registry.set_debug("g", "c", "u", false);
    assert!(!registry.debug("g", "c", "u"));
}

#[test]
fn cursor_only_moves_forward() {
    let mut registry = Registry::new();
    assert_eq!(registry.cursor("g", "c", "u"), None);
    registry.advance_cursor("g", "c", "u", 500);
    assert_eq!(registry.cursor("g", "c", "u"), Some(500));
    registry.advance_cursor("g", "c", "u", 400);
    assert_eq!(registry.cursor("g", "c", "u"), Some(500));
    registry.advance_cursor("g", "c", "u", 501);
    assert_eq!(registry.cursor("g", "c", "u"), Some(501));
    assert_eq!(registry.cursor("g", "c", "v"), None);
    registry.advance_cursor("g", "c", "v", 0);
    assert_eq!(registry.cursor("g", "c", "v"), Some(0));
}

#[test]
fn keyed_store() {
    let mut store: KeyedStore<u32> = KeyedStore::new();
    assert_eq!(store.get(&["a"]), None);
    store.put(&["a"], 1);
    store.put(&["a", "b"], 2);
    store.put(&[], 3);
    assert_eq!(store.get(&["a"]), Some(&1));
    assert_eq!(store.get(&["a", "b"]), Some(&2));
    assert_eq!(store.get(&[]), Some(&3));
    assert_eq!(store.get(&["b"]), None);
    store.put(&["a"], 10);
    assert_eq!(store.get(&["a"]), Some(&10));
    store.remove(&["a"]);
    assert_eq!(store.get(&["a"]), None);
    assert_eq!(store.get(&["a", "b"]), Some(&2));
    store.remove(&["missing"]);
    assert_eq!(store.get(&[]), Some(&3));
}

fn member(roles: &[u64], manage_channels: bool, administrator: bool) -> Member {
    Member { roles: roles.to_vec(), manage_channels, administrator }
}

#[test]
fn translation_permission() {
    let admins = strings(&["1"]);
    let nobody = strings(&[]);
    let plain = member(&[7, 8], false, false);
    assert!(has_translation_permission("1", &admins, None, None, None));
    assert!(!has_translation_permission("2", &admins, None, None, None));
    assert!(!has_translation_permission("2", &admins, Some(&plain), Some(&nobody), Some(&nobody)));
    assert!(has_translation_permission("2", &admins, Some(&member(&[], true, false)), None, None));
    assert!(!has_translation_permission("2", &admins, Some(&member(&[], false, true)), None, None));
    assert!(has_translation_permission("2", &admins, Some(&plain), Some(&strings(&["8"])), None));
    assert!(has_translation_permission("2", &admins, Some(&plain), Some(&strings(&["x", "9", "7"])), None));
    assert!(!has_translation_permission("2", &admins, Some(&plain), Some(&strings(&["9"])), None));
    assert!(has_translation_permission("2", &admins, Some(&plain), None, Some(&strings(&["7"]))));
    assert!(has_translation_permission("2", &admins, None, Some(&strings(&["everyone"])), None));
    assert!(has_translation_permission("2", &admins, None, None, Some(&strings(&["everyone"]))));
    assert!(!has_translation_permission("2", &admins, None, Some(&strings(&["7"])), None));
    assert!(!has_translation_permission("2", &admins, Some(&plain), Some(&strings(&["Everyone"])), None));
}

#[test]
fn admin_permission() {
    let admins = strings(&["1"]);
    let plain = member(&[7], false, false);
    assert!(has_admin_permission("1", &admins, None, None));
    assert!(!has_admin_permission("2", &admins, Some(&plain), None));
    assert!(has_admin_permission("2", &admins, Some(&member(&[], false, true)), None));
    assert!(!has_admin_permission("2", &admins, Some(&member(&[], true, false)), None));
    assert!(has_admin_permission("2", &admins, Some(&plain), Some(&strings(&["7"]))));
    assert!(!has_admin_permission("2", &admins, Some(&plain), Some(&strings(&["8"]))));
    assert!(has_admin_permission("2", &admins, None, Some(&strings(&["everyone"]))));
    assert!(is_global_admin("1", &admins));
    assert!(!is_global_admin("11", &admins));
}

#[test]
fn permission_kinds() {
    assert_eq!(PermissionKind::parse("Mode"), Some(PermissionKind::Mode));
    assert_eq!(PermissionKind::parse("ADMIN"), Some(PermissionKind::Admin));
    assert_eq!(PermissionKind::parse("owner"), None);
    assert_eq!(PermissionKind::Mode.as_str(), "mode");
    assert_eq!(PermissionKind::Admin.as_str(), "admin");
    assert_eq!(PermissionKind::Mode.describe(), "change translation modes");
    assert_eq!(PermissionKind::Admin.describe(), "manage all Fabrica settings");
}

#[test]
fn channel_modes() {
    assert_eq!(ChannelMode::parse("OFF"), Some(ChannelMode::Off));
    assert_eq!(ChannelMode::parse("Silent"), Some(ChannelMode::Silent));
    assert_eq!(ChannelMode::parse("on"), Some(ChannelMode::On));
    assert_eq!(ChannelMode::parse("transparent"), Some(ChannelMode::Transparent));
    assert_eq!(ChannelMode::parse("loud"), None);
    assert_eq!(ChannelMode::from_name("ON"), None);
    assert_eq!(ChannelMode::from_stored(None), ChannelMode::Off);
    assert_eq!(ChannelMode::from_stored(Some("silent")), ChannelMode::Silent);
    assert_eq!(ChannelMode::from_stored(Some("garbage")), ChannelMode::Off);
    for mode in [ChannelMode::Off, ChannelMode::Silent, ChannelMode::On, ChannelMode::Transparent] {
        assert_eq!(ChannelMode::from_name(mode.as_str()), Some(mode));
        assert_eq!(mode.is_active(), mode != ChannelMode::Off);
    }
    assert_eq!(ChannelMode::Off.describe(), "**off** - No translation");
    assert_eq!(ChannelMode::On.describe(), "**on** - DM + public English translations");
    assert_eq!(
        ChannelMode::Off.describe_change(),
        "Translation is **disabled**. Messages will not be processed."
    );
    assert_eq!(
        ChannelMode::Transparent.describe_change(),
        "Translation mode: **transparent**\n• All translations posted publicly in channel"
    );
    assert!(ChannelMode::Silent.describe_change().starts_with("Translation mode: **silent**\n• Non-English"));
}

/// Handles an English message of user 1 in channel `c` of guild `g`, with a
/// backend that translates every text to `<text> in <language>[/<dialect>]`.
fn handle(registry: &Registry, text: &str) -> Vec<String> {
    let message = InboundMessage {
        id: "1".to_string(),
        timestamp: 0,
        guild: Some("g".to_string()),
        channel: "c".to_string(),
        author: "1".to_string(),
        author_name: "ana".to_string(),
        author_is_bot: false,
        text: text.to_string(),
    };
    let (mut dispatcher, mut step) = Dispatcher::start(message, &strings(&["g"]));
    loop {
        let query = match step {
            Step::Ask(query) => query,
            Step::Finish(effects) => {
                return effects
                    .iter()
                    .map(|effect| match effect {
                        Effect::PublicReply { content } => format!("reply:{}", content),
                        Effect::PrivateMessage { user, content } => format!("dm:{}:{}", user, content),
                        Effect::FailureMarker => "marker".to_string(),
                    })
                    .collect()
            }
            Step::Abort(reason) => panic!("the message was given up: {:?}", reason),
        };
        let answer = match registry.answer("g", "c", &query) {
            Some(answer) => answer,
            None => match query {
                Query::Detection { .. } => Answer::Detected(Ok("en".to_string())),
                Query::ChannelName => Answer::ChannelName(Some("general".to_string())),
                Query::Translations { jobs } => Answer::Translations(
                    jobs.iter()
                        .map(|job| {
                            let dialect =
                                job.dialect.as_ref().map(|d| format!("/{}", d)).unwrap_or_default();
                            Ok(Translation::Text(format!("{} in {}{}", job.text, job.to, dialect)))
                        })
                        .collect(),
                ),
                other => panic!("the registry should have answered {:?}", other),
            },
        };
        (dispatcher, step) = dispatcher.step(answer);
    }
}

#[test]
fn pipeline_over_the_registry() {
    let text = "good morning everyone, the meeting starts in ten minutes";
    let mut registry = Registry::new();
    registry.subscribe("g", "c", "1", "fr", 1_700_000_000);
    registry.subscribe("g", "c", "2", "fr", 1_700_000_000);
    registry.subscribe("g", "c", "3", "es", 1_700_000_000);
    registry.subscribe("g", "c", "4", "en", 1_700_000_000);
    registry.subscribe("g", "c", "5", "es", 1_700_000_000);
    registry.set_dialect("5", "es", "mexican");
    assert!(handle(&registry, text).is_empty());

    registry.set_mode("g", "c", ChannelMode::Transparent);
    assert_eq!(
        handle(&registry, text),
        vec![format!("reply:🌐 **French:** {} in fr\n**Spanish:** {} in es", text, text)]
    );

    registry.set_mode("g", "c", ChannelMode::Silent);
    let private = |user: &str, language: &str| {
        format!("dm:{}:[#general] **ana** said:\n{} in {}", user, text, language)
    };
    assert_eq!(
        handle(&registry, text),
        vec![private("2", "fr"), private("3", "es"), private("5", "es/mexican")]
    );

    registry.set_debug("g", "c", "1", true);
    assert_eq!(
        handle(&registry, text),
        vec![private("1", "fr"), private("2", "fr"), private("3", "es"), private("5", "es/mexican")]
    );

    registry.set_mode("g", "c", ChannelMode::On);
    registry.unsubscribe_all("g", "c", "1");
    registry.unsubscribe("g", "c", "5", "es");
    assert_eq!(handle(&registry, text), vec![private("2", "fr"), private("3", "es")]);

    registry.set_mode("g", "c", ChannelMode::Off);
    assert!(handle(&registry, text).is_empty());
}

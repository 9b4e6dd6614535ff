use fabrica::config::{
    default_backend, default_db_path, default_host, default_language, default_languages,
    default_model, default_openrouter_api_key, default_openrouter_url, default_palace_url,
    default_port, default_workspace, expand_env, lookup, lookup_or, next_placeholder, substitute,
    Config, ConfigError, EnvVar, Placeholder,
};

fn env(pairs: &[(&str, &str)]) -> Vec<EnvVar> {
    pairs.iter().map(|(n, v)| EnvVar { name: n.to_string(), value: v.to_string() }).collect()
}

/// Replaces placeholders until none is left, as a caller would.
fn expand(s: &str, vars: &[EnvVar]) -> String {
    let vars = vars.to_vec();
    let mut text = s.to_string();
    while let Some(p) = next_placeholder(&text) {
        let value = lookup(&vars, &p.name).unwrap_or_default();
        text = substitute(&text, &p, &value);
    }
    text
}

#[test]
fn defaults() {
    assert_eq!(default_db_path(), "fabrica.db");
    assert_eq!(default_backend(), "palace");
    assert_eq!(default_palace_url(), "http://localhost:19848");
    assert_eq!(default_openrouter_url(), "https://openrouter.ai/api/v1");
    assert_eq!(default_openrouter_api_key(), "");
    assert_eq!(default_model(), "mistral");
    assert_eq!(default_language(), "en");
    assert_eq!(default_languages(), vec!["en", "hi"]);
    assert_eq!(default_workspace(), "riff");
    assert_eq!(default_host(), "0.0.0.0");
    assert_eq!(default_port(), 8080);
}

#[test]
fn environment_lookup() {
    let vars = env(&[("A", "1"), ("B", ""), ("A", "2")]);
    assert_eq!(lookup(&vars, "A"), Some("1".to_string()));
    assert_eq!(lookup(&vars, "B"), Some(String::new()));
    assert_eq!(lookup(&vars, "C"), None);
    assert_eq!(lookup(&vars, "a"), None);
    assert_eq!(lookup_or(&vars, "A", "x".to_string()), "1");
    assert_eq!(lookup_or(&vars, "C", "x".to_string()), "x");
}

#[test]
fn token_is_required() {
    assert_eq!(Config::from_environment(&env(&[])).err(), Some(ConfigError::MissingToken));
    assert_eq!(
        Config::from_environment(&env(&[("DISCORD_APP_ID", "5")])).err(),
        Some(ConfigError::MissingToken)
    );
}

#[test]
fn configuration_from_token_alone() {
    let config = Config::from_environment(&env(&[("DISCORD_TOKEN", "t")])).unwrap();
    assert_eq!(config.discord.token, "t");
    assert_eq!(config.discord.application_id, 0);
    assert_eq!(config.discord.guild_id, None);
    assert!(config.discord.guild_ids.is_empty());
    assert!(config.discord.admin_ids.is_empty());
    assert_eq!(config.database.path, "fabrica.db");
    assert_eq!(config.translation.backend, "palace");
    assert_eq!(config.translation.palace_url, "http://localhost:19848");
    assert_eq!(config.translation.openrouter_url, "https://openrouter.ai/api/v1");
    assert_eq!(config.translation.openrouter_api_key, "");
    assert_eq!(config.translation.model, "mistral");
    assert_eq!(config.translation.default_language, "en");
    assert_eq!(config.translation.supported_languages, vec!["en", "hi"]);
    assert_eq!(config.plane.url, "https://plane.riff.cc");
    assert_eq!(config.plane.api_key, "");
    assert_eq!(config.plane.workspace, "riff");
    assert_eq!(config.github.token, None);
    assert_eq!(config.github.webhook_secret, None);
    assert_eq!(config.github.org, None);
    assert_eq!(config.webhooks.host, "0.0.0.0");
    assert_eq!(config.webhooks.port, 8080);
    assert_eq!(config.webhooks.base_url, None);
}

#[test]
fn configuration_from_a_full_environment() {
    let config = Config::from_environment(&env(&[
        ("DISCORD_TOKEN", "t"),
        ("DISCORD_APP_ID", "12345678901234567890"),
        ("DISCORD_GUILD_ID", "42"),
        ("DATABASE_PATH", "/var/db"),
        ("TRANSLATION_BACKEND", "openrouter"),
        ("PALACE_URL", "http://p"),
        ("OPENROUTER_URL", "http://o"),
        ("OPENROUTER_API_KEY", "k"),
        ("TRANSLATION_MODEL", "m"),
        ("PLANE_URL", "http://plane"),
        ("PLANE_API_KEY", "pk"),
        ("PLANE_WORKSPACE", "w"),
        ("GITHUB_TOKEN", "gt"),
        ("GITHUB_WEBHOOK_SECRET", "gs"),
        ("GITHUB_ORG", "org"),
        ("WEBHOOK_HOST", "127.0.0.1"),
        ("WEBHOOK_PORT", "9090"),
        ("WEBHOOK_BASE_URL", "http://hook"),
    ]))
    .unwrap();
    assert_eq!(config.discord.application_id, 12345678901234567890);
    assert_eq!(config.discord.guild_id, Some(42));
    assert_eq!(config.database.path, "/var/db");
    assert_eq!(config.translation.backend, "openrouter");
    assert_eq!(config.translation.palace_url, "http://p");
    assert_eq!(config.translation.openrouter_url, "http://o");
    assert_eq!(config.translation.openrouter_api_key, "k");
    assert_eq!(config.translation.model, "m");
    assert_eq!(config.plane.url, "http://plane");
    assert_eq!(config.plane.api_key, "pk");
    assert_eq!(config.plane.workspace, "w");
    assert_eq!(config.github.token.as_deref(), Some("gt"));
    assert_eq!(config.github.webhook_secret.as_deref(), Some("gs"));
    assert_eq!(config.github.org.as_deref(), Some("org"));
    assert_eq!(config.webhooks.host, "127.0.0.1");
    assert_eq!(config.webhooks.port, 9090);
    assert_eq!(config.webhooks.base_url.as_deref(), Some("http://hook"));
}

#[test]
fn numbers_that_are_none_fall_back() {
    let config = Config::from_environment(&env(&[
        ("DISCORD_TOKEN", "t"),
        ("DISCORD_APP_ID", "abc"),
        ("DISCORD_GUILD_ID", "-1"),
        ("WEBHOOK_PORT", "65536"),
    ]))
    .unwrap();
    assert_eq!(config.discord.application_id, 0);
    assert_eq!(config.discord.guild_id, None);
    assert_eq!(config.webhooks.port, 8080);
    let config =
        Config::from_environment(&env(&[("DISCORD_TOKEN", "t"), ("WEBHOOK_PORT", "65535")])).unwrap();
    assert_eq!(config.webhooks.port, 65535);
}

#[test]
fn placeholders_are_found() {
    let found = |s: &str| next_placeholder(s).map(|p| (p.start, p.end, p.name));
    assert_eq!(found("${TEST_VAR}"), Some((0, 10, "TEST_VAR".to_string())));
    assert_eq!(found("prefix_${A}_suffix"), Some((7, 10, "A".to_string())));
    assert_eq!(found("${}"), Some((0, 2, String::new())));
    assert_eq!(found("}${A}${B}"), Some((1, 4, "A".to_string())));
    assert_eq!(found("é${Ä}é"), Some((1, 4, "Ä".to_string())));
    assert_eq!(found("${A"), None);
    assert_eq!(found("$A}"), None);
    assert_eq!(found("plain"), None);
    assert_eq!(found(""), None);
}

#[test]
fn placeholders_are_replaced() {
    let p = Placeholder { start: 7, end: 10, name: "A".to_string() };
    assert_eq!(substitute("prefix_${A}_suffix", &p, "hello"), "prefix_hello_suffix");
    assert_eq!(substitute("prefix_${A}_suffix", &p, ""), "prefix__suffix");
    let outside = Placeholder { start: 7, end: 18, name: "A".to_string() };
    assert_eq!(substitute("prefix_${A}_suffix", &outside, "x"), "prefix_${A}_suffix");
    let backwards = Placeholder { start: 5, end: 4, name: "A".to_string() };
    assert_eq!(substitute("prefix_${A}_suffix", &backwards, "x"), "prefix_${A}_suffix");
}

#[test]
fn expansion_of_configured_values() {
    let vars = env(&[("TEST_VAR", "hello"), ("B", "${TEST_VAR}!")]);
    assert_eq!(expand("${TEST_VAR}", &vars), "hello");
    assert_eq!(expand("prefix_${TEST_VAR}_suffix", &vars), "prefix_hello_suffix");
    assert_eq!(expand("${MISSING}", &vars), "");
    assert_eq!(expand("${TEST_VAR}${TEST_VAR}", &vars), "hellohello");
    assert_eq!(expand("${B}", &vars), "hello!");
    assert_eq!(expand("no placeholder", &vars), "no placeholder");
    assert_eq!(expand("${open", &vars), "${open");
}

fn expansion(s: &str, vars: &[(&str, &str)], rounds: usize) -> (String, bool) {
    let e = expand_env(s, &env(vars), rounds);
    (e.text, e.finished)
}

#[test]
fn test_expand_env() {
    let vars = [("TEST_VAR", "hello")];
    assert_eq!(expansion("${TEST_VAR}", &vars, 8), ("hello".to_string(), true));
    assert_eq!(
        expansion("prefix_${TEST_VAR}_suffix", &vars, 8),
        ("prefix_hello_suffix".to_string(), true)
    );
}

#[test]
fn expansion_goes_on_as_far_as_it_is_let() {
    let vars = [("A", "${B}${B}"), ("B", "b"), ("LOOP", "x${LOOP}")];
    assert_eq!(expansion("plain", &vars, 0), ("plain".to_string(), true));
    assert_eq!(expansion("${A}", &vars, 0), ("${A}".to_string(), false));
    assert_eq!(expansion("${A}", &vars, 1), ("${B}${B}".to_string(), false));
    assert_eq!(expansion("${A}", &vars, 2), ("b${B}".to_string(), false));
    assert_eq!(expansion("${A}", &vars, 3), ("bb".to_string(), true));
    assert_eq!(expansion("${A}", &vars, 99), ("bb".to_string(), true));
    assert_eq!(expansion("${NONE}!", &vars, 1), ("!".to_string(), true));
    assert_eq!(expansion("${LOOP}", &vars, 3), ("xxx${LOOP}".to_string(), false));
    assert_eq!(expansion("${open", &vars, 3), ("${open".to_string(), true));
}

#[test]
fn secrets_of_a_configuration_are_expanded() {
    let vars = env(&[("DISCORD_TOKEN", "${T}"), ("PLANE_API_KEY", "k-${K}"), ("GITHUB_TOKEN", "${G}"),
        ("GITHUB_ORG", "${T}"), ("T", "token"), ("K", "key"), ("G", "${G}")]);
    let mut config = Config::from_environment(&vars).unwrap();
    assert!(!config.expand_env_vars(&vars, 4));
    assert_eq!(config.discord.token, "token");
    assert_eq!(config.plane.api_key, "k-key");
    assert_eq!(config.github.token.as_deref(), Some("${G}"));
    assert_eq!(config.github.webhook_secret, None);
    assert_eq!(config.github.org.as_deref(), Some("${T}"));
    assert_eq!(config.plane.url, "https://plane.riff.cc");

    let vars = env(&[("DISCORD_TOKEN", "${T}"), ("GITHUB_WEBHOOK_SECRET", "s${T}"), ("T", "t")]);
    let mut config = Config::from_environment(&vars).unwrap();
    assert!(config.expand_env_vars(&vars, 4));
    assert_eq!(config.discord.token, "t");
    assert_eq!(config.github.webhook_secret.as_deref(), Some("st"));
    assert_eq!(config.github.token, None);
}

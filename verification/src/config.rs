//! Configuration of the bot and the defaults of its optional settings.

use vstd::prelude::*;
use vstd::string::StringExecFns;
use crate::number::{bounded_value, parse_bounded, parse_u64};
use crate::text::{find_char, find_substring, first_occurrence, from_chars, position, to_chars};

verus! {

/// The whole configuration.
#[derive(Clone, Debug)]
pub struct Config {
    pub discord: DiscordConfig,
    pub database: DatabaseConfig,
    pub translation: TranslationConfig,
    pub plane: PlaneConfig,
    pub github: GithubConfig,
    pub webhooks: WebhookConfig,
}

/// Credentials for the chat platform, and who may use the bot.
#[derive(Clone, Debug)]
pub struct DiscordConfig {
    pub token: String,
    pub application_id: u64,
    pub guild_id: Option<u64>,
    /// The guilds whose messages are handled.
    pub guild_ids: Vec<String>,
    /// Users who pass every permission check.
    pub admin_ids: Vec<String>,
}

/// Where the store lives.
#[derive(Clone, Debug)]
pub struct DatabaseConfig {
    pub path: String,
}

/// The translation backend.
#[derive(Clone, Debug)]
pub struct TranslationConfig {
    pub backend: String,
    pub palace_url: String,
    pub openrouter_url: String,
    pub openrouter_api_key: String,
    pub model: String,
    pub default_language: String,
    pub supported_languages: Vec<String>,
}

/// The project tracker.
#[derive(Clone, Debug)]
pub struct PlaneConfig {
    pub url: String,
    pub api_key: String,
    pub workspace: String,
}

/// The code host.
#[derive(Clone, Debug)]
pub struct GithubConfig {
    pub token: Option<String>,
    pub webhook_secret: Option<String>,
    pub org: Option<String>,
}

/// The webhook listener.
#[derive(Clone, Debug)]
pub struct WebhookConfig {
    pub host: String,
    pub port: u16,
    pub base_url: Option<String>,
}

/// The store's file when none is configured.
pub fn default_db_path() -> (r: String)
    ensures
        r@ == "fabrica.db"@,
{
    "fabrica.db".to_string()
}

/// The backend when none is configured.
pub fn default_backend() -> (r: String)
    ensures
        r@ == "palace"@,
{
    "palace".to_string()
}

/// The local backend's address when none is configured.
pub fn default_palace_url() -> (r: String)
    ensures
        r@ == "http://localhost:19848"@,
{
    "http://localhost:19848".to_string()
}

/// The hosted backend's address when none is configured.
pub fn default_openrouter_url() -> (r: String)
    ensures
        r@ == "https://openrouter.ai/api/v1"@,
{
    "https://openrouter.ai/api/v1".to_string()
}

/// The hosted backend's credential when none is configured: empty.
pub fn default_openrouter_api_key() -> (r: String)
    ensures
        r@ == ""@,
{
    "".to_string()
}

/// The model when none is configured.
pub fn default_model() -> (r: String)
    ensures
        r@ == "mistral"@,
{
    "mistral".to_string()
}

/// The language assumed when none is configured.
pub fn default_language() -> (r: String)
    ensures
        r@ == "en"@,
{
    "en".to_string()
}

/// The languages offered when none are configured.
pub fn default_languages() -> (r: Vec<String>)
    ensures
        r.deep_view() == seq!["en"@, "hi"@],
{
    let mut r: Vec<String> = Vec::new();
    r.push("en".to_string());
    r.push("hi".to_string());
    assert(r.deep_view() =~= seq!["en"@, "hi"@]);
    r
}

/// The tracker's workspace when none is configured.
pub fn default_workspace() -> (r: String)
    ensures
        r@ == "riff"@,
{
    "riff".to_string()
}

/// The address the webhook listener binds when none is configured.
pub fn default_host() -> (r: String)
    ensures
        r@ == "0.0.0.0"@,
{
    "0.0.0.0".to_string()
}

/// The port the webhook listener binds when none is configured.
pub fn default_port() -> (r: u16)
    ensures
        r == 8080,
{
    8080
}

/// One variable of the process environment.
#[derive(Clone, Debug)]
pub struct EnvVar {
    pub name: String,
    pub value: String,
}

/// Why no configuration could be made from the environment.
#[derive(Clone, Copy, Debug, PartialEq, Eq, Structural)]
pub enum ConfigError {
    /// The variable `DISCORD_TOKEN` is not set.
    MissingToken,
}

/// A reference to a variable in a configured value, written `${NAME}`.
#[derive(Clone, Debug)]
pub struct Placeholder {
    /// Where the `$` stands.
    pub start: usize,
    /// Where the closing brace stands.
    pub end: usize,
    /// The variable's name.
    pub name: String,
}

/// The value of the variable `name`, if it is set.
pub open spec fn env_value(vars: Seq<EnvVar>, name: Seq<char>) -> Option<Seq<char>>
    decreases vars.len(),
{
    if vars.len() == 0 {
        None
    } else if vars[0].name@ == name {
        Some(vars[0].value@)
    } else {
        env_value(vars.drop_first(), name)
    }
}

/// The value of the variable `name`, or `default` where it is not set.
pub open spec fn env_or(vars: Seq<EnvVar>, name: Seq<char>, default: Seq<char>) -> Seq<char> {
    match env_value(vars, name) {
        Some(v) => v,
        None => default,
    }
}

/// The number that the variable `name` holds, if it holds one of at most `max`.
pub open spec fn env_number(vars: Seq<EnvVar>, name: Seq<char>, max: nat) -> Option<nat> {
    match env_value(vars, name) {
        Some(v) => bounded_value(v, max),
        None => None,
    }
}

/// The first placeholder in `s`: from the first `${` to the first closing
/// brace behind it.
pub open spec fn first_placeholder(s: Seq<char>) -> Option<(int, int)> {
    match first_occurrence(s, "${"@) {
        Some(start) => match position(s.skip(start), '}') {
            Some(offset) => Some((start, start + offset)),
            None => None,
        },
        None => None,
    }
}

/// `s` with the text from `start` to `end`, both included, replaced by `value`.
pub open spec fn substituted(s: Seq<char>, start: int, end: int, value: Seq<char>) -> Seq<char> {
    s.take(start) + value + s.skip(end + 1)
}

impl Config {
    /// Whether this is the configuration that the environment `vars`
    /// describes: every setting from its variable, and its default where the
    /// variable is not set or, for a number, does not hold one.
    pub open spec fn describes(self, vars: Seq<EnvVar>) -> bool {
        &&& env_value(vars, "DISCORD_TOKEN"@) == Some(self.discord.token@)
        &&& self.discord.application_id == (match env_number(
            vars,
            "DISCORD_APP_ID"@,
            u64::MAX as nat,
        ) {
            Some(n) => n as u64,
            None => 0u64,
        })
        &&& self.discord.guild_id == (match env_number(vars, "DISCORD_GUILD_ID"@, u64::MAX as nat) {
            Some(n) => Some(n as u64),
            None => None,
        })
        &&& self.discord.guild_ids@.len() == 0
        &&& self.discord.admin_ids@.len() == 0
        &&& self.database.path@ == env_or(vars, "DATABASE_PATH"@, "fabrica.db"@)
        &&& self.translation.backend@ == env_or(vars, "TRANSLATION_BACKEND"@, "palace"@)
        &&& self.translation.palace_url@ == env_or(vars, "PALACE_URL"@, "http://localhost:19848"@)
        &&& self.translation.openrouter_url@ == env_or(
            vars,
            "OPENROUTER_URL"@,
            "https://openrouter.ai/api/v1"@,
        )
        &&& self.translation.openrouter_api_key@ == env_or(vars, "OPENROUTER_API_KEY"@, ""@)
        &&& self.translation.model@ == env_or(vars, "TRANSLATION_MODEL"@, "mistral"@)
        &&& self.translation.default_language@ == "en"@
        &&& self.translation.supported_languages.deep_view() == seq!["en"@, "hi"@]
        &&& self.plane.url@ == env_or(vars, "PLANE_URL"@, "https://plane.riff.cc"@)
        &&& self.plane.api_key@ == env_or(vars, "PLANE_API_KEY"@, Seq::empty())
        &&& self.plane.workspace@ == env_or(vars, "PLANE_WORKSPACE"@, "riff"@)
        &&& self.github.token.deep_view() == env_value(vars, "GITHUB_TOKEN"@)
        &&& self.github.webhook_secret.deep_view() == env_value(vars, "GITHUB_WEBHOOK_SECRET"@)
        &&& self.github.org.deep_view() == env_value(vars, "GITHUB_ORG"@)
        &&& self.webhooks.host@ == env_or(vars, "WEBHOOK_HOST"@, "0.0.0.0"@)
        &&& self.webhooks.port == (match env_number(vars, "WEBHOOK_PORT"@, u16::MAX as nat) {
            Some(n) => n as u16,
            None => 8080u16,
        })
        &&& self.webhooks.base_url.deep_view() == env_value(vars, "WEBHOOK_BASE_URL"@)
    }

    /// Makes the configuration that the environment describes. Only the
    /// platform's token has no default.
    pub fn from_environment(vars: &Vec<EnvVar>) -> (r: Result<Config, ConfigError>)
        ensures
            match r {
                Ok(config) => config.describes(vars@),
                Err(e) => e == ConfigError::MissingToken && env_value(vars@, "DISCORD_TOKEN"@)
                    is None,
            },
    {
        let token = match lookup(vars, "DISCORD_TOKEN") {
            Some(t) => t,
            None => {
                return Err(ConfigError::MissingToken);
            },
        };
        let application_id = match lookup(vars, "DISCORD_APP_ID") {
            Some(v) => match parse_u64(v.as_str()) {
                Some(n) => n,
                None => 0,
            },
            None => 0,
        };
        let guild_id = match lookup(vars, "DISCORD_GUILD_ID") {
            Some(v) => parse_u64(v.as_str()),
            None => None,
        };
        let port = match lookup(vars, "WEBHOOK_PORT") {
            Some(v) => match parse_bounded(v.as_str(), 65535) {
                Some(n) => n as u16,
                None => default_port(),
            },
            None => default_port(),
        };
        Ok(
            Config {
                discord: DiscordConfig {
                    token,
                    application_id,
                    guild_id,
                    guild_ids: Vec::new(),
                    admin_ids: Vec::new(),
                },
                database: DatabaseConfig { path: lookup_or(vars, "DATABASE_PATH", default_db_path()) },
                translation: TranslationConfig {
                    backend: lookup_or(vars, "TRANSLATION_BACKEND", default_backend()),
                    palace_url: lookup_or(vars, "PALACE_URL", default_palace_url()),
                    openrouter_url: lookup_or(vars, "OPENROUTER_URL", default_openrouter_url()),
                    openrouter_api_key: lookup_or(
                        vars,
                        "OPENROUTER_API_KEY",
                        default_openrouter_api_key(),
                    ),
                    model: lookup_or(vars, "TRANSLATION_MODEL", default_model()),
                    default_language: default_language(),
                    supported_languages: default_languages(),
                },
                plane: PlaneConfig {
                    url: lookup_or(vars, "PLANE_URL", "https://plane.riff.cc".to_string()),
                    api_key: lookup_or(vars, "PLANE_API_KEY", String::new()),
                    workspace: lookup_or(vars, "PLANE_WORKSPACE", default_workspace()),
                },
                github: GithubConfig {
                    token: lookup(vars, "GITHUB_TOKEN"),
                    webhook_secret: lookup(vars, "GITHUB_WEBHOOK_SECRET"),
                    org: lookup(vars, "GITHUB_ORG"),
                },
                webhooks: WebhookConfig {
                    host: lookup_or(vars, "WEBHOOK_HOST", default_host()),
                    port,
                    base_url: lookup(vars, "WEBHOOK_BASE_URL"),
                },
            },
        )
    }
}

/// The value of the variable `name`, if it is set.
pub fn lookup(vars: &Vec<EnvVar>, name: &str) -> (value: Option<String>)
    ensures
        value.deep_view() == env_value(vars@, name@),
{
    let mut i: usize = 0;
    assert(vars@.skip(0) =~= vars@);
    while i < vars.len()
        invariant
            i <= vars.len(),
            env_value(vars@, name@) == env_value(vars@.skip(i as int), name@),
        decreases vars.len() - i,
    {
        assert(vars@.skip(i as int).drop_first() =~= vars@.skip(i + 1));
        if vars[i].name.as_str().eq(name) {
            return Some(vars[i].value.clone());
        }
        i += 1;
    }
    None
}

/// The value of the variable `name`, or `default` where it is not set.
pub fn lookup_or(vars: &Vec<EnvVar>, name: &str, default: String) -> (value: String)
    ensures
        value@ == env_or(vars@, name@, default@),
{
    match lookup(vars, name) {
        Some(v) => v,
        None => default,
    }
}

/// Finds the first placeholder in a configured value.
pub fn next_placeholder(s: &str) -> (found: Option<Placeholder>)
    ensures
        match found {
            Some(p) => first_placeholder(s@) == Some((p.start as int, p.end as int)) && p.start + 2
                <= p.end < s@.len() && p.name@ == s@.subrange(p.start + 2, p.end as int),
            None => first_placeholder(s@) is None,
        },
{
    let v = to_chars(s);
    let opener = to_chars("${");
    proof {
        reveal_strlit("${");
    }
    match find_substring(&v, &opener) {
        Some(start) => {
            let rest = from_chars(&v, start, v.len());
            assert(rest@ =~= s@.skip(start as int));
            let tail = to_chars(rest.as_str());
            match find_char(&tail, '}') {
                Some(offset) => {
                    proof {
                        crate::text::lemma_first_occurrence_occurs(v@, opener@);
                        assert(v@.subrange(start as int, start + 2)[0] == '$');
                        assert(v@.subrange(start as int, start + 2)[1] == '{');
                        assert(tail@[0] == '$');
                        assert(tail@[1] == '{');
                    }
                    let name = from_chars(&v, start + 2, start + offset);
                    Some(Placeholder { start, end: start + offset, name })
                },
                None => None,
            }
        },
        None => None,
    }
}

/// Replaces a placeholder by the value of its variable. A placeholder that
/// does not lie within `s` leaves it as it is.
pub fn substitute(s: &str, placeholder: &Placeholder, value: &str) -> (r: String)
    ensures
        r@ == (if placeholder.start <= placeholder.end < s@.len() {
            substituted(s@, placeholder.start as int, placeholder.end as int, value@)
        } else {
            s@
        }),
{
    let v = to_chars(s);
    if placeholder.start > placeholder.end || placeholder.end >= v.len() {
        return s.to_string();
    }
    let mut r = from_chars(&v, 0, placeholder.start);
    assert(r@ =~= s@.take(placeholder.start as int));
    r.append(value);
    let rest = from_chars(&v, placeholder.end + 1, v.len());
    assert(rest@ =~= s@.skip(placeholder.end + 1));
    r.append(rest.as_str());
    r
}

/// A configured value in which placeholders were replaced.
#[derive(Clone, Debug)]
pub struct Expansion {
    /// The value as far as it was expanded.
    pub text: String,
    /// Whether no placeholder is left in it.
    pub finished: bool,
}

/// `s` with its placeholders replaced by the values of their variables, a
/// variable that is not set counting as empty. The first placeholder is
/// replaced and the result looked through again from its beginning, so a
/// value that holds a placeholder is expanded in turn. At most `rounds`
/// placeholders are replaced; the second part tells whether none is left.
pub open spec fn expanded(s: Seq<char>, vars: Seq<EnvVar>, rounds: nat) -> (Seq<char>, bool)
    decreases rounds,
{
    match first_placeholder(s) {
        None => (s, true),
        Some((start, end)) => if rounds == 0 {
            (s, false)
        } else {
            expanded(
                substituted(
                    s,
                    start,
                    end,
                    env_or(vars, s.subrange(start + 2, end), Seq::empty()),
                ),
                vars,
                (rounds - 1) as nat,
            )
        },
    }
}

/// The expansion of an optional value.
pub open spec fn expanded_optional(s: Option<String>, vars: Seq<EnvVar>, rounds: nat) -> (
    Option<Seq<char>>,
    bool,
) {
    match s {
        Some(text) => (Some(expanded(text@, vars, rounds).0), expanded(text@, vars, rounds).1),
        None => (None, true),
    }
}

/// Replaces the placeholders in `s`, at most `rounds` of them. Where the
/// result is not finished, the caller may go on from its text.
pub fn expand_env(s: &str, vars: &Vec<EnvVar>, rounds: usize) -> (e: Expansion)
    ensures
        (e.text@, e.finished) == expanded(s@, vars@, rounds as nat),
{
    let mut text = s.to_string();
    let mut left: usize = rounds;
    loop
        invariant
            expanded(text@, vars@, left as nat) == expanded(s@, vars@, rounds as nat),
        decreases left,
    {
        match next_placeholder(text.as_str()) {
            None => {
                return Expansion { text, finished: true };
            },
            Some(placeholder) => {
                if left == 0 {
                    return Expansion { text, finished: false };
                }
                let value = lookup_or(vars, placeholder.name.as_str(), String::new());
                text = substitute(text.as_str(), &placeholder, value.as_str());
                left -= 1;
            },
        }
    }
}

impl Config {
    /// Replaces the placeholders in the secrets of the configuration: the
    /// platform's token, the tracker's key, and the code host's token and
    /// webhook secret. Nothing else changes. The result tells whether all
    /// four are finished.
    pub fn expand_env_vars(&mut self, vars: &Vec<EnvVar>, rounds: usize) -> (finished: bool)
        ensures
            final(self).discord.token@ == expanded(old(self).discord.token@, vars@, rounds as nat).0,
            final(self).plane.api_key@ == expanded(old(self).plane.api_key@, vars@, rounds as nat).0,
            final(self).github.token.deep_view() == expanded_optional(
                old(self).github.token,
                vars@,
                rounds as nat,
            ).0,
            final(self).github.webhook_secret.deep_view() == expanded_optional(
                old(self).github.webhook_secret,
                vars@,
                rounds as nat,
            ).0,
            finished == (expanded(old(self).discord.token@, vars@, rounds as nat).1 && expanded(
                old(self).plane.api_key@,
                vars@,
                rounds as nat,
            ).1 && expanded_optional(old(self).github.token, vars@, rounds as nat).1
                && expanded_optional(old(self).github.webhook_secret, vars@, rounds as nat).1),
            final(self).discord.application_id == old(self).discord.application_id,
            final(self).discord.guild_id == old(self).discord.guild_id,
            final(self).discord.guild_ids == old(self).discord.guild_ids,
            final(self).discord.admin_ids == old(self).discord.admin_ids,
            final(self).database == old(self).database,
            final(self).translation == old(self).translation,
            final(self).plane.url == old(self).plane.url,
            final(self).plane.workspace == old(self).plane.workspace,
            final(self).github.org == old(self).github.org,
            final(self).webhooks == old(self).webhooks,
    {
        let token = expand_env(self.discord.token.as_str(), vars, rounds);
        let api_key = expand_env(self.plane.api_key.as_str(), vars, rounds);
        let mut finished = token.finished && api_key.finished;
        self.discord.token = token.text;
        self.plane.api_key = api_key.text;
        let github_token = match &self.github.token {
            Some(t) => Some(expand_env(t.as_str(), vars, rounds)),
            None => None,
        };
        match github_token {
            Some(e) => {
                finished = finished && e.finished;
                self.github.token = Some(e.text);
            },
            None => {},
        }
        let secret = match &self.github.webhook_secret {
            Some(t) => Some(expand_env(t.as_str(), vars, rounds)),
            None => None,
        };
        match secret {
            Some(e) => {
                finished = finished && e.finished;
                self.github.webhook_secret = Some(e.text);
            },
            None => {},
        }
        finished
    }
}

} // verus!

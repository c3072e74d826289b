//! The launcher's own configuration (`config.json`) and the values derived
//! from it.
//!
//! Reading and writing the file is I/O and stays with the program around the
//! library; everything that decides something from the parsed values is here.
use vstd::prelude::*;

use crate::envvars::{expand_all, expand_env_vars, vars_view};
use crate::fsutil::path_exists;
use crate::text::{
    append_chars, append_str, chars_eq, chars_of, contains_char, decimal, ends_with,
    ends_with_str, push_decimal, slice_chars, starts_with, starts_with_str, str_to_string,
    string_of, trim, trim_str,
};

verus! {

/// How the API key reaches Codex.
#[derive(Clone, Copy, Debug, PartialEq, Eq, Structural)]
pub enum ApiKeyMode {
    EnvKey,
    ExperimentalBearerToken,
    /// No key is handed to Codex (`"none"` in `config.json`).
    NoKey,
}

impl Default for ApiKeyMode {
    fn default() -> (m: ApiKeyMode)
        ensures
            m == ApiKeyMode::ExperimentalBearerToken,
    {
        ApiKeyMode::ExperimentalBearerToken
    }
}

/// Why a configuration could not be read, written or used.  Paths and
/// messages of the underlying I/O or parse errors are carried as text.
#[derive(Clone, Debug)]
pub enum ConfigError {
    Missing(String),
    Read { path: String, message: String },
    Parse { path: String, message: String },
    Serialize { path: String, message: String },
    Write { path: String, message: String },
    MissingBaseUrl,
    ExampleOllamaIp,
    MissingApiKey,
    ExampleApiKey,
    MissingWorkingDirectory(String),
}

/// The text that a configuration error is shown with.
pub open spec fn config_error_text(e: ConfigError) -> Seq<char> {
    match e {
        ConfigError::Missing(p) => "missing config file: "@ + p@
            + "; copy config.example.json to config.json and fill it in"@,
        ConfigError::Read { path, message } => "could not read config file "@ + path@ + ": "@
            + message@,
        ConfigError::Parse { path, message } => "could not parse config file "@ + path@ + ": "@
            + message@,
        ConfigError::Serialize { path, message } => "could not serialize config file "@ + path@
            + ": "@ + message@,
        ConfigError::Write { path, message } => "could not write config file "@ + path@ + ": "@
            + message@,
        ConfigError::MissingBaseUrl => "config.json must set either openaiBaseUrl or ollamaIp"@,
        ConfigError::ExampleOllamaIp =>
            "config.json still has the example ollamaIp; set your actual IP or openaiBaseUrl"@,
        ConfigError::MissingApiKey => "config.json must set apiKey"@,
        ConfigError::ExampleApiKey => "config.json still has the example apiKey"@,
        ConfigError::MissingWorkingDirectory(p) => "workingDirectory does not exist: "@ + p@,
    }
}

impl ConfigError {
    /// The text that the error is shown with.
    pub fn message(&self) -> (r: String)
        ensures
            r@ == config_error_text(*self),
    {
        let mut v: Vec<char> = Vec::new();
        match self {
            ConfigError::Missing(p) => {
                append_str(&mut v, "missing config file: ");
                append_str(&mut v, p.as_str());
                append_str(&mut v, "; copy config.example.json to config.json and fill it in");
            },
            ConfigError::Read { path, message } => {
                append_str(&mut v, "could not read config file ");
                append_str(&mut v, path.as_str());
                append_str(&mut v, ": ");
                append_str(&mut v, message.as_str());
            },
            ConfigError::Parse { path, message } => {
                append_str(&mut v, "could not parse config file ");
                append_str(&mut v, path.as_str());
                append_str(&mut v, ": ");
                append_str(&mut v, message.as_str());
            },
            ConfigError::Serialize { path, message } => {
                append_str(&mut v, "could not serialize config file ");
                append_str(&mut v, path.as_str());
                append_str(&mut v, ": ");
                append_str(&mut v, message.as_str());
            },
            ConfigError::Write { path, message } => {
                append_str(&mut v, "could not write config file ");
                append_str(&mut v, path.as_str());
                append_str(&mut v, ": ");
                append_str(&mut v, message.as_str());
            },
            ConfigError::MissingBaseUrl => {
                append_str(&mut v, "config.json must set either openaiBaseUrl or ollamaIp");
            },
            ConfigError::ExampleOllamaIp => {
                append_str(
                    &mut v,
                    "config.json still has the example ollamaIp; set your actual IP or openaiBaseUrl",
                );
            },
            ConfigError::MissingApiKey => {
                append_str(&mut v, "config.json must set apiKey");
            },
            ConfigError::ExampleApiKey => {
                append_str(&mut v, "config.json still has the example apiKey");
            },
            ConfigError::MissingWorkingDirectory(p) => {
                append_str(&mut v, "workingDirectory does not exist: ");
                append_str(&mut v, p.as_str());
            },
        }
        proof {
            assert(v@ =~= config_error_text(*self));
        }
        string_of(&v)
    }
}

/// The launcher configuration as it is stored in `config.json`.
#[derive(Clone, Debug)]
pub struct LauncherConfig {
    pub auto_start: Option<bool>,
    pub openai_base_url: Option<String>,
    pub ollama_ip: Option<String>,
    pub ollama_port: Option<u16>,
    pub ollama_scheme: Option<String>,
    pub api_key: Option<String>,
    pub persist_codex_config: Option<bool>,
    pub codex_model: Option<String>,
    pub codex_provider_id: Option<String>,
    pub codex_provider_name: Option<String>,
    pub codex_api_key_mode: Option<ApiKeyMode>,
    pub codex_config_path: Option<String>,
    pub codex_command: Option<String>,
    pub codex_api_port: Option<u16>,
    pub codex_api_scheme: Option<String>,
    pub discover_ollama_models: Option<bool>,
    pub codex_args: Option<Vec<String>>,
    pub working_directory: Option<String>,
    /// Automatic failover settings.
    pub failover: Option<FailoverSettings>,
    /// Named profiles that failover can switch to, in the order in which the
    /// file lists them.
    pub profiles: Option<Vec<(String, ProfileOverlay)>>,
}

/// When and where the launcher fails over to another provider.
#[derive(Clone, Debug)]
pub struct FailoverSettings {
    pub enabled: bool,
    pub auto_switch: bool,
    pub monitor_interval_secs: u64,
    pub rate_limit_patterns: Vec<String>,
    pub fallback_chain: Vec<String>,
}

pub struct FailoverModel {
    pub enabled: bool,
    pub auto_switch: bool,
    pub monitor_interval_secs: u64,
    pub rate_limit_patterns: Seq<Seq<char>>,
    pub fallback_chain: Seq<Seq<char>>,
}

impl View for FailoverSettings {
    type V = FailoverModel;

    open spec fn view(&self) -> FailoverModel {
        FailoverModel {
            enabled: self.enabled,
            auto_switch: self.auto_switch,
            monitor_interval_secs: self.monitor_interval_secs,
            rate_limit_patterns: strings_view(self.rate_limit_patterns@),
            fallback_chain: strings_view(self.fallback_chain@),
        }
    }
}

/// The phrases that mark a reply as a rate-limit message, lower case.
pub open spec fn default_rate_limit_patterns_spec() -> Seq<Seq<char>> {
    seq![
        "rate limit"@,
        "rate_limit"@,
        "usage limit"@,
        "too many requests"@,
        "out of messages"@,
        "quota exceeded"@,
        "insufficient_quota"@,
    ]
}

pub fn default_rate_limit_patterns() -> (v: Vec<String>)
    ensures
        strings_view(v@) == default_rate_limit_patterns_spec(),
{
    let mut v: Vec<String> = Vec::new();
    v.push(str_to_string("rate limit"));
    v.push(str_to_string("rate_limit"));
    v.push(str_to_string("usage limit"));
    v.push(str_to_string("too many requests"));
    v.push(str_to_string("out of messages"));
    v.push(str_to_string("quota exceeded"));
    v.push(str_to_string("insufficient_quota"));
    assert(strings_view(v@) =~= default_rate_limit_patterns_spec());
    v
}

impl Default for FailoverSettings {
    fn default() -> (s: FailoverSettings)
        ensures
            s@ == (FailoverModel {
                enabled: false,
                auto_switch: false,
                monitor_interval_secs: 30,
                rate_limit_patterns: default_rate_limit_patterns_spec(),
                fallback_chain: Seq::empty(),
            }),
    {
        let chain: Vec<String> = Vec::new();
        assert(strings_view(chain@) =~= Seq::<Seq<char>>::empty());
        FailoverSettings {
            enabled: false,
            auto_switch: false,
            monitor_interval_secs: 30,
            rate_limit_patterns: default_rate_limit_patterns(),
            fallback_chain: chain,
        }
    }
}

impl FailoverSettings {
    pub fn duplicate(&self) -> (r: FailoverSettings)
        ensures
            r@ == self@,
    {
        FailoverSettings {
            enabled: self.enabled,
            auto_switch: self.auto_switch,
            monitor_interval_secs: self.monitor_interval_secs,
            rate_limit_patterns: clone_strings(&self.rate_limit_patterns),
            fallback_chain: clone_strings(&self.fallback_chain),
        }
    }
}

/// The provider settings of a named profile; a field that is set replaces
/// the launcher's own when the profile is applied.
#[derive(Clone, Debug)]
pub struct ProfileOverlay {
    pub openai_base_url: Option<String>,
    pub ollama_ip: Option<String>,
    pub ollama_port: Option<u16>,
    pub ollama_scheme: Option<String>,
    pub api_key: Option<String>,
    pub codex_model: Option<String>,
    pub codex_provider_id: Option<String>,
    pub codex_provider_name: Option<String>,
    pub codex_api_key_mode: Option<ApiKeyMode>,
    pub working_directory: Option<String>,
}

impl View for ProfileOverlay {
    type V = ConfigModel;

    /// A profile is viewed as the configuration that sets its fields and
    /// nothing else.
    open spec fn view(&self) -> ConfigModel {
        ConfigModel {
            openai_base_url: opt_view(self.openai_base_url),
            ollama_ip: opt_view(self.ollama_ip),
            ollama_port: self.ollama_port,
            ollama_scheme: opt_view(self.ollama_scheme),
            api_key: opt_view(self.api_key),
            codex_model: opt_view(self.codex_model),
            codex_provider_id: opt_view(self.codex_provider_id),
            codex_provider_name: opt_view(self.codex_provider_name),
            codex_api_key_mode: self.codex_api_key_mode,
            working_directory: opt_view(self.working_directory),
            ..empty_model()
        }
    }
}

impl ProfileOverlay {
    /// Sets in `config` every field that this profile sets.
    pub fn apply_to(&self, config: &mut LauncherConfig)
        ensures
            final(config)@ == merged(old(config)@, self@),
            final(config).failover == old(config).failover,
            final(config).profiles == old(config).profiles,
    {
        let mut failover: Option<FailoverSettings> = None;
        let mut profiles: Option<Vec<(String, ProfileOverlay)>> = None;
        std::mem::swap(&mut failover, &mut config.failover);
        std::mem::swap(&mut profiles, &mut config.profiles);
        let m = LauncherConfig {
            auto_start: config.auto_start,
            openai_base_url: pick_string(&config.openai_base_url, &self.openai_base_url),
            ollama_ip: pick_string(&config.ollama_ip, &self.ollama_ip),
            ollama_port: pick_copy(config.ollama_port, self.ollama_port),
            ollama_scheme: pick_string(&config.ollama_scheme, &self.ollama_scheme),
            api_key: pick_string(&config.api_key, &self.api_key),
            persist_codex_config: config.persist_codex_config,
            codex_model: pick_string(&config.codex_model, &self.codex_model),
            codex_provider_id: pick_string(&config.codex_provider_id, &self.codex_provider_id),
            codex_provider_name: pick_string(
                &config.codex_provider_name,
                &self.codex_provider_name,
            ),
            codex_api_key_mode: pick_copy(config.codex_api_key_mode, self.codex_api_key_mode),
            codex_config_path: clone_opt_string(&config.codex_config_path),
            codex_command: clone_opt_string(&config.codex_command),
            codex_api_port: config.codex_api_port,
            codex_api_scheme: clone_opt_string(&config.codex_api_scheme),
            discover_ollama_models: config.discover_ollama_models,
            codex_args: clone_opt_strings(&config.codex_args),
            working_directory: pick_string(&config.working_directory, &self.working_directory),
            failover,
            profiles,
        };
        *config = m;
    }
}

/// The mathematical model of a [`LauncherConfig`]: strings as character
/// sequences.
pub struct ConfigModel {
    pub auto_start: Option<bool>,
    pub openai_base_url: Option<Seq<char>>,
    pub ollama_ip: Option<Seq<char>>,
    pub ollama_port: Option<u16>,
    pub ollama_scheme: Option<Seq<char>>,
    pub api_key: Option<Seq<char>>,
    pub persist_codex_config: Option<bool>,
    pub codex_model: Option<Seq<char>>,
    pub codex_provider_id: Option<Seq<char>>,
    pub codex_provider_name: Option<Seq<char>>,
    pub codex_api_key_mode: Option<ApiKeyMode>,
    pub codex_config_path: Option<Seq<char>>,
    pub codex_command: Option<Seq<char>>,
    pub codex_api_port: Option<u16>,
    pub codex_api_scheme: Option<Seq<char>>,
    pub discover_ollama_models: Option<bool>,
    pub codex_args: Option<Seq<Seq<char>>>,
    pub working_directory: Option<Seq<char>>,
}

pub open spec fn opt_view(o: Option<String>) -> Option<Seq<char>> {
    match o {
        Some(s) => Some(s@),
        None => None,
    }
}

pub open spec fn strings_view(v: Seq<String>) -> Seq<Seq<char>> {
    v.map_values(|s: String| s@)
}

pub open spec fn opt_strings_view(o: Option<Vec<String>>) -> Option<Seq<Seq<char>>> {
    match o {
        Some(v) => Some(strings_view(v@)),
        None => None,
    }
}

impl View for LauncherConfig {
    type V = ConfigModel;

    open spec fn view(&self) -> ConfigModel {
        ConfigModel {
            auto_start: self.auto_start,
            openai_base_url: opt_view(self.openai_base_url),
            ollama_ip: opt_view(self.ollama_ip),
            ollama_port: self.ollama_port,
            ollama_scheme: opt_view(self.ollama_scheme),
            api_key: opt_view(self.api_key),
            persist_codex_config: self.persist_codex_config,
            codex_model: opt_view(self.codex_model),
            codex_provider_id: opt_view(self.codex_provider_id),
            codex_provider_name: opt_view(self.codex_provider_name),
            codex_api_key_mode: self.codex_api_key_mode,
            codex_config_path: opt_view(self.codex_config_path),
            codex_command: opt_view(self.codex_command),
            codex_api_port: self.codex_api_port,
            codex_api_scheme: opt_view(self.codex_api_scheme),
            discover_ollama_models: self.discover_ollama_models,
            codex_args: opt_strings_view(self.codex_args),
            working_directory: opt_view(self.working_directory),
        }
    }
}

/// The model of a configuration with no field set.
pub open spec fn empty_model() -> ConfigModel {
    ConfigModel {
        auto_start: None,
        openai_base_url: None,
        ollama_ip: None,
        ollama_port: None,
        ollama_scheme: None,
        api_key: None,
        persist_codex_config: None,
        codex_model: None,
        codex_provider_id: None,
        codex_provider_name: None,
        codex_api_key_mode: None,
        codex_config_path: None,
        codex_command: None,
        codex_api_port: None,
        codex_api_scheme: None,
        discover_ollama_models: None,
        codex_args: None,
        working_directory: None,
    }
}

impl Default for LauncherConfig {
    fn default() -> (c: LauncherConfig)
        ensures
            c@ == empty_model(),
            c.failover is None,
            c.profiles is None,
    {
        LauncherConfig {
            auto_start: None,
            openai_base_url: None,
            ollama_ip: None,
            ollama_port: None,
            ollama_scheme: None,
            api_key: None,
            persist_codex_config: None,
            codex_model: None,
            codex_provider_id: None,
            codex_provider_name: None,
            codex_api_key_mode: None,
            codex_config_path: None,
            codex_command: None,
            codex_api_port: None,
            codex_api_scheme: None,
            discover_ollama_models: None,
            codex_args: None,
            working_directory: None,
            failover: None,
            profiles: None,
        }
    }
}

// ---------------------------------------------------------------------------
// Value helpers
// ---------------------------------------------------------------------------
/// A set value, trimmed, unless it is absent or blank.
pub open spec fn non_empty_spec(o: Option<Seq<char>>) -> Option<Seq<char>> {
    match o {
        Some(s) => if trim(s).len() > 0 {
            Some(trim(s))
        } else {
            None
        },
        None => None,
    }
}

pub fn non_empty(value: &Option<String>) -> (r: Option<String>)
    ensures
        opt_view(r) == non_empty_spec(opt_view(*value)),
{
    match value {
        Some(v) => {
            let t = trim_str(v.as_str());
            if t.len() > 0 {
                Some(string_of(&t))
            } else {
                None
            }
        },
        None => None,
    }
}

/// `s` without its trailing `/` characters (`trim_end_matches('/')`).
pub open spec fn strip_trailing_slashes(s: Seq<char>) -> Seq<char>
    decreases s.len(),
{
    if s.len() > 0 && s.last() == '/' {
        strip_trailing_slashes(s.drop_last())
    } else {
        s
    }
}

/// A base URL that ends in exactly one `/v1`.
pub open spec fn ensure_v1_spec(raw: Seq<char>) -> Seq<char> {
    let base = strip_trailing_slashes(raw);
    if ends_with(base, "/v1"@) {
        base
    } else {
        base + "/v1"@
    }
}

pub fn strip_slashes(raw: &Vec<char>) -> (r: Vec<char>)
    ensures
        r@ == strip_trailing_slashes(raw@),
{
    let mut j: usize = raw.len();
    assert(raw@.subrange(0, j as int) =~= raw@);
    while j > 0 && raw[j - 1] == '/'
        invariant
            j <= raw.len(),
            strip_trailing_slashes(raw@) == strip_trailing_slashes(raw@.subrange(0, j as int)),
        decreases j,
    {
        assert(raw@.subrange(0, j - 1) =~= raw@.subrange(0, j as int).drop_last());
        j -= 1;
    }
    slice_chars(raw, 0, j)
}

pub fn ensure_v1(raw: &Vec<char>) -> (r: Vec<char>)
    ensures
        r@ == ensure_v1_spec(raw@),
{
    let mut base = strip_slashes(raw);
    if !ends_with_str(&base, "/v1") {
        append_str(&mut base, "/v1");
    }
    base
}

// ---------------------------------------------------------------------------
// Derived settings
// ---------------------------------------------------------------------------
/// The base URL that Codex is pointed at: a bare Ollama host becomes
/// `scheme://host:port/v1` (an IPv6 host in brackets), a host or base URL
/// that is already a URL gets a `/v1` suffix when it lacks one.
pub open spec fn openai_base_url_spec(c: ConfigModel) -> Result<Seq<char>, ConfigError> {
    match non_empty_spec(c.ollama_ip) {
        Some(host) => if host == "100.64.0.10"@ {
            Err(ConfigError::ExampleOllamaIp)
        } else if starts_with(host, "http://"@) || starts_with(host, "https://"@) {
            Ok(ensure_v1_spec(host))
        } else {
            let scheme = match non_empty_spec(c.ollama_scheme) {
                Some(s) => s,
                None => "http"@,
            };
            let port: u16 = match c.ollama_port {
                Some(p) => p,
                None => 11434,
            };
            let h = if host.contains(':') {
                seq!['['] + host + seq![']']
            } else {
                host
            };
            Ok(scheme + "://"@ + h + seq![':'] + decimal(port as nat) + "/v1"@)
        },
        None => match non_empty_spec(c.openai_base_url) {
            Some(b) => Ok(ensure_v1_spec(b)),
            None => Err(ConfigError::MissingBaseUrl),
        },
    }
}

pub open spec fn api_key_spec(c: ConfigModel) -> Result<Seq<char>, ConfigError> {
    match non_empty_spec(c.api_key) {
        Some(k) => if k == "replace-with-your-api-key"@ {
            Err(ConfigError::ExampleApiKey)
        } else {
            Ok(k)
        },
        None => Err(ConfigError::MissingApiKey),
    }
}

/// A field of `other` replaces the same field of `mine` when it is set.
pub open spec fn pick<T>(mine: Option<T>, other: Option<T>) -> Option<T> {
    if other is Some {
        other
    } else {
        mine
    }
}

/// The configuration `a` with every field that `b` sets taken from `b`.
pub open spec fn merged(a: ConfigModel, b: ConfigModel) -> ConfigModel {
    ConfigModel {
        auto_start: pick(a.auto_start, b.auto_start),
        openai_base_url: pick(a.openai_base_url, b.openai_base_url),
        ollama_ip: pick(a.ollama_ip, b.ollama_ip),
        ollama_port: pick(a.ollama_port, b.ollama_port),
        ollama_scheme: pick(a.ollama_scheme, b.ollama_scheme),
        api_key: pick(a.api_key, b.api_key),
        persist_codex_config: pick(a.persist_codex_config, b.persist_codex_config),
        codex_model: pick(a.codex_model, b.codex_model),
        codex_provider_id: pick(a.codex_provider_id, b.codex_provider_id),
        codex_provider_name: pick(a.codex_provider_name, b.codex_provider_name),
        codex_api_key_mode: pick(a.codex_api_key_mode, b.codex_api_key_mode),
        codex_config_path: pick(a.codex_config_path, b.codex_config_path),
        codex_command: pick(a.codex_command, b.codex_command),
        codex_api_port: pick(a.codex_api_port, b.codex_api_port),
        codex_api_scheme: pick(a.codex_api_scheme, b.codex_api_scheme),
        discover_ollama_models: pick(a.discover_ollama_models, b.discover_ollama_models),
        codex_args: pick(a.codex_args, b.codex_args),
        working_directory: pick(a.working_directory, b.working_directory),
    }
}

fn pick_copy<T: Copy>(mine: Option<T>, other: Option<T>) -> (r: Option<T>)
    ensures
        r == pick(mine, other),
{
    if other.is_some() {
        other
    } else {
        mine
    }
}

fn pick_string(mine: &Option<String>, other: &Option<String>) -> (r: Option<String>)
    ensures
        opt_view(r) == pick(opt_view(*mine), opt_view(*other)),
{
    if other.is_some() {
        clone_opt_string(other)
    } else {
        clone_opt_string(mine)
    }
}

fn clone_opt_string(o: &Option<String>) -> (r: Option<String>)
    ensures
        opt_view(r) == opt_view(*o),
{
    match o {
        Some(s) => Some(s.clone()),
        None => None,
    }
}

pub fn clone_strings(v: &Vec<String>) -> (r: Vec<String>)
    ensures
        strings_view(r@) == strings_view(v@),
{
    let mut r: Vec<String> = Vec::new();
    let mut i: usize = 0;
    while i < v.len()
        invariant
            i <= v.len(),
            strings_view(r@) == strings_view(v@.subrange(0, i as int)),
        decreases v.len() - i,
    {
        let c = v[i].clone();
        assert(c == v@[i as int]);
        let ghost before = r@;
        r.push(c);
        i += 1;
        assert(v@.subrange(0, i as int) =~= v@.subrange(0, i - 1).push(c));
        assert(strings_view(r@) =~= strings_view(before).push(c@));
        assert(strings_view(v@.subrange(0, i as int)) =~= strings_view(v@.subrange(0, i - 1)).push(
            c@,
        ));
    }
    assert(v@.subrange(0, v.len() as int) =~= v@);
    r
}

fn clone_opt_strings(o: &Option<Vec<String>>) -> (r: Option<Vec<String>>)
    ensures
        opt_strings_view(r) == opt_strings_view(*o),
{
    match o {
        Some(v) => Some(clone_strings(v)),
        None => None,
    }
}

impl LauncherConfig {
    /// The OpenAI-compatible base URL that Codex is pointed at.
    pub fn openai_base_url(&self) -> (r: Result<String, ConfigError>)
        ensures
            match r {
                Ok(s) => openai_base_url_spec(self@) == Ok::<Seq<char>, ConfigError>(s@),
                Err(e) => openai_base_url_spec(self@) == Err::<Seq<char>, ConfigError>(e),
            },
    {
        if let Some(host_s) = non_empty(&self.ollama_ip) {
            let host = chars_of(host_s.as_str());
            let example = chars_of("100.64.0.10");
            if chars_eq(&host, &example) {
                return Err(ConfigError::ExampleOllamaIp);
            }
            if starts_with_str(&host, "http://") || starts_with_str(&host, "https://") {
                let u = ensure_v1(&host);
                return Ok(string_of(&u));
            }
            let mut out: Vec<char> = match non_empty(&self.ollama_scheme) {
                Some(s) => chars_of(s.as_str()),
                None => chars_of("http"),
            };
            let port: u16 = match self.ollama_port {
                Some(p) => p,
                None => 11434,
            };
            append_str(&mut out, "://");
            if contains_char(&host, ':') {
                out.push('[');
                append_chars(&mut out, &host);
                out.push(']');
            } else {
                append_chars(&mut out, &host);
            }
            out.push(':');
            push_decimal(&mut out, port as u64);
            append_str(&mut out, "/v1");
            let ghost h = if host@.contains(':') {
                seq!['['] + host@ + seq![']']
            } else {
                host@
            };
            assert(out@ =~= (match non_empty_spec(self@.ollama_scheme) {
                Some(s) => s,
                None => "http"@,
            }) + "://"@ + h + seq![':'] + decimal(port as nat) + "/v1"@);
            return Ok(string_of(&out));
        }
        if let Some(base) = non_empty(&self.openai_base_url) {
            let b = chars_of(base.as_str());
            let u = ensure_v1(&b);
            return Ok(string_of(&u));
        }
        Err(ConfigError::MissingBaseUrl)
    }

    /// Sets every field that `other` sets, and leaves the others.
    pub fn merge_from(&mut self, other: &LauncherConfig)
        ensures
            final(self)@ == merged(old(self)@, other@),
            final(self).failover == old(self).failover,
            final(self).profiles == old(self).profiles,
    {
        let mut failover: Option<FailoverSettings> = None;
        let mut profiles: Option<Vec<(String, ProfileOverlay)>> = None;
        std::mem::swap(&mut failover, &mut self.failover);
        std::mem::swap(&mut profiles, &mut self.profiles);
        let m = LauncherConfig {
            auto_start: pick_copy(self.auto_start, other.auto_start),
            openai_base_url: pick_string(&self.openai_base_url, &other.openai_base_url),
            ollama_ip: pick_string(&self.ollama_ip, &other.ollama_ip),
            ollama_port: pick_copy(self.ollama_port, other.ollama_port),
            ollama_scheme: pick_string(&self.ollama_scheme, &other.ollama_scheme),
            api_key: pick_string(&self.api_key, &other.api_key),
            persist_codex_config: pick_copy(self.persist_codex_config, other.persist_codex_config),
            codex_model: pick_string(&self.codex_model, &other.codex_model),
            codex_provider_id: pick_string(&self.codex_provider_id, &other.codex_provider_id),
            codex_provider_name: pick_string(
                &self.codex_provider_name,
                &other.codex_provider_name,
            ),
            codex_api_key_mode: pick_copy(self.codex_api_key_mode, other.codex_api_key_mode),
            codex_config_path: pick_string(&self.codex_config_path, &other.codex_config_path),
            codex_command: pick_string(&self.codex_command, &other.codex_command),
            codex_api_port: pick_copy(self.codex_api_port, other.codex_api_port),
            codex_api_scheme: pick_string(&self.codex_api_scheme, &other.codex_api_scheme),
            discover_ollama_models: pick_copy(
                self.discover_ollama_models,
                other.discover_ollama_models,
            ),
            codex_args: if other.codex_args.is_some() {
                clone_opt_strings(&other.codex_args)
            } else {
                clone_opt_strings(&self.codex_args)
            },
            working_directory: pick_string(&self.working_directory, &other.working_directory),
            failover,
            profiles,
        };
        *self = m;
    }

    /// The configured API key; an absent, blank or example key is an error.
    pub fn api_key(&self) -> (r: Result<String, ConfigError>)
        ensures
            match r {
                Ok(s) => api_key_spec(self@) == Ok::<Seq<char>, ConfigError>(s@),
                Err(e) => api_key_spec(self@) == Err::<Seq<char>, ConfigError>(e),
            },
    {
        let Some(key) = non_empty(&self.api_key) else {
            return Err(ConfigError::MissingApiKey);
        };
        let k = chars_of(key.as_str());
        let example = chars_of("replace-with-your-api-key");
        if chars_eq(&k, &example) {
            return Err(ConfigError::ExampleApiKey);
        }
        Ok(key)
    }

    /// The API key when one is configured (not blank and not the example).
    pub fn api_key_if_configured(&self) -> (r: Option<String>)
        ensures
            opt_view(r) == (match api_key_spec(self@) {
                Ok(k) => Some(k),
                Err(_) => None::<Seq<char>>,
            }),
    {
        match self.api_key() {
            Ok(k) => Some(k),
            Err(_) => None,
        }
    }

    /// Extra arguments for Codex; none when unset.
    pub fn codex_args(&self) -> (r: Vec<String>)
        ensures
            strings_view(r@) == (match self@.codex_args {
                Some(a) => a,
                None => Seq::<Seq<char>>::empty(),
            }),
    {
        match &self.codex_args {
            Some(v) => clone_strings(v),
            None => {
                let r: Vec<String> = Vec::new();
                assert(strings_view(r@) =~= Seq::<Seq<char>>::empty());
                r
            },
        }
    }

    pub fn persist_codex_config(&self) -> (r: bool)
        ensures
            r == (match self.persist_codex_config {
                Some(b) => b,
                None => true,
            }),
    {
        match self.persist_codex_config {
            Some(b) => b,
            None => true,
        }
    }

    pub fn codex_model(&self) -> (r: Option<String>)
        ensures
            opt_view(r) == non_empty_spec(self@.codex_model),
    {
        non_empty(&self.codex_model)
    }

    pub fn discover_ollama_models(&self) -> (r: bool)
        ensures
            r == (match self.discover_ollama_models {
                Some(b) => b,
                None => true,
            }),
    {
        match self.discover_ollama_models {
            Some(b) => b,
            None => true,
        }
    }

    pub fn codex_provider_id(&self) -> (r: String)
        ensures
            r@ == provider_id_spec(self@),
    {
        match non_empty(&self.codex_provider_id) {
            Some(s) => s,
            None => str_to_string("codex-launchpad"),
        }
    }

    pub fn codex_provider_name(&self) -> (r: String)
        ensures
            r@ == (match non_empty_spec(self@.codex_provider_name) {
                Some(s) => s,
                None => "Codex Launchpad"@,
            }),
    {
        match non_empty(&self.codex_provider_name) {
            Some(s) => s,
            None => str_to_string("Codex Launchpad"),
        }
    }

    pub fn codex_api_key_mode(&self) -> (r: ApiKeyMode)
        ensures
            r == (match self.codex_api_key_mode {
                Some(m) => m,
                None => ApiKeyMode::ExperimentalBearerToken,
            }),
    {
        match self.codex_api_key_mode {
            Some(m) => m,
            None => ApiKeyMode::ExperimentalBearerToken,
        }
    }

    /// The configured Codex `config.toml` path with environment variables
    /// expanded.
    pub fn codex_config_path(&self, vars: &Vec<(String, String)>) -> (r: Option<String>)
        ensures
            opt_view(r) == (match non_empty_spec(self@.codex_config_path) {
                Some(v) => Some(expand_all(v, vars_view(vars@))),
                None => None::<Seq<char>>,
            }),
    {
        match non_empty(&self.codex_config_path) {
            Some(v) => Some(expand_env_vars(v.as_str(), vars)),
            None => None,
        }
    }

    /// The configured Codex command with environment variables expanded.
    pub fn codex_command(&self, vars: &Vec<(String, String)>) -> (r: Option<String>)
        ensures
            opt_view(r) == (match non_empty_spec(self@.codex_command) {
                Some(v) => Some(expand_all(v, vars_view(vars@))),
                None => None::<Seq<char>>,
            }),
    {
        match non_empty(&self.codex_command) {
            Some(v) => Some(expand_env_vars(v.as_str(), vars)),
            None => None,
        }
    }

    /// The directory Codex is started in: the configured one with
    /// environment variables expanded, else `default`.  It must exist.
    pub fn working_directory(&self, default: &str, vars: &Vec<(String, String)>) -> (r: Result<
        String,
        ConfigError,
    >)
        ensures
            match r {
                Ok(p) => p@ == working_directory_spec(self@, default@, vars_view(vars@)),
                Err(ConfigError::MissingWorkingDirectory(p)) => p@ == working_directory_spec(
                    self@,
                    default@,
                    vars_view(vars@),
                ),
                Err(_) => false,
            },
    {
        let path = match non_empty(&self.working_directory) {
            Some(v) => expand_env_vars(v.as_str(), vars),
            None => str_to_string(default),
        };
        if !path_exists(path.as_str()) {
            return Err(ConfigError::MissingWorkingDirectory(path));
        }
        Ok(path)
    }

    pub fn codex_api_port(&self) -> (r: u16)
        ensures
            r == (match self.codex_api_port {
                Some(p) => p,
                None => 4000u16,
            }),
    {
        match self.codex_api_port {
            Some(p) => p,
            None => 4000,
        }
    }

    pub fn codex_api_scheme(&self) -> (r: String)
        ensures
            r@ == api_scheme_spec(self@),
    {
        match non_empty(&self.codex_api_scheme) {
            Some(s) => s,
            None => str_to_string("http"),
        }
    }

    /// `scheme://127.0.0.1:port` of the local Codex API.
    pub fn codex_api_base_url(&self) -> (r: String)
        ensures
            r@ == api_scheme_spec(self@) + "://127.0.0.1:"@ + decimal(
                api_port_spec(self@) as nat,
            ),
    {
        let scheme = self.codex_api_scheme();
        let mut out = chars_of(scheme.as_str());
        append_str(&mut out, "://127.0.0.1:");
        push_decimal(&mut out, self.codex_api_port() as u64);
        string_of(&out)
    }
}

pub open spec fn working_directory_spec(
    c: ConfigModel,
    default: Seq<char>,
    vars: Seq<(Seq<char>, Seq<char>)>,
) -> Seq<char> {
    match non_empty_spec(c.working_directory) {
        Some(v) => expand_all(v, vars),
        None => default,
    }
}

pub open spec fn provider_id_spec(c: ConfigModel) -> Seq<char> {
    match non_empty_spec(c.codex_provider_id) {
        Some(s) => s,
        None => "codex-launchpad"@,
    }
}

pub open spec fn provider_name_spec(c: ConfigModel) -> Seq<char> {
    match non_empty_spec(c.codex_provider_name) {
        Some(s) => s,
        None => "Codex Launchpad"@,
    }
}

pub open spec fn api_key_mode_spec(c: ConfigModel) -> ApiKeyMode {
    match c.codex_api_key_mode {
        Some(m) => m,
        None => ApiKeyMode::ExperimentalBearerToken,
    }
}

pub open spec fn api_scheme_spec(c: ConfigModel) -> Seq<char> {
    match non_empty_spec(c.codex_api_scheme) {
        Some(s) => s,
        None => "http"@,
    }
}

pub open spec fn api_port_spec(c: ConfigModel) -> u16 {
    match c.codex_api_port {
        Some(p) => p,
        None => 4000u16,
    }
}

// ---------------------------------------------------------------------------
// Laws of merging
// ---------------------------------------------------------------------------
/// Cutting trailing `/` leaves a prefix of the text that does not end in `/`.
proof fn lemma_strip_trailing_slashes(s: Seq<char>)
    ensures
        strip_trailing_slashes(s).len() <= s.len(),
        strip_trailing_slashes(s) == s.subrange(0, strip_trailing_slashes(s).len() as int),
        strip_trailing_slashes(s).len() > 0 ==> strip_trailing_slashes(s).last() != '/',
    decreases s.len(),
{
    if s.len() > 0 && s.last() == '/' {
        lemma_strip_trailing_slashes(s.drop_last());
        let t = strip_trailing_slashes(s.drop_last());
        assert(s.drop_last().subrange(0, t.len() as int) =~= s.subrange(0, t.len() as int));
    } else {
        assert(s.subrange(0, s.len() as int) =~= s);
    }
}

/// An `ollamaIp` that is already a URL is used as it stands: the base URL
/// is that URL without trailing `/`, followed by `/v1` unless it already
/// ends so; it gets no scheme, brackets or port of its own.
pub proof fn law_url_host_is_kept(c: ConfigModel, h: Seq<char>)
    requires
        non_empty_spec(c.ollama_ip) == Some(h),
        starts_with(h, "http://"@) || starts_with(h, "https://"@),
    ensures
        openai_base_url_spec(c) matches Ok(u) && {
            let b = strip_trailing_slashes(h);
            &&& b.len() <= u.len() <= b.len() + 3
            &&& u.subrange(0, b.len() as int) == b
            &&& ends_with(u, "/v1"@)
            &&& (ends_with(b, "/v1"@) ==> u == b)
        },
{
    reveal_strlit("http://");
    reveal_strlit("https://");
    reveal_strlit("100.64.0.10");
    reveal_strlit("/v1");
    assert(h[0] == 'h') by {
        if starts_with(h, "http://"@) {
            assert(h.subrange(0, 7)[0] == h[0]);
        } else {
            assert(h.subrange(0, 8)[0] == h[0]);
        }
    }
    assert(h != "100.64.0.10"@) by {
        assert("100.64.0.10"@[0] == '1');
    }
    lemma_strip_trailing_slashes(h);
    let b = strip_trailing_slashes(h);
    let u = ensure_v1_spec(h);
    if !ends_with(b, "/v1"@) {
        assert(u == b + "/v1"@);
        assert(u.subrange(0, b.len() as int) =~= b);
        assert(u.subrange(u.len() - 3, u.len() as int) =~= "/v1"@);
    } else {
        assert(u.subrange(0, b.len() as int) =~= b);
    }
}

/// For an `ollamaIp` that is a URL, the port, the scheme and
/// `openaiBaseUrl` make no difference to the base URL.
pub proof fn law_url_host_ignores_port_and_scheme(c: ConfigModel, d: ConfigModel, h: Seq<char>)
    requires
        non_empty_spec(c.ollama_ip) == Some(h),
        c.ollama_ip == d.ollama_ip,
        starts_with(h, "http://"@) || starts_with(h, "https://"@),
    ensures
        openai_base_url_spec(c) == openai_base_url_spec(d),
{
    law_url_host_is_kept(c, h);
}

/// Merging a configuration that sets nothing changes nothing.
pub proof fn law_merge_empty_is_identity(a: ConfigModel)
    ensures
        merged(a, empty_model()) == a,
{
}

/// Merging the same configuration twice is the same as merging it once.
pub proof fn law_merge_idempotent(a: ConfigModel, b: ConfigModel)
    ensures
        merged(merged(a, b), b) == merged(a, b),
{
}

/// Every field that the merged-in configuration sets wins; every other field
/// keeps its value.
pub proof fn law_merge_overrides(a: ConfigModel, b: ConfigModel)
    ensures
        b.auto_start is Some ==> merged(a, b).auto_start == b.auto_start,
        b.auto_start is None ==> merged(a, b).auto_start == a.auto_start,
        b.openai_base_url is Some ==> merged(a, b).openai_base_url == b.openai_base_url,
        b.openai_base_url is None ==> merged(a, b).openai_base_url == a.openai_base_url,
        b.ollama_ip is Some ==> merged(a, b).ollama_ip == b.ollama_ip,
        b.ollama_ip is None ==> merged(a, b).ollama_ip == a.ollama_ip,
        b.ollama_port is Some ==> merged(a, b).ollama_port == b.ollama_port,
        b.ollama_port is None ==> merged(a, b).ollama_port == a.ollama_port,
        b.ollama_scheme is Some ==> merged(a, b).ollama_scheme == b.ollama_scheme,
        b.ollama_scheme is None ==> merged(a, b).ollama_scheme == a.ollama_scheme,
        b.api_key is Some ==> merged(a, b).api_key == b.api_key,
        b.api_key is None ==> merged(a, b).api_key == a.api_key,
        b.persist_codex_config is Some ==> merged(a, b).persist_codex_config == b.persist_codex_config,
        b.persist_codex_config is None ==> merged(a, b).persist_codex_config == a.persist_codex_config,
        b.codex_model is Some ==> merged(a, b).codex_model == b.codex_model,
        b.codex_model is None ==> merged(a, b).codex_model == a.codex_model,
        b.codex_provider_id is Some ==> merged(a, b).codex_provider_id == b.codex_provider_id,
        b.codex_provider_id is None ==> merged(a, b).codex_provider_id == a.codex_provider_id,
        b.codex_provider_name is Some ==> merged(a, b).codex_provider_name == b.codex_provider_name,
        b.codex_provider_name is None ==> merged(a, b).codex_provider_name == a.codex_provider_name,
        b.codex_api_key_mode is Some ==> merged(a, b).codex_api_key_mode == b.codex_api_key_mode,
        b.codex_api_key_mode is None ==> merged(a, b).codex_api_key_mode == a.codex_api_key_mode,
        b.codex_config_path is Some ==> merged(a, b).codex_config_path == b.codex_config_path,
        b.codex_config_path is None ==> merged(a, b).codex_config_path == a.codex_config_path,
        b.codex_command is Some ==> merged(a, b).codex_command == b.codex_command,
        b.codex_command is None ==> merged(a, b).codex_command == a.codex_command,
        b.codex_api_port is Some ==> merged(a, b).codex_api_port == b.codex_api_port,
        b.codex_api_port is None ==> merged(a, b).codex_api_port == a.codex_api_port,
        b.codex_api_scheme is Some ==> merged(a, b).codex_api_scheme == b.codex_api_scheme,
        b.codex_api_scheme is None ==> merged(a, b).codex_api_scheme == a.codex_api_scheme,
        b.discover_ollama_models is Some ==> merged(a, b).discover_ollama_models == b.discover_ollama_models,
        b.discover_ollama_models is None ==> merged(a, b).discover_ollama_models == a.discover_ollama_models,
        b.codex_args is Some ==> merged(a, b).codex_args == b.codex_args,
        b.codex_args is None ==> merged(a, b).codex_args == a.codex_args,
        b.working_directory is Some ==> merged(a, b).working_directory == b.working_directory,
        b.working_directory is None ==> merged(a, b).working_directory == a.working_directory,
        merged(empty_model(), b) == b,
{
}

} // verus!

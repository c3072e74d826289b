//! Ollama endpoints and the choice of a model from the discovered ones.
//!
//! Fetching the model list and reading and writing the cache file happen
//! around these functions.
use vstd::prelude::*;

use crate::config::{non_empty_spec, opt_view, LauncherConfig};
use crate::envvars::{replace_first, replace_first_exec};
use crate::config::{strip_slashes, strip_trailing_slashes};
use crate::text::{
    append_str, chars_of, contains, contains_str, ends_with, ends_with_str, slice_chars,
    str_to_string, string_of, trim, trim_str,
};

verus! {

#[derive(Debug)]
pub enum OllamaError {
    InvalidBaseUrl(String),
    ClientBuild(String),
    Fetch { url: String, message: String },
    Parse { url: String, message: String },
    MissingCacheDir,
    CreateCacheDir { path: String, message: String },
    WriteCache { path: String, message: String },
    ReadCache { path: String, message: String },
    ParseCache { path: String, message: String },
    AmbiguousModelSelection,
    NoModelsDiscovered(String),
    CacheExpired,
}

/// The text that an error of model discovery is shown with.
pub open spec fn ollama_error_text(e: OllamaError) -> Seq<char> {
    match e {
        OllamaError::InvalidBaseUrl(u) => "could not derive Ollama API root from base URL: "@ + u@,
        OllamaError::ClientBuild(m) => "could not build HTTP client: "@ + m@,
        OllamaError::Fetch { url, message } => "could not fetch model list from "@ + url@ + ": "@
            + message@,
        OllamaError::Parse { url, message } => "could not parse model list from "@ + url@ + ": "@
            + message@,
        OllamaError::MissingCacheDir => "could not locate a cache directory for model discovery"@,
        OllamaError::CreateCacheDir { path, message } => "could not create model cache directory "@
            + path@ + ": "@ + message@,
        OllamaError::WriteCache { path, message } => "could not write model cache "@ + path@
            + ": "@ + message@,
        OllamaError::ReadCache { path, message } => "could not read model cache "@ + path@ + ": "@
            + message@,
        OllamaError::ParseCache { path, message } => "could not parse model cache "@ + path@
            + ": "@ + message@,
        OllamaError::AmbiguousModelSelection =>
            "multiple Ollama models were discovered; set codexModel explicitly or use the model cache for UI selection"@,
        OllamaError::NoModelsDiscovered(u) => "no Ollama models were discovered from "@ + u@,
        OllamaError::CacheExpired => "model cache expired"@,
    }
}

fn push_pair(v: &mut Vec<char>, a: &str, b: &str, c: &str, d: &str)
    ensures
        final(v)@ == old(v)@ + a@ + b@ + c@ + d@,
{
    append_str(v, a);
    append_str(v, b);
    append_str(v, c);
    append_str(v, d);
}

impl OllamaError {
    /// The text that the error is shown with.
    pub fn message(&self) -> (r: String)
        ensures
            r@ == ollama_error_text(*self),
    {
        let mut v: Vec<char> = Vec::new();
        match self {
            OllamaError::InvalidBaseUrl(u) => {
                append_str(&mut v, "could not derive Ollama API root from base URL: ");
                append_str(&mut v, u.as_str());
            },
            OllamaError::ClientBuild(m) => {
                append_str(&mut v, "could not build HTTP client: ");
                append_str(&mut v, m.as_str());
            },
            OllamaError::Fetch { url, message } => {
                push_pair(&mut v, "could not fetch model list from ", url.as_str(), ": ", message.as_str());
            },
            OllamaError::Parse { url, message } => {
                push_pair(&mut v, "could not parse model list from ", url.as_str(), ": ", message.as_str());
            },
            OllamaError::MissingCacheDir => {
                append_str(&mut v, "could not locate a cache directory for model discovery");
            },
            OllamaError::CreateCacheDir { path, message } => {
                push_pair(&mut v, "could not create model cache directory ", path.as_str(), ": ", message.as_str());
            },
            OllamaError::WriteCache { path, message } => {
                push_pair(&mut v, "could not write model cache ", path.as_str(), ": ", message.as_str());
            },
            OllamaError::ReadCache { path, message } => {
                push_pair(&mut v, "could not read model cache ", path.as_str(), ": ", message.as_str());
            },
            OllamaError::ParseCache { path, message } => {
                push_pair(&mut v, "could not parse model cache ", path.as_str(), ": ", message.as_str());
            },
            OllamaError::AmbiguousModelSelection => {
                append_str(
                    &mut v,
                    "multiple Ollama models were discovered; set codexModel explicitly or use the model cache for UI selection",
                );
            },
            OllamaError::NoModelsDiscovered(u) => {
                append_str(&mut v, "no Ollama models were discovered from ");
                append_str(&mut v, u.as_str());
            },
            OllamaError::CacheExpired => {
                append_str(&mut v, "model cache expired");
            },
        }
        proof {
            assert(v@ =~= ollama_error_text(*self));
        }
        string_of(&v)
    }
}

#[derive(Clone, Debug)]
pub struct ModelCache {
    pub api_root: String,
    pub fetched_from: String,
    pub fetched_at: Option<u64>,
    pub models: Vec<OllamaModel>,
}

#[derive(Clone, Debug)]
pub struct OllamaModel {
    pub name: String,
    pub model: String,
    pub modified_at: Option<String>,
    pub size: Option<u64>,
    pub digest: Option<String>,
    pub details: Option<OllamaModelDetails>,
}

#[derive(Clone, Debug)]
pub struct OllamaModelDetails {
    pub format: Option<String>,
    pub family: Option<String>,
    pub families: Option<Vec<String>>,
    pub parameter_size: Option<String>,
    pub quantization_level: Option<String>,
}

/// How long the model cache stays fresh, in seconds.
pub fn cache_ttl_secs() -> (r: u64)
    ensures
        r == 300,
{
    300
}

/// Whether a cache fetched at `fetched_at` has expired at `now` (both in
/// seconds since the epoch); a cache without a time never expires.
pub fn cache_expired(now: u64, fetched_at: Option<u64>) -> (r: bool)
    ensures
        r == (match fetched_at {
            Some(t) => now > t && now - t > 300,
            None => false,
        }),
{
    match fetched_at {
        Some(t) => now.saturating_sub(t) > cache_ttl_secs(),
        None => false,
    }
}

/// The Ollama API root for an OpenAI-compatible base URL: `…/v1` becomes
/// `…/api`, an `…/api` root stays, and a `/v1/` inside the URL becomes
/// `/api/`; anything else is an error.
pub open spec fn api_root_spec(base_url: Seq<char>) -> Option<Seq<char>> {
    let t = strip_trailing_slashes(trim(base_url));
    if t.len() == 0 {
        None
    } else if ends_with(t, "/v1"@) {
        Some(t.subrange(0, t.len() - 3) + "/api"@)
    } else if ends_with(t, "/api"@) {
        Some(t)
    } else if contains(t, "/v1/"@) {
        Some(replace_first(t, "/v1/"@, "/api/"@))
    } else {
        None
    }
}

pub fn derive_ollama_api_root(base_url: &str) -> (r: Result<String, OllamaError>)
    ensures
        match r {
            Ok(root) => api_root_spec(base_url@) == Some(root@),
            Err(OllamaError::InvalidBaseUrl(u)) => api_root_spec(base_url@) is None && u@ == base_url@,
            Err(_) => false,
        },
{
    let trimmed = strip_slashes(&trim_str(base_url));
    if trimmed.len() == 0 {
        return Err(OllamaError::InvalidBaseUrl(str_to_string(base_url)));
    }
    if ends_with_str(&trimmed, "/v1") {
        proof {
            reveal_strlit("/v1");
        }
        let mut root = slice_chars(&trimmed, 0, trimmed.len() - 3);
        append_str(&mut root, "/api");
        return Ok(string_of(&root));
    }
    if ends_with_str(&trimmed, "/api") {
        return Ok(string_of(&trimmed));
    }
    if contains_str(&trimmed, "/v1/") {
        let from = chars_of("/v1/");
        let to = chars_of("/api/");
        let replaced = replace_first_exec(&trimmed, &from, &to);
        return Ok(string_of(&replaced));
    }
    Err(OllamaError::InvalidBaseUrl(str_to_string(base_url)))
}

/// The URL of the model list: the API root followed by `/tags`.
pub fn tags_url_from_base(base_url: &str) -> (r: Result<String, OllamaError>)
    ensures
        match r {
            Ok(url) => api_root_spec(base_url@) matches Some(root) && url@ == root + "/tags"@,
            Err(OllamaError::InvalidBaseUrl(u)) => api_root_spec(base_url@) is None && u@ == base_url@,
            Err(_) => false,
        },
{
    let root = derive_ollama_api_root(base_url)?;
    let mut url = chars_of(root.as_str());
    append_str(&mut url, "/tags");
    Ok(string_of(&url))
}

/// The model to use: the configured one, else the only model discovered
/// (`discovered` is what the model list gave); none discovered or several
/// is an error.
pub fn resolve_model(config: &LauncherConfig, discovered: &ModelCache) -> (r: Result<Option<String>, OllamaError>)
    ensures
        match non_empty_spec(config@.codex_model) {
            Some(m) => r matches Ok(Some(x)) && x@ == m,
            None => if discovered.models.len() == 0 {
                r matches Err(OllamaError::NoModelsDiscovered(u)) && u@ == discovered.fetched_from@
            } else if discovered.models.len() == 1 {
                r matches Ok(Some(x)) && x@ == discovered.models@[0].name@
            } else {
                r matches Err(OllamaError::AmbiguousModelSelection)
            },
        },
{
    if let Some(model) = config.codex_model() {
        return Ok(Some(model));
    }
    let n = discovered.models.len();
    if n == 0 {
        Err(OllamaError::NoModelsDiscovered(discovered.fetched_from.clone()))
    } else if n == 1 {
        Ok(Some(discovered.models[0].name.clone()))
    } else {
        Err(OllamaError::AmbiguousModelSelection)
    }
}

} // verus!

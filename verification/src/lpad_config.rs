//! Pointing Codex at the launcher's provider in `~/.codex/config.toml`, and
//! taking it back out.
//!
//! The launcher writes a provider block under `[model_providers.<id>]` and
//! makes it the active `model_provider`; before the first switch it saves the
//! top-level settings it is about to change, and a restore puts them back and
//! removes every provider block that the launcher wrote.  Reading and writing
//! the files happens around these functions, which work on parsed documents.
use vstd::prelude::*;

use toml_edit::DocumentMut;

use crate::config::{
    api_key_mode_spec, non_empty_spec, opt_view, provider_id_spec, provider_name_spec, ApiKeyMode,
    LauncherConfig,
};
use crate::envvars::{expand_all, vars_view};
use crate::fsutil::{ends_with_joined, home_dir, join_path};
use crate::text::{
    append_str, ascii_lower_seq, ascii_lowercase, chars_of, contains, contains_str, lex_le, lex_le_exec,
    lemma_lex_antisymmetric, lemma_lex_refl, lemma_lex_total, lemma_lex_transitive, starts_with, starts_with_str,
    str_eq, str_to_string, string_of,
};
use crate::toml_doc::{
    absent_or_table, at_or_below, ensure_provider_spec, lemma_apart_at_first_key, lemma_ensure_provider, is_table_at, provider_entry, provider_ids_spec, provider_key_path,
    provider_path, provider_table, providers_key, root_path, root_str_spec, toml_ensure_provider,
    toml_items, toml_provider_bool, toml_provider_has, toml_provider_ids, toml_provider_is_table,
    toml_provider_remove_key, toml_provider_set_bool, toml_provider_set_str, toml_provider_str,
    toml_providers_empty, toml_providers_has, toml_providers_remove, toml_root_has,
    toml_root_is_table, toml_root_remove, toml_root_set_str, toml_root_str, with_entry, without,
    TomlEntry, parsed_toml, no_items, toml_new, toml_parse, toml_to_text,
};

verus! {

/// The variable that holds the API key when the key is passed through the
/// environment.
pub open spec fn env_key_name() -> Seq<char> {
    "OPENAI_API_KEY"@
}

// ---------------------------------------------------------------------------
// Recognising the launcher's providers
// ---------------------------------------------------------------------------
/// The provider ids that this launcher and its earlier versions have used.
pub open spec fn is_known_launcher_id(id: Seq<char>) -> bool {
    id == "launchpadx"@ || id == "codex-local-launcher"@ || id == "codex_launchpad"@ || id
        == "codex-launchpad"@
}

pub fn is_known_launcher_provider_id(id: &str) -> (r: bool)
    ensures
        r == is_known_launcher_id(id@),
{
    str_eq(id, "launchpadx") || str_eq(id, "codex-local-launcher") || str_eq(id, "codex_launchpad")
        || str_eq(id, "codex-launchpad")
}

/// Whether provider `id` looks like a block the launcher wrote: the
/// `responses` wire API, no OpenAI sign-in, and a bearer token or the
/// launcher's key variable.
pub open spec fn has_fingerprint(m: Map<Seq<Seq<char>>, TomlEntry>, id: Seq<char>) -> bool {
    &&& provider_entry(m, id, "wire_api"@) == Some(TomlEntry::Str("responses"@))
    &&& provider_entry(m, id, "requires_openai_auth"@) == Some(TomlEntry::Bool(false))
    &&& (provider_entry(m, id, "experimental_bearer_token"@) is Some || provider_entry(
        m,
        id,
        "env_key"@,
    ) == Some(TomlEntry::Str(env_key_name())))
}

fn provider_has_launcher_fingerprint(doc: &DocumentMut, id: &str) -> (r: bool)
    ensures
        r == has_fingerprint(toml_items(*doc), id@),
{
    let wire_ok = match toml_provider_str(doc, id, "wire_api") {
        Some(w) => str_eq(w.as_str(), "responses"),
        None => false,
    };
    let auth_ok = match toml_provider_bool(doc, id, "requires_openai_auth") {
        Some(b) => !b,
        None => false,
    };
    let has_bearer = toml_provider_has(doc, id, "experimental_bearer_token");
    let has_env_key = match toml_provider_str(doc, id, "env_key") {
        Some(k) => str_eq(k.as_str(), "OPENAI_API_KEY"),
        None => false,
    };
    wire_ok && auth_ok && (has_bearer || has_env_key)
}

/// Whether provider `id` is one the launcher manages: the configured id, a
/// known launcher id, or a block with the launcher's fingerprint.
pub open spec fn is_managed(m: Map<Seq<Seq<char>>, TomlEntry>, id: Seq<char>, configured: Seq<char>) -> bool {
    id == configured || is_known_launcher_id(id) || has_fingerprint(m, id)
}

pub fn is_launcher_managed_provider(doc: &DocumentMut, id: &str, configured: &str) -> (r: bool)
    ensures
        r == is_managed(toml_items(*doc), id@, configured@),
{
    str_eq(id, configured) || is_known_launcher_provider_id(id)
        || provider_has_launcher_fingerprint(doc, id)
}

/// Whether a provider was put there by a launcher (known id or fingerprint).
pub open spec fn is_injected(m: Map<Seq<Seq<char>>, TomlEntry>, id: Seq<char>) -> bool {
    is_known_launcher_id(id) || has_fingerprint(m, id)
}

// ---------------------------------------------------------------------------
// Choosing the account provider to return to
// ---------------------------------------------------------------------------
/// Whether a base URL points at this machine.
pub open spec fn is_local_url(u: Seq<char>) -> bool {
    let l = ascii_lower_seq(u);
    contains(l, "127.0.0.1"@) || contains(l, "localhost"@) || contains(l, "0.0.0.0"@) || contains(
        l,
        "[::1]"@,
    )
}

pub fn is_local_base_url(base_url: &str) -> (r: bool)
    ensures
        r == is_local_url(base_url@),
{
    let l = ascii_lowercase(&chars_of(base_url));
    contains_str(&l, "127.0.0.1") || contains_str(&l, "localhost") || contains_str(&l, "0.0.0.0")
        || contains_str(&l, "[::1]")
}

/// How much provider `id` looks like the account's own provider.
pub open spec fn account_score(m: Map<Seq<Seq<char>>, TomlEntry>, id: Seq<char>) -> int {
    let base: int = if id == "openai"@ {
        100
    } else {
        0
    };
    if !provider_table(m, id) {
        base
    } else {
        let auth: int = if provider_entry(m, id, "requires_openai_auth"@) == Some(
            TomlEntry::Bool(true),
        ) {
            50
        } else {
            0
        };
        let url: int = match provider_entry(m, id, "base_url"@) {
            Some(TomlEntry::Str(u)) => (if contains(u, "api.openai.com"@) {
                40int
            } else {
                0int
            }) + (if starts_with(u, "https://"@) {
                10int
            } else {
                0int
            }) + (if is_local_url(u) {
                -100int
            } else {
                0int
            }),
            _ => 0,
        };
        base + auth + url
    }
}

/// A provider at a local endpoint (`127.0.0.1`, `localhost`, `0.0.0.0`,
/// `[::1]`) looks less like the account's own provider than the same
/// provider at a non-local endpoint that shares whether it names
/// `api.openai.com` and whether it uses `https://`; so a restore never
/// falls back to a local endpoint where such a non-local one exists.
pub proof fn law_local_endpoint_scores_lower(
    m: Map<Seq<Seq<char>>, TomlEntry>,
    id: Seq<char>,
    local: Seq<char>,
    remote: Seq<char>,
)
    requires
        provider_table(m, id),
        is_local_url(local),
        !is_local_url(remote),
        contains(local, "api.openai.com"@) == contains(remote, "api.openai.com"@),
        starts_with(local, "https://"@) == starts_with(remote, "https://"@),
    ensures
        account_score(m.insert(provider_key_path(id, "base_url"@), TomlEntry::Str(local)), id)
            < account_score(m.insert(provider_key_path(id, "base_url"@), TomlEntry::Str(remote)), id),
{
    let p = provider_key_path(id, "base_url"@);
    let ml = m.insert(p, TomlEntry::Str(local));
    let mr = m.insert(p, TomlEntry::Str(remote));
    reveal_strlit("base_url");
    reveal_strlit("requires_openai_auth");
    assert("base_url"@.len() == 8 && "requires_openai_auth"@.len() == 20);
    assert(p.len() == 3);
    assert(root_path(providers_key()).len() == 1);
    assert(provider_path(id).len() == 2);
    assert(p != root_path(providers_key()));
    assert(p != provider_path(id));
    let q = provider_key_path(id, "requires_openai_auth"@);
    assert(q[2] != p[2]);
    assert(q != p);
    assert(provider_table(ml, id));
    assert(provider_table(mr, id));
    assert(provider_entry(ml, id, "requires_openai_auth"@) == provider_entry(m, id, "requires_openai_auth"@));
    assert(provider_entry(mr, id, "requires_openai_auth"@) == provider_entry(m, id, "requires_openai_auth"@));
    assert(provider_entry(ml, id, "base_url"@) == Some(TomlEntry::Str(local)));
    assert(provider_entry(mr, id, "base_url"@) == Some(TomlEntry::Str(remote)));
}

fn score_account_provider(doc: &DocumentMut, id: &str) -> (r: i32)
    ensures
        r == account_score(toml_items(*doc), id@),
{
    let mut score: i32 = 0;
    if str_eq(id, "openai") {
        score += 100;
    }
    if !toml_provider_is_table(doc, id) {
        return score;
    }
    if toml_provider_bool(doc, id, "requires_openai_auth") == Some(true) {
        score += 50;
    }
    if let Some(base_url) = toml_provider_str(doc, id, "base_url") {
        let u = chars_of(base_url.as_str());
        if contains_str(&u, "api.openai.com") {
            score += 40;
        }
        if starts_with_str(&u, "https://") {
            score += 10;
        }
        if is_local_base_url(base_url.as_str()) {
            score -= 100;
        }
    }
    score
}

/// The providers that could be the account's own: those the launcher did not
/// put there.
pub open spec fn account_candidates(m: Map<Seq<Seq<char>>, TomlEntry>) -> Set<Seq<char>> {
    provider_ids_spec(m).filter(|id: Seq<char>| !is_injected(m, id))
}

/// `best` beats every candidate: a higher score, or the same score and an id
/// that sorts first.
pub open spec fn is_best_candidate(m: Map<Seq<Seq<char>>, TomlEntry>, best: Seq<char>) -> bool {
    &&& account_candidates(m).contains(best)
    &&& forall|c: Seq<char>|
        #[trigger] account_candidates(m).contains(c) ==> account_score(m, c) < account_score(
            m,
            best,
        ) || (account_score(m, c) == account_score(m, best) && lex_le(best, c))
}

/// The best candidate, when there is one.
pub open spec fn best_candidate(m: Map<Seq<Seq<char>>, TomlEntry>) -> Option<Seq<char>> {
    if exists|b: Seq<char>| is_best_candidate(m, b) {
        Some(choose|b: Seq<char>| is_best_candidate(m, b))
    } else {
        None
    }
}

/// The provider to make active again when no saved settings exist: the best
/// candidate, or none when there is no candidate.
pub fn infer_account_provider_id(doc: &DocumentMut) -> (r: Option<String>)
    ensures
        opt_view(r) == best_candidate(toml_items(*doc)),
        match r {
            Some(id) => is_best_candidate(toml_items(*doc), id@),
            None => account_candidates(toml_items(*doc)).is_empty(),
        },
{
    let ghost m = toml_items(*doc);
    let ids = toml_provider_ids(doc);
    let mut best: Option<(i32, String)> = None;
    let mut i: usize = 0;
    while i < ids.len()
        invariant
            i <= ids.len(),
            m == toml_items(*doc),
            forall|k: int| 0 <= k < ids.len() ==> #[trigger] provider_ids_spec(m).contains(ids@[k]@),
            forall|id: Seq<char>| #[trigger] provider_ids_spec(m).contains(id) ==> exists|k: int| 0 <= k < ids.len() && ids@[k]@ == id,
            match best {
                Some((s, b)) => {
                    &&& account_candidates(m).contains(b@)
                    &&& s == account_score(m, b@)
                    &&& forall|k: int|
                        0 <= k < i && #[trigger] account_candidates(m).contains(ids@[k]@) ==> account_score(m, ids@[k]@) < s || (account_score(m, ids@[k]@) == s && lex_le(b@, ids@[k]@))
                },
                None => forall|k: int| 0 <= k < i ==> !#[trigger] account_candidates(m).contains(ids@[k]@),
            },
        decreases ids.len() - i,
    {
        let id = &ids[i];
        let injected = is_known_launcher_provider_id(id.as_str()) || provider_has_launcher_fingerprint(
            doc,
            id.as_str(),
        );
        if !injected {
            let s = score_account_provider(doc, id.as_str());
            let replace = match &best {
                None => true,
                Some((bs, b)) => s > *bs || (s == *bs && !lex_le_exec(&chars_of(b.as_str()), &chars_of(id.as_str()))),
            };
            if replace {
                proof {
                    lemma_lex_refl(id@);
                    if let Some((bs, b)) = best {
                        if s == bs {
                            lemma_lex_total(b@, id@);
                        }
                        assert forall|k: int|
                            0 <= k < i && #[trigger] account_candidates(m).contains(ids@[k]@) implies account_score(m, ids@[k]@) < s || (account_score(m, ids@[k]@) == s && lex_le(id@, ids@[k]@)) by {
                            if account_score(m, ids@[k]@) == s {
                                lemma_lex_transitive(id@, b@, ids@[k]@);
                            }
                        }
                    }
                }
                best = Some((s, id.clone()));
            }
        }
        i += 1;
    }
    match best {
        Some((_, b)) => {
            proof {
                assert forall|c: Seq<char>| #[trigger] account_candidates(m).contains(c) implies account_score(m, c) < account_score(m, b@) || (account_score(m, c) == account_score(m, b@) && lex_le(b@, c)) by {
                    let k = choose|k: int| 0 <= k < ids.len() && ids@[k]@ == c;
                    assert(account_candidates(m).contains(ids@[k]@));
                }
                assert(is_best_candidate(m, b@));
                let c = choose|c: Seq<char>| is_best_candidate(m, c);
                law_best_candidate_unique(m, b@, c);
            }
            Some(b)
        },
        None => {
            proof {
                assert forall|c: Seq<char>| !#[trigger] account_candidates(m).contains(c) by {
                    if account_candidates(m).contains(c) {
                        let k = choose|k: int| 0 <= k < ids.len() && ids@[k]@ == c;
                        assert(account_candidates(m).contains(ids@[k]@));
                    }
                }
                assert(account_candidates(m) =~= Set::<Seq<char>>::empty());
            }
            None
        },
    }
}

/// There is only one best candidate.
pub proof fn law_best_candidate_unique(m: Map<Seq<Seq<char>>, TomlEntry>, a: Seq<char>, b: Seq<char>)
    requires
        is_best_candidate(m, a),
        is_best_candidate(m, b),
    ensures
        a == b,
{
    assert(account_candidates(m).contains(b));
    assert(account_candidates(m).contains(a));
    lemma_lex_antisymmetric(a, b);
}

// ---------------------------------------------------------------------------
// Editing the document
// ---------------------------------------------------------------------------
pub type TomlMap = Map<Seq<Seq<char>>, TomlEntry>;

/// Removing provider `id`: its block goes, and so does the
/// `model_providers` table when nothing is left in it.
pub open spec fn remove_provider_spec(m: TomlMap, id: Seq<char>) -> TomlMap {
    if is_table_at(m, root_path(providers_key())) {
        let m1 = without(m, provider_path(id));
        if provider_ids_spec(m1).is_empty() {
            without(m1, root_path(providers_key()))
        } else {
            m1
        }
    } else {
        m
    }
}

pub fn remove_provider(doc: &mut DocumentMut, id: &str)
    ensures
        toml_items(*final(doc)) == remove_provider_spec(toml_items(*old(doc)), id@),
{
    let ghost m = toml_items(*doc);
    toml_providers_remove(doc, id);
    proof {
        if is_table_at(m, root_path(providers_key())) {
            assert(!at_or_below(provider_path(id@), root_path(providers_key())));
            assert(is_table_at(toml_items(*doc), root_path(providers_key())));
        }
    }
    match toml_providers_empty(doc) {
        Some(true) => toml_root_remove(doc, "model_providers"),
        _ => {},
    }
}

/// The top-level settings that the launcher changes, as they were before it
/// first changed them.
#[derive(Clone, Debug)]
pub struct RestoreState {
    pub had_profile: bool,
    pub profile: Option<String>,
    pub had_model: bool,
    pub model: Option<String>,
    pub had_model_provider: bool,
    pub model_provider: Option<String>,
    pub had_model_catalog_json: bool,
    pub model_catalog_json: Option<String>,
}

pub struct RestoreStateModel {
    pub had_profile: bool,
    pub profile: Option<Seq<char>>,
    pub had_model: bool,
    pub model: Option<Seq<char>>,
    pub had_model_provider: bool,
    pub model_provider: Option<Seq<char>>,
    pub had_model_catalog_json: bool,
    pub model_catalog_json: Option<Seq<char>>,
}

impl View for RestoreState {
    type V = RestoreStateModel;

    open spec fn view(&self) -> RestoreStateModel {
        RestoreStateModel {
            had_profile: self.had_profile,
            profile: opt_view(self.profile),
            had_model: self.had_model,
            model: opt_view(self.model),
            had_model_provider: self.had_model_provider,
            model_provider: opt_view(self.model_provider),
            had_model_catalog_json: self.had_model_catalog_json,
            model_catalog_json: opt_view(self.model_catalog_json),
        }
    }
}

/// The saved settings of a document: each of `profile`, `model`,
/// `model_provider` and `model_catalog_json` with whether it was set.
pub open spec fn restore_state_of(m: TomlMap) -> RestoreStateModel {
    RestoreStateModel {
        had_profile: root_str_spec(m, "profile"@) is Some,
        profile: root_str_spec(m, "profile"@),
        had_model: root_str_spec(m, "model"@) is Some,
        model: root_str_spec(m, "model"@),
        had_model_provider: root_str_spec(m, "model_provider"@) is Some,
        model_provider: root_str_spec(m, "model_provider"@),
        had_model_catalog_json: root_str_spec(m, "model_catalog_json"@) is Some,
        model_catalog_json: root_str_spec(m, "model_catalog_json"@),
    }
}

impl RestoreState {
    pub fn from_document(doc: &DocumentMut) -> (r: RestoreState)
        ensures
            r@ == restore_state_of(toml_items(*doc)),
    {
        let profile = toml_root_str(doc, "profile");
        let model = toml_root_str(doc, "model");
        let model_provider = toml_root_str(doc, "model_provider");
        let model_catalog_json = toml_root_str(doc, "model_catalog_json");
        RestoreState {
            had_profile: profile.is_some(),
            profile,
            had_model: model.is_some(),
            model,
            had_model_provider: model_provider.is_some(),
            model_provider,
            had_model_catalog_json: model_catalog_json.is_some(),
            model_catalog_json,
        }
    }
}

/// Putting a saved top-level setting back: its value when it had one
/// (nothing when the value itself is missing), else the key goes.
pub open spec fn restore_root_spec(m: TomlMap, k: Seq<char>, had: bool, v: Option<Seq<char>>) -> TomlMap {
    if had {
        match v {
            Some(x) => with_entry(m, root_path(k), TomlEntry::Str(x)),
            None => m,
        }
    } else {
        without(m, root_path(k))
    }
}

pub fn restore_root_string(doc: &mut DocumentMut, k: &str, had_value: bool, value: &Option<String>)
    ensures
        toml_items(*final(doc)) == restore_root_spec(toml_items(*old(doc)), k@, had_value, opt_view(*value)),
{
    if had_value {
        if let Some(v) = value {
            toml_root_set_str(doc, k, v.as_str());
        }
    } else {
        toml_root_remove(doc, k);
    }
}

/// Reverting the top-level settings: to the saved ones when there are some;
/// else `model` and `model_catalog_json` go and `model_provider` becomes the
/// best account candidate, or goes when there is none.
pub open spec fn revert_spec(m: TomlMap, state: Option<RestoreStateModel>) -> TomlMap {
    match state {
        Some(s) => {
            let m1 = restore_root_spec(m, "profile"@, s.had_profile, s.profile);
            let m2 = restore_root_spec(m1, "model"@, s.had_model, s.model);
            let m3 = restore_root_spec(m2, "model_provider"@, s.had_model_provider, s.model_provider);
            restore_root_spec(m3, "model_catalog_json"@, s.had_model_catalog_json, s.model_catalog_json)
        },
        None => {
            let m1 = without(without(m, root_path("model"@)), root_path("model_catalog_json"@));
            match best_candidate(m1) {
                Some(a) => with_entry(m1, root_path("model_provider"@), TomlEntry::Str(a)),
                None => without(m1, root_path("model_provider"@)),
            }
        },
    }
}

pub fn revert_launcher_root_settings(doc: &mut DocumentMut, restore_state: Option<&RestoreState>)
    ensures
        toml_items(*final(doc)) == revert_spec(
            toml_items(*old(doc)),
            match restore_state {
                Some(s) => Some(s@),
                None => None,
            },
        ),
{
    if let Some(state) = restore_state {
        restore_root_string(doc, "profile", state.had_profile, &state.profile);
        restore_root_string(doc, "model", state.had_model, &state.model);
        restore_root_string(doc, "model_provider", state.had_model_provider, &state.model_provider);
        restore_root_string(
            doc,
            "model_catalog_json",
            state.had_model_catalog_json,
            &state.model_catalog_json,
        );
        return;
    }
    toml_root_remove(doc, "model");
    toml_root_remove(doc, "model_catalog_json");
    match infer_account_provider_id(doc) {
        Some(account) => toml_root_set_str(doc, "model_provider", account.as_str()),
        None => toml_root_remove(doc, "model_provider"),
    }
}

/// What the launcher writes into Codex's configuration.
#[derive(Clone, Debug)]
pub struct PersistentCodexConfig {
    pub config_path: String,
    pub model: Option<String>,
    pub provider_id: String,
    pub provider_name: String,
    pub base_url: String,
    pub api_key: String,
    pub api_key_mode: ApiKeyMode,
}

/// Why Codex's configuration could not be read, changed or written.
#[derive(Clone, Debug)]
pub enum CodexConfigError {
    MissingHome,
    Read { path: String, message: String },
    Parse { path: String, message: String },
    CreateDir { path: String, message: String },
    Write { path: String, message: String },
    Backup { source_path: String, backup_path: String, message: String },
    RestoreStateParse { path: String, message: String },
    RestoreStateMissing,
}

/// The text that an error about Codex's configuration is shown with.
pub open spec fn codex_config_error_text(e: CodexConfigError) -> Seq<char> {
    match e {
        CodexConfigError::MissingHome => "could not locate home directory for ~/.codex/config.toml"@,
        CodexConfigError::Read { path, message } => "could not read Codex config "@ + path@ + ": "@
            + message@,
        CodexConfigError::Parse { path, message } => "could not parse Codex config "@ + path@
            + ": "@ + message@,
        CodexConfigError::CreateDir { path, message } => "could not create directory "@ + path@
            + ": "@ + message@,
        CodexConfigError::Write { path, message } => "could not write Codex config "@ + path@
            + ": "@ + message@,
        CodexConfigError::Backup { source_path, backup_path, message } =>
            "could not back up Codex config from "@ + source_path@ + " to "@ + backup_path@ + ": "@
            + message@,
        CodexConfigError::RestoreStateParse { path, message } => "could not parse restore state "@
            + path@ + ": "@ + message@,
        CodexConfigError::RestoreStateMissing =>
            "restore state is missing; the revert could not restore your previous Codex model"@,
    }
}

impl CodexConfigError {
    /// The text that the error is shown with.
    pub fn message(&self) -> (r: String)
        ensures
            r@ == codex_config_error_text(*self),
    {
        let mut v: Vec<char> = Vec::new();
        match self {
            CodexConfigError::MissingHome => {
                append_str(&mut v, "could not locate home directory for ~/.codex/config.toml");
            },
            CodexConfigError::Read { path, message } => {
                append_str(&mut v, "could not read Codex config ");
                append_str(&mut v, path.as_str());
                append_str(&mut v, ": ");
                append_str(&mut v, message.as_str());
            },
            CodexConfigError::Parse { path, message } => {
                append_str(&mut v, "could not parse Codex config ");
                append_str(&mut v, path.as_str());
                append_str(&mut v, ": ");
                append_str(&mut v, message.as_str());
            },
            CodexConfigError::CreateDir { path, message } => {
                append_str(&mut v, "could not create directory ");
                append_str(&mut v, path.as_str());
                append_str(&mut v, ": ");
                append_str(&mut v, message.as_str());
            },
            CodexConfigError::Write { path, message } => {
                append_str(&mut v, "could not write Codex config ");
                append_str(&mut v, path.as_str());
                append_str(&mut v, ": ");
                append_str(&mut v, message.as_str());
            },
            CodexConfigError::Backup { source_path, backup_path, message } => {
                append_str(&mut v, "could not back up Codex config from ");
                append_str(&mut v, source_path.as_str());
                append_str(&mut v, " to ");
                append_str(&mut v, backup_path.as_str());
                append_str(&mut v, ": ");
                append_str(&mut v, message.as_str());
            },
            CodexConfigError::RestoreStateParse { path, message } => {
                append_str(&mut v, "could not parse restore state ");
                append_str(&mut v, path.as_str());
                append_str(&mut v, ": ");
                append_str(&mut v, message.as_str());
            },
            CodexConfigError::RestoreStateMissing => {
                append_str(
                    &mut v,
                    "restore state is missing; the revert could not restore your previous Codex model",
                );
            },
        }
        proof {
            assert(v@ =~= codex_config_error_text(*self));
        }
        string_of(&v)
    }
}

/// Parses the text of Codex's `config.toml` with `toml_edit`: the
/// document's entries are `parsed_toml(text)`; text that is not TOML gives
/// the parser's message.
pub fn parse_codex_config(text: &str) -> (r: Result<DocumentMut, String>)
    ensures
        match r {
            Ok(d) => parsed_toml(text@) == Some(toml_items(d)),
            Err(_) => parsed_toml(text@) is None,
        },
{
    toml_parse(text)
}

/// A configuration with nothing in it.
pub fn empty_codex_config() -> (d: DocumentMut)
    ensures
        toml_items(d) == no_items(),
{
    toml_new()
}

/// The document of the Codex config at `path`, given the file's text (none
/// when there is no file): empty without a file, the parsed text otherwise;
/// text that is not TOML is a parse error that names the path.
pub fn codex_config_document(path: &str, text: Option<&str>) -> (r: Result<DocumentMut, CodexConfigError>)
    ensures
        match text {
            None => r matches Ok(d) && toml_items(d) == no_items(),
            Some(t) => match parsed_toml(t@) {
                Some(m) => r matches Ok(d) && toml_items(d) == m,
                None => r matches Err(e) && (e matches CodexConfigError::Parse { path: p, .. }
                    && p@ == path@),
            },
        },
{
    match text {
        None => Ok(empty_codex_config()),
        Some(t) => match parse_codex_config(t) {
            Ok(d) => Ok(d),
            Err(message) => Err(CodexConfigError::Parse { path: str_to_string(path), message }),
        },
    }
}

/// The text that `document` is written as (`toml_edit`'s `Display`).
pub fn codex_config_text(document: &DocumentMut) -> String {
    toml_to_text(document)
}

/// `.codex/config.toml` under the home directory `home`; fails when the
/// home directory is unknown.
pub fn codex_config_path_under(home: Option<String>) -> (r: Result<String, CodexConfigError>)
    ensures
        match home {
            Some(_) => r matches Ok(p) && ends_with_joined(p@, ".codex"@, "config.toml"@),
            None => r matches Err(e) && e is MissingHome,
        },
{
    proof {
        reveal_strlit(".codex");
        reveal_strlit("config.toml");
        assert(".codex"@.len() == 6 && seq!['.'].len() == 1 && seq!['.', '.'].len() == 2);
        assert("config.toml"@.len() == 11);
        assert(".codex"@ != seq!['.']);
        assert(".codex"@ != seq!['.', '.']);
        assert("config.toml"@ != seq!['.']);
        assert("config.toml"@ != seq!['.', '.']);
    }
    match home {
        Some(h) => Ok(join_path(h.as_str(), ".codex", "config.toml")),
        None => Err(CodexConfigError::MissingHome),
    }
}

/// `~/.codex/config.toml`: a path that ends with `.codex`, a separator and
/// `config.toml`.  Fails when the home directory is unknown.
pub fn default_codex_config_path() -> (r: Result<String, CodexConfigError>)
    ensures
        r matches Ok(p) ==> ends_with_joined(p@, ".codex"@, "config.toml"@),
        r matches Err(e) ==> e is MissingHome,
{
    codex_config_path_under(home_dir())
}

impl PersistentCodexConfig {
    /// The settings to write for `config`: the configured Codex config path
    /// (environment variables expanded) or the default one, and the
    /// configured provider id, name and key mode.
    pub fn from_launcher_config(
        config: &LauncherConfig,
        model: Option<String>,
        base_url: String,
        api_key: String,
        vars: &Vec<(String, String)>,
    ) -> (r: Result<PersistentCodexConfig, CodexConfigError>)
        ensures
            match r {
                Ok(p) => {
                    &&& (non_empty_spec(config@.codex_config_path) matches Some(v) ==> p.config_path@ == expand_all(v, vars_view(vars@)))
                    &&& (non_empty_spec(config@.codex_config_path) is None ==> ends_with_joined(
                        p.config_path@,
                        ".codex"@,
                        "config.toml"@,
                    ))
                    &&& p.model == model
                    &&& p.provider_id@ == provider_id_spec(config@)
                    &&& p.provider_name@ == provider_name_spec(config@)
                    &&& p.base_url == base_url
                    &&& p.api_key == api_key
                    &&& p.api_key_mode == api_key_mode_spec(config@)
                },
                Err(e) => e is MissingHome && non_empty_spec(config@.codex_config_path) is None,
            },
    {
        let config_path = match config.codex_config_path(vars) {
            Some(p) => p,
            None => default_codex_config_path()?,
        };
        Ok(PersistentCodexConfig {
            config_path,
            model,
            provider_id: config.codex_provider_id(),
            provider_name: config.codex_provider_name(),
            base_url,
            api_key,
            api_key_mode: config.codex_api_key_mode(),
        })
    }
}

/// The provider block and top-level settings that `apply_to_document`
/// writes: `model` (when one is given) and `model_provider` at the top, and
/// in the provider's table its name, base URL, the `responses` wire API, no
/// OpenAI sign-in, and the key as the mode asks; earlier key settings and
/// `auth` are dropped.
pub open spec fn apply_spec(m: TomlMap, s: PersistentCodexConfig) -> TomlMap {
    let id = s.provider_id@;
    let m1 = match s.model {
        Some(x) => with_entry(m, root_path("model"@), TomlEntry::Str(x@)),
        None => m,
    };
    let m2 = with_entry(m1, root_path("model_provider"@), TomlEntry::Str(id));
    let m3 = ensure_provider_spec(m2, id);
    let m4 = with_entry(m3, provider_key_path(id, "name"@), TomlEntry::Str(s.provider_name@));
    let m5 = with_entry(m4, provider_key_path(id, "base_url"@), TomlEntry::Str(s.base_url@));
    let m6 = with_entry(m5, provider_key_path(id, "wire_api"@), TomlEntry::Str("responses"@));
    let m7 = with_entry(m6, provider_key_path(id, "requires_openai_auth"@), TomlEntry::Bool(false));
    let m8 = without(
        without(without(m7, provider_key_path(id, "env_key"@)), provider_key_path(id, "experimental_bearer_token"@)),
        provider_key_path(id, "auth"@),
    );
    match s.api_key_mode {
        ApiKeyMode::EnvKey => with_entry(m8, provider_key_path(id, "env_key"@), TomlEntry::Str(env_key_name())),
        ApiKeyMode::ExperimentalBearerToken => with_entry(
            m8,
            provider_key_path(id, "experimental_bearer_token"@),
            TomlEntry::Str(s.api_key@),
        ),
        ApiKeyMode::NoKey => m8,
    }
}

/// Whether the provider can be written into `m`: `model_providers` is free
/// or a table, and so is the provider's own entry.  (The launcher does not
/// write into inline tables.)
pub open spec fn provider_slot_ok(m: TomlMap, id: Seq<char>) -> bool {
    absent_or_table(m, root_path(providers_key())) && (is_table_at(m, root_path(providers_key()))
        ==> absent_or_table(m, provider_path(id)))
}

proof fn lemma_root_keys_distinct()
    ensures
        "model"@ != providers_key(),
        "model_provider"@ != providers_key(),
        "profile"@ != providers_key(),
        "model_catalog_json"@ != providers_key(),
{
    reveal_strlit("model");
    reveal_strlit("model_provider");
    reveal_strlit("model_providers");
    reveal_strlit("profile");
    reveal_strlit("model_catalog_json");
    assert("model"@.len() != providers_key().len());
    assert("model_provider"@.len() != providers_key().len());
    assert("profile"@.len() != providers_key().len());
    assert("model_catalog_json"@.len() != providers_key().len());
}

/// Whether the slot for provider `id` can be written.
pub fn provider_slot_free(doc: &DocumentMut, id: &str) -> (r: bool)
    ensures
        r == provider_slot_ok(toml_items(*doc), id@),
{
    if !toml_root_has(doc, "model_providers") {
        return true;
    }
    if !toml_root_is_table(doc, "model_providers") {
        return false;
    }
    !toml_providers_has(doc, id) || toml_provider_is_table(doc, id)
}

/// Writes the launcher's provider into `doc` and makes it the active one,
/// leaving every other section as it was.
pub fn apply_to_document(doc: &mut DocumentMut, settings: &PersistentCodexConfig)
    requires
        provider_slot_ok(toml_items(*old(doc)), settings.provider_id@),
    ensures
        toml_items(*final(doc)) == apply_spec(toml_items(*old(doc)), *settings),
{
    proof {
        lemma_root_keys_distinct();
    }
    let id = settings.provider_id.as_str();
    if let Some(model) = &settings.model {
        toml_root_set_str(doc, "model", model.as_str());
    }
    toml_root_set_str(doc, "model_provider", id);
    proof {
        lemma_apart_at_first_key(root_path("model_provider"@), root_path(providers_key()));
        lemma_apart_at_first_key(root_path("model_provider"@), provider_path(id@));
        lemma_apart_at_first_key(root_path("model"@), root_path(providers_key()));
        lemma_apart_at_first_key(root_path("model"@), provider_path(id@));
    }
    proof {
        lemma_ensure_provider(toml_items(*doc), id@);
    }
    toml_ensure_provider(doc, id);
    toml_provider_set_str(doc, id, "name", settings.provider_name.as_str());
    proof {
        assert(!at_or_below(provider_key_path(id@, "name"@), root_path(providers_key())));
        assert(!at_or_below(provider_key_path(id@, "name"@), provider_path(id@)));
    }
    toml_provider_set_str(doc, id, "base_url", settings.base_url.as_str());
    proof {
        assert(!at_or_below(provider_key_path(id@, "base_url"@), root_path(providers_key())));
        assert(!at_or_below(provider_key_path(id@, "base_url"@), provider_path(id@)));
    }
    toml_provider_set_str(doc, id, "wire_api", "responses");
    proof {
        assert(!at_or_below(provider_key_path(id@, "wire_api"@), root_path(providers_key())));
        assert(!at_or_below(provider_key_path(id@, "wire_api"@), provider_path(id@)));
    }
    toml_provider_set_bool(doc, id, "requires_openai_auth", false);
    proof {
        assert(!at_or_below(provider_key_path(id@, "requires_openai_auth"@), root_path(providers_key())));
        assert(!at_or_below(provider_key_path(id@, "requires_openai_auth"@), provider_path(id@)));
        assert(!at_or_below(provider_key_path(id@, "env_key"@), root_path(providers_key())));
        assert(!at_or_below(provider_key_path(id@, "env_key"@), provider_path(id@)));
        assert(!at_or_below(provider_key_path(id@, "experimental_bearer_token"@), root_path(providers_key())));
        assert(!at_or_below(provider_key_path(id@, "experimental_bearer_token"@), provider_path(id@)));
        assert(!at_or_below(provider_key_path(id@, "auth"@), root_path(providers_key())));
        assert(!at_or_below(provider_key_path(id@, "auth"@), provider_path(id@)));
    }
    toml_provider_remove_key(doc, id, "env_key");
    toml_provider_remove_key(doc, id, "experimental_bearer_token");
    toml_provider_remove_key(doc, id, "auth");
    match settings.api_key_mode {
        ApiKeyMode::EnvKey => toml_provider_set_str(doc, id, "env_key", "OPENAI_API_KEY"),
        ApiKeyMode::ExperimentalBearerToken => toml_provider_set_str(
            doc,
            id,
            "experimental_bearer_token",
            settings.api_key.as_str(),
        ),
        ApiKeyMode::NoKey => {},
    }
}

// ---------------------------------------------------------------------------
// Inspecting, applying, restoring
// ---------------------------------------------------------------------------
/// The string at key `k` of provider `id`.
pub open spec fn provider_str_spec(m: TomlMap, id: Seq<char>, k: Seq<char>) -> Option<Seq<char>> {
    match provider_entry(m, id, k) {
        Some(TomlEntry::Str(s)) => Some(s),
        _ => None,
    }
}

/// What the launcher reports about Codex's configuration.
#[derive(Clone, Debug)]
pub struct CodexConfigInspection {
    pub config_path: String,
    pub exists: bool,
    pub model: Option<String>,
    pub model_provider: Option<String>,
    pub managed_by_launcher: bool,
    pub launcher_base_url: Option<String>,
    pub restore_state_available: bool,
}

/// Whether the active provider of `m` is one the launcher manages.
pub open spec fn active_is_managed(m: TomlMap, configured: Seq<char>) -> bool {
    match root_str_spec(m, "model_provider"@) {
        Some(a) => is_managed(m, a, configured),
        None => false,
    }
}

/// The launcher's base URL, when the active provider is the launcher's.
pub open spec fn launcher_base_url_spec(m: TomlMap, configured: Seq<char>) -> Option<Seq<char>> {
    if active_is_managed(m, configured) {
        provider_str_spec(m, root_str_spec(m, "model_provider"@)->0, "base_url"@)
    } else {
        None
    }
}

/// Describes a configuration: `doc` is the parsed file, or `None` when the
/// file does not exist.
pub fn inspect(
    doc: Option<&DocumentMut>,
    config_path: String,
    provider_id: &str,
    restore_state_available: bool,
) -> (r: CodexConfigInspection)
    ensures
        r.config_path == config_path,
        r.restore_state_available == restore_state_available,
        r.exists == doc.is_some(),
        match doc {
            Some(d) => {
                &&& opt_view(r.model) == root_str_spec(toml_items(*d), "model"@)
                &&& opt_view(r.model_provider) == root_str_spec(toml_items(*d), "model_provider"@)
                &&& r.managed_by_launcher == active_is_managed(toml_items(*d), provider_id@)
                &&& opt_view(r.launcher_base_url) == launcher_base_url_spec(toml_items(*d), provider_id@)
            },
            None => r.model is None && r.model_provider is None && !r.managed_by_launcher
                && r.launcher_base_url is None,
        },
{
    let Some(d) = doc else {
        return CodexConfigInspection {
            config_path,
            exists: false,
            model: None,
            model_provider: None,
            managed_by_launcher: false,
            launcher_base_url: None,
            restore_state_available,
        };
    };
    let model = toml_root_str(d, "model");
    let model_provider = toml_root_str(d, "model_provider");
    let managed_by_launcher = match &model_provider {
        Some(id) => is_launcher_managed_provider(d, id.as_str(), provider_id),
        None => false,
    };
    let launcher_base_url = if managed_by_launcher {
        match &model_provider {
            Some(id) => {
                let u = toml_provider_str(d, id.as_str(), "base_url");
                proof {
                    if u is None {
                        assert(provider_str_spec(toml_items(*d), id@, "base_url"@) is None);
                    }
                }
                u
            },
            None => None,
        }
    } else {
        None
    };
    CodexConfigInspection {
        config_path,
        exists: true,
        model,
        model_provider,
        managed_by_launcher,
        launcher_base_url,
        restore_state_available,
    }
}

/// The saved settings to write before the launcher switches Codex to its
/// provider: none when Codex is already on a launcher provider or settings
/// were saved before, else the current top-level settings.
pub open spec fn state_to_save_spec(m: TomlMap, provider_id: Seq<char>, saved_before: bool) -> Option<RestoreStateModel> {
    if active_is_managed(m, provider_id) || saved_before {
        None
    } else {
        Some(restore_state_of(m))
    }
}

/// Switches Codex to the launcher's provider.  Returns the settings to save
/// for a later restore, when they have to be saved; `restore_state_saved`
/// says whether they were saved before.
pub fn apply(doc: &mut DocumentMut, settings: &PersistentCodexConfig, restore_state_saved: bool) -> (r: Option<RestoreState>)
    requires
        provider_slot_ok(toml_items(*old(doc)), settings.provider_id@),
    ensures
        match r {
            Some(s) => state_to_save_spec(toml_items(*old(doc)), settings.provider_id@, restore_state_saved) == Some(s@),
            None => state_to_save_spec(toml_items(*old(doc)), settings.provider_id@, restore_state_saved) is None,
        },
        toml_items(*final(doc)) == apply_spec(toml_items(*old(doc)), *settings),
{
    let on_launcher = match toml_root_str(doc, "model_provider") {
        Some(current) => is_launcher_managed_provider(doc, current.as_str(), settings.provider_id.as_str()),
        None => false,
    };
    let state = if on_launcher || restore_state_saved {
        None
    } else {
        Some(RestoreState::from_document(doc))
    };
    apply_to_document(doc, settings);
    state
}

/// The providers that a restore takes out: every provider the launcher
/// manages, and the active provider when it is one of them.
pub open spec fn launcher_ids(m: TomlMap, configured: Seq<char>) -> Set<Seq<char>> {
    let managed = provider_ids_spec(m).filter(|id: Seq<char>| is_managed(m, id, configured));
    if active_is_managed(m, configured) {
        managed.insert(root_str_spec(m, "model_provider"@)->0)
    } else {
        managed
    }
}

/// The launcher's providers, each once.
pub fn collect_launcher_provider_ids(doc: &DocumentMut, configured: &str) -> (r: Vec<String>)
    ensures
        forall|i: int| 0 <= i < r.len() ==> #[trigger] launcher_ids(toml_items(*doc), configured@).contains(r@[i]@),
        forall|id: Seq<char>| #[trigger] launcher_ids(toml_items(*doc), configured@).contains(id) ==> exists|i: int| 0 <= i < r.len() && r@[i]@ == id,
        forall|i: int, j: int| 0 <= i < j < r.len() ==> r@[i]@ != r@[j]@,
{
    let ghost m = toml_items(*doc);
    let all = toml_provider_ids(doc);
    let mut ids: Vec<String> = Vec::new();
    let mut i: usize = 0;
    while i < all.len()
        invariant
            i <= all.len(),
            m == toml_items(*doc),
            forall|k: int| 0 <= k < all.len() ==> #[trigger] provider_ids_spec(m).contains(all@[k]@),
            forall|id: Seq<char>| #[trigger] provider_ids_spec(m).contains(id) ==> exists|k: int| 0 <= k < all.len() && all@[k]@ == id,
            forall|a: int, b: int| 0 <= a < b < all.len() ==> all@[a]@ != all@[b]@,
            forall|k: int| 0 <= k < ids.len() ==> #[trigger] provider_ids_spec(m).contains(ids@[k]@),
            forall|k: int| 0 <= k < ids.len() ==> is_managed(m, #[trigger] ids@[k]@, configured@),
            forall|k: int| #![trigger all@[k]] 0 <= k < i && is_managed(m, all@[k]@, configured@) ==> exists|j: int| 0 <= j < ids.len() && #[trigger] ids@[j]@ == all@[k]@,
            forall|j: int| #![trigger ids@[j]] 0 <= j < ids.len() ==> exists|k: int| 0 <= k < i && #[trigger] all@[k]@ == ids@[j]@,
            forall|a: int, b: int| 0 <= a < b < ids.len() ==> ids@[a]@ != ids@[b]@,
        decreases all.len() - i,
    {
        let id = &all[i];
        if is_launcher_managed_provider(doc, id.as_str(), configured) {
            let ghost before = ids@;
            ids.push(id.clone());
            proof {
                assert forall|a: int, b: int| 0 <= a < b < ids.len() implies ids@[a]@ != ids@[b]@ by {
                    if b == ids.len() - 1 {
                        let k = choose|k: int| 0 <= k < i && #[trigger] all@[k]@ == ids@[a]@;
                        assert(all@[k]@ != all@[i as int]@);
                    }
                }
                assert forall|j: int| #![trigger ids@[j]] 0 <= j < ids.len() implies exists|k: int| 0 <= k < i + 1 && #[trigger] all@[k]@ == ids@[j]@ by {
                    if j < ids.len() - 1 {
                        let k = choose|k: int| 0 <= k < i && #[trigger] all@[k]@ == ids@[j]@;
                        assert(0 <= k < i + 1 && all@[k]@ == ids@[j]@);
                    } else {
                        assert(all@[i as int]@ == ids@[j]@);
                    }
                }
                assert forall|k: int| #![trigger all@[k]] 0 <= k < i + 1 && is_managed(m, all@[k]@, configured@) implies exists|j: int| 0 <= j < ids.len() && #[trigger] ids@[j]@ == all@[k]@ by {
                    if k < i {
                        let j = choose|j: int| 0 <= j < before.len() && before[j]@ == all@[k]@;
                        assert(ids@[j]@ == all@[k]@);
                    } else {
                        assert(ids@[ids.len() - 1]@ == all@[k]@);
                    }
                }
            }
        }
        i += 1;
    }
    let ghost base = ids@;
    let ghost lids = launcher_ids(m, configured@);
    proof {
        assert forall|id: Seq<char>| #[trigger] provider_ids_spec(m).contains(id) && is_managed(m, id, configured@) implies exists|x: int| 0 <= x < base.len() && base[x]@ == id by {
            let k = choose|k: int| 0 <= k < all.len() && all@[k]@ == id;
            assert(is_managed(m, all@[k]@, configured@));
        }
        assert forall|x: int| 0 <= x < base.len() implies #[trigger] lids.contains(base[x]@) by {
            assert(provider_ids_spec(m).contains(ids@[x]@) && is_managed(m, ids@[x]@, configured@));
        }
    }
    if let Some(active) = toml_root_str(doc, "model_provider") {
        if is_launcher_managed_provider(doc, active.as_str(), configured) {
            assert(active_is_managed(m, configured@));
            assert(lids.contains(active@));
            let mut found = false;
            let mut j: usize = 0;
            while j < ids.len()
                invariant
                    j <= ids.len(),
                    found == exists|k: int| 0 <= k < j && #[trigger] ids@[k]@ == active@,
                decreases ids.len() - j,
            {
                if str_eq(ids[j].as_str(), active.as_str()) {
                    found = true;
                }
                j += 1;
            }
            if !found {
                ids.push(active);
                proof {
                    assert forall|a: int, b: int| 0 <= a < b < ids.len() implies ids@[a]@ != ids@[b]@ by {
                        if b == ids.len() - 1 {
                            assert(base[a]@ != active@);
                        }
                    }
                    assert forall|id: Seq<char>| #[trigger] lids.contains(id) implies exists|x: int| 0 <= x < ids.len() && ids@[x]@ == id by {
                        if id == active@ {
                            assert(ids@[ids.len() - 1]@ == id);
                        } else {
                            let x = choose|x: int| 0 <= x < base.len() && base[x]@ == id;
                            assert(ids@[x]@ == id);
                        }
                    }
                }
            } else {
                proof {
                    assert forall|id: Seq<char>| #[trigger] lids.contains(id) implies exists|x: int| 0 <= x < ids.len() && ids@[x]@ == id by {
                        if id != active@ {
                            let x = choose|x: int| 0 <= x < base.len() && base[x]@ == id;
                            assert(ids@[x]@ == id);
                        }
                    }
                }
            }
            return ids;
        }
    }
    proof {
        assert(!active_is_managed(m, configured@));
        assert forall|id: Seq<char>| #[trigger] lids.contains(id) implies exists|x: int| 0 <= x < ids.len() && ids@[x]@ == id by {
            let x = choose|x: int| 0 <= x < base.len() && base[x]@ == id;
            assert(ids@[x]@ == id);
        }
    }
    ids
}

/// `m` with the blocks of the providers in `s` removed, and the
/// `model_providers` table too when something was removed and nothing is
/// left in it.
pub open spec fn remove_providers(m: TomlMap, s: Set<Seq<char>>) -> TomlMap {
    if is_table_at(m, root_path(providers_key())) {
        let m1 = Map::new(
            |q: Seq<Seq<char>>| m.dom().contains(q) && !(q.len() >= 2 && q[0] == providers_key() && s.contains(q[1])),
            |q: Seq<Seq<char>>| m[q],
        );
        if provider_ids_spec(m1).is_empty() && !s.is_empty() {
            without(m1, root_path(providers_key()))
        } else {
            m1
        }
    } else {
        m
    }
}

proof fn lemma_below_provider(id: Seq<char>, q: Seq<Seq<char>>)
    ensures
        at_or_below(provider_path(id), q) <==> (q.len() >= 2 && q[0] == providers_key() && q[1] == id),
        at_or_below(root_path(providers_key()), q) <==> (q.len() >= 1 && q[0] == providers_key()),
{
    if q.len() >= 2 && q[0] == providers_key() && q[1] == id {
        assert(q.subrange(0, 2) =~= provider_path(id));
    }
    if at_or_below(provider_path(id), q) {
        assert(q.subrange(0, 2)[0] == q[0]);
        assert(q.subrange(0, 2)[1] == q[1]);
    }
    if q.len() >= 1 && q[0] == providers_key() {
        assert(q.subrange(0, 1) =~= root_path(providers_key()));
    }
    if at_or_below(root_path(providers_key()), q) {
        assert(q.subrange(0, 1)[0] == q[0]);
    }
}

proof fn lemma_remove_providers_empty(m: TomlMap)
    ensures
        remove_providers(m, Set::empty()) == m,
{
    if is_table_at(m, root_path(providers_key())) {
        let m1 = Map::new(
            |q: Seq<Seq<char>>| m.dom().contains(q) && !(q.len() >= 2 && q[0] == providers_key() && Set::<Seq<char>>::empty().contains(q[1])),
            |q: Seq<Seq<char>>| m[q],
        );
        assert(m1 =~= m);
    }
}

proof fn lemma_remove_providers_step(m: TomlMap, s: Set<Seq<char>>, id: Seq<char>)
    ensures
        remove_provider_spec(remove_providers(m, s), id) == remove_providers(m, s.insert(id)),
{
    let mp = root_path(providers_key());
    if is_table_at(m, mp) {
        let m1 = Map::new(
            |q: Seq<Seq<char>>| m.dom().contains(q) && !(q.len() >= 2 && q[0] == providers_key() && s.contains(q[1])),
            |q: Seq<Seq<char>>| m[q],
        );
        let s2 = s.insert(id);
        let m2 = Map::new(
            |q: Seq<Seq<char>>| m.dom().contains(q) && !(q.len() >= 2 && q[0] == providers_key() && s2.contains(q[1])),
            |q: Seq<Seq<char>>| m[q],
        );
        assert(!s2.is_empty()) by {
            assert(s2.contains(id));
        }
        assert forall|q: Seq<Seq<char>>| true implies (at_or_below(provider_path(id), q) <==> (q.len() >= 2 && q[0] == providers_key() && q[1] == id)) && (at_or_below(mp, q) <==> (q.len() >= 1 && q[0] == providers_key())) by {
            lemma_below_provider(id, q);
        }
        assert(mp.len() == 1 && mp[0] == providers_key());
        assert(m1.dom().contains(mp));
        let a = remove_providers(m, s);
        if provider_ids_spec(m1).is_empty() && !s.is_empty() {
            assert(!is_table_at(a, mp));
            assert(provider_ids_spec(m2) =~= Set::<Seq<char>>::empty()) by {
                assert forall|x: Seq<char>| !#[trigger] provider_ids_spec(m2).contains(x) by {
                    assert(provider_path(x).len() == 2);
                    if m2.dom().contains(provider_path(x)) {
                        assert(m1.dom().contains(provider_path(x)));
                        assert(provider_ids_spec(m1).contains(x));
                    }
                }
            }
            assert(without(m1, mp) =~= without(m2, mp));
        } else {
            assert(a == m1);
            assert(is_table_at(a, mp));
            assert(without(m1, provider_path(id)) =~= m2);
        }
    }
}

/// Taking the launcher out of a configuration: every launcher provider and
/// the configured one are removed; when Codex was on a launcher provider the
/// saved settings come back; and when the active provider is still a
/// launcher one after that, the settings are reverted as if none had been
/// saved.
pub open spec fn restore_spec(m: TomlMap, configured: Seq<char>, state: Option<RestoreStateModel>) -> TomlMap {
    let m1 = remove_providers(m, launcher_ids(m, configured).insert(configured));
    let m2 = if active_is_managed(m, configured) {
        revert_spec(m1, state)
    } else {
        m1
    };
    if active_is_managed(m2, configured) {
        revert_spec(m2, None)
    } else {
        m2
    }
}

pub open spec fn names(v: Seq<String>) -> Set<Seq<char>> {
    v.map_values(|s: String| s@).to_set()
}

/// Takes the launcher out of `doc`; see `restore_spec`.
pub fn restore(doc: &mut DocumentMut, provider_id: &str, restore_state: Option<&RestoreState>)
    ensures
        toml_items(*final(doc)) == restore_spec(
            toml_items(*old(doc)),
            provider_id@,
            match restore_state {
                Some(s) => Some(s@),
                None => None,
            },
        ),
{
    let ghost m = toml_items(*doc);
    let ids = collect_launcher_provider_ids(doc, provider_id);
    let on_launcher = match toml_root_str(doc, "model_provider") {
        Some(active) => is_launcher_managed_provider(doc, active.as_str(), provider_id),
        None => false,
    };
    let mut i: usize = 0;
    let mut has_configured = false;
    proof {
        lemma_remove_providers_empty(m);
        assert(names(ids@.subrange(0, 0)) =~= Set::<Seq<char>>::empty());
    }
    while i < ids.len()
        invariant
            i <= ids.len(),
            toml_items(*doc) == remove_providers(m, names(ids@.subrange(0, i as int))),
            has_configured == names(ids@.subrange(0, i as int)).contains(provider_id@),
        decreases ids.len() - i,
    {
        proof {
            lemma_remove_providers_step(m, names(ids@.subrange(0, i as int)), ids@[i as int]@);
            assert(names(ids@.subrange(0, i + 1)) =~= names(ids@.subrange(0, i as int)).insert(ids@[i as int]@)) by {
                assert(ids@.subrange(0, i + 1) =~= ids@.subrange(0, i as int).push(ids@[i as int]));
                assert(ids@.subrange(0, i + 1).map_values(|s: String| s@) =~= ids@.subrange(0, i as int).map_values(|s: String| s@).push(ids@[i as int]@));
                ids@.subrange(0, i as int).map_values(|s: String| s@).lemma_push_to_set_commute(ids@[i as int]@);
            }
        }
        if str_eq(ids[i].as_str(), provider_id) {
            has_configured = true;
        }
        remove_provider(doc, ids[i].as_str());
        i += 1;
    }
    let ghost removed = names(ids@.subrange(0, i as int));
    assert(ids@.subrange(0, i as int) =~= ids@);
    proof {
        assert(removed =~= launcher_ids(m, provider_id@)) by {
            assert forall|x: Seq<char>| removed.contains(x) <==> launcher_ids(m, provider_id@).contains(x) by {
                let vs = ids@.map_values(|s: String| s@);
                if removed.contains(x) {
                    assert(vs.contains(x));
                    let k = choose|k: int| 0 <= k < vs.len() && #[trigger] vs[k] == x;
                    assert(ids@[k]@ == x);
                }
                if launcher_ids(m, provider_id@).contains(x) {
                    let k = choose|k: int| 0 <= k < ids.len() && ids@[k]@ == x;
                    assert(vs[k] == x);
                    assert(vs.contains(x));
                }
            }
        }
    }
    if !has_configured {
        proof {
            lemma_remove_providers_step(m, removed, provider_id@);
        }
        remove_provider(doc, provider_id);
    } else {
        assert(removed.insert(provider_id@) =~= removed);
    }
    if on_launcher {
        revert_launcher_root_settings(doc, restore_state);
    }
    let still_on_launcher = match toml_root_str(doc, "model_provider") {
        Some(active) => is_launcher_managed_provider(doc, active.as_str(), provider_id),
        None => false,
    };
    if still_on_launcher {
        revert_launcher_root_settings(doc, None);
    }
}

// ---------------------------------------------------------------------------
// Laws
// ---------------------------------------------------------------------------
/// Two documents agree on provider `id`: the same `model_providers` table
/// status and the same entries for the provider and its keys.
pub open spec fn agree_on_provider(a: TomlMap, b: TomlMap, id: Seq<char>) -> bool {
    &&& is_table_at(a, root_path(providers_key())) == is_table_at(b, root_path(providers_key()))
    &&& a.dom().contains(provider_path(id)) == b.dom().contains(provider_path(id))
    &&& a.dom().contains(provider_path(id)) ==> a[provider_path(id)] == b[provider_path(id)]
    &&& forall|k: Seq<char>| #[trigger] a.dom().contains(provider_key_path(id, k)) == b.dom().contains(provider_key_path(id, k))
    &&& forall|k: Seq<char>| #[trigger] a.dom().contains(provider_key_path(id, k)) ==> a[provider_key_path(id, k)] == b[provider_key_path(id, k)]
}

/// Two documents agree on everything under `model_providers`.
pub open spec fn agree_on_providers(a: TomlMap, b: TomlMap) -> bool {
    forall|q: Seq<Seq<char>>|
        q.len() >= 1 && q[0] == providers_key() ==> (#[trigger] a.dom().contains(q) == b.dom().contains(q) && (a.dom().contains(q) ==> a[q] == b[q]))
}

proof fn lemma_agree_on_provider_facts(a: TomlMap, b: TomlMap, id: Seq<char>, c: Seq<char>)
    requires
        agree_on_provider(a, b, id),
    ensures
        provider_table(a, id) == provider_table(b, id),
        forall|k: Seq<char>| #[trigger] provider_entry(a, id, k) == provider_entry(b, id, k),
        has_fingerprint(a, id) == has_fingerprint(b, id),
        is_managed(a, id, c) == is_managed(b, id, c),
        is_injected(a, id) == is_injected(b, id),
        account_score(a, id) == account_score(b, id),
{
    assert(forall|k: Seq<char>| #[trigger] provider_entry(a, id, k) == provider_entry(b, id, k));
    assert(provider_entry(a, id, "wire_api"@) == provider_entry(b, id, "wire_api"@));
    assert(provider_entry(a, id, "requires_openai_auth"@) == provider_entry(b, id, "requires_openai_auth"@));
    assert(provider_entry(a, id, "experimental_bearer_token"@) == provider_entry(b, id, "experimental_bearer_token"@));
    assert(provider_entry(a, id, "env_key"@) == provider_entry(b, id, "env_key"@));
    assert(provider_entry(a, id, "base_url"@) == provider_entry(b, id, "base_url"@));
}

proof fn lemma_agree_all_gives_each(a: TomlMap, b: TomlMap, id: Seq<char>)
    requires
        agree_on_providers(a, b),
    ensures
        agree_on_provider(a, b, id),
        provider_ids_spec(a) == provider_ids_spec(b),
{
    let mp = root_path(providers_key());
    assert(mp[0] == providers_key());
    assert(a.dom().contains(mp) == b.dom().contains(mp));
    assert(provider_path(id)[0] == providers_key());
    assert(a.dom().contains(provider_path(id)) == b.dom().contains(provider_path(id)));
    assert forall|k: Seq<char>| #[trigger] a.dom().contains(provider_key_path(id, k)) == b.dom().contains(provider_key_path(id, k)) by {
        assert(provider_key_path(id, k)[0] == providers_key());
    }
    assert forall|k: Seq<char>| #[trigger] a.dom().contains(provider_key_path(id, k)) implies a[provider_key_path(id, k)] == b[provider_key_path(id, k)] by {
        assert(provider_key_path(id, k)[0] == providers_key());
    }
    assert forall|x: Seq<char>| provider_ids_spec(a).contains(x) == provider_ids_spec(b).contains(x) by {
        assert(provider_path(x)[0] == providers_key());
        assert(a.dom().contains(provider_path(x)) == b.dom().contains(provider_path(x)));
    }
    assert(provider_ids_spec(a) =~= provider_ids_spec(b));
}

/// Changing a top-level key other than `model_providers` leaves the
/// providers alone.
proof fn lemma_root_edit_keeps_providers(m: TomlMap, k: Seq<char>, e: TomlEntry)
    requires
        k != providers_key(),
    ensures
        agree_on_providers(m, without(m, root_path(k))),
        agree_on_providers(m, with_entry(m, root_path(k), e)),
{
    assert forall|q: Seq<Seq<char>>| q.len() >= 1 && q[0] == providers_key() implies !at_or_below(root_path(k), q) && q != root_path(k) by {
        lemma_apart_at_first_key(root_path(k), q);
    }
}

proof fn lemma_agree_trans(a: TomlMap, b: TomlMap, c: TomlMap)
    requires
        agree_on_providers(a, b),
        agree_on_providers(b, c),
    ensures
        agree_on_providers(a, c),
{
}

proof fn lemma_restore_root_keeps_providers(m: TomlMap, k: Seq<char>, had: bool, v: Option<Seq<char>>)
    requires
        k != providers_key(),
    ensures
        agree_on_providers(m, restore_root_spec(m, k, had, v)),
{
    lemma_root_edit_keeps_providers(m, k, TomlEntry::Str(v.unwrap_or(Seq::empty())));
    if had {
        if let Some(x) = v {
            lemma_root_edit_keeps_providers(m, k, TomlEntry::Str(x));
        }
    }
}

/// Reverting the top-level settings leaves the providers alone.
proof fn lemma_revert_keeps_providers(m: TomlMap, state: Option<RestoreStateModel>)
    ensures
        agree_on_providers(m, revert_spec(m, state)),
{
    lemma_root_keys_distinct();
    match state {
        Some(s) => {
            let m1 = restore_root_spec(m, "profile"@, s.had_profile, s.profile);
            let m2 = restore_root_spec(m1, "model"@, s.had_model, s.model);
            let m3 = restore_root_spec(m2, "model_provider"@, s.had_model_provider, s.model_provider);
            lemma_restore_root_keeps_providers(m, "profile"@, s.had_profile, s.profile);
            lemma_restore_root_keeps_providers(m1, "model"@, s.had_model, s.model);
            lemma_restore_root_keeps_providers(m2, "model_provider"@, s.had_model_provider, s.model_provider);
            lemma_restore_root_keeps_providers(m3, "model_catalog_json"@, s.had_model_catalog_json, s.model_catalog_json);
        },
        None => {
            let m0 = without(m, root_path("model"@));
            let m1 = without(m0, root_path("model_catalog_json"@));
            lemma_root_edit_keeps_providers(m, "model"@, TomlEntry::Other);
            lemma_root_edit_keeps_providers(m0, "model_catalog_json"@, TomlEntry::Other);
            match best_candidate(m1) {
                Some(a) => lemma_root_edit_keeps_providers(m1, "model_provider"@, TomlEntry::Str(a)),
                None => lemma_root_edit_keeps_providers(m1, "model_provider"@, TomlEntry::Other),
            }
        },
    }
}

/// What is left after removing providers: the others, unchanged.
proof fn lemma_remove_providers_keeps_others(m: TomlMap, s: Set<Seq<char>>, id: Seq<char>)
    ensures
        provider_ids_spec(remove_providers(m, s)).contains(id) <==> (provider_ids_spec(m).contains(id) && !s.contains(id)) && !(provider_ids_spec(remove_providers(m, s)).is_empty()),
        provider_ids_spec(remove_providers(m, s)).contains(id) ==> agree_on_provider(m, remove_providers(m, s), id),
        s.contains(id) ==> !provider_ids_spec(remove_providers(m, s)).contains(id),
{
    let mp = root_path(providers_key());
    let r = remove_providers(m, s);
    assert(provider_path(id)[0] == providers_key() && provider_path(id)[1] == id);
    if is_table_at(m, mp) {
        let m1 = Map::new(
            |q: Seq<Seq<char>>| m.dom().contains(q) && !(q.len() >= 2 && q[0] == providers_key() && s.contains(q[1])),
            |q: Seq<Seq<char>>| m[q],
        );
        assert(mp.len() == 1);
        assert(m1.dom().contains(mp));
        if provider_ids_spec(m1).is_empty() && !s.is_empty() {
            lemma_below_provider(id, provider_path(id));
            assert(mp.subrange(0, 1) =~= mp);
            assert(!r.dom().contains(mp));
            assert(provider_ids_spec(r) =~= Set::<Seq<char>>::empty());
            assert(!provider_ids_spec(m1).contains(id));
        } else {
            assert(r == m1);
            if provider_ids_spec(r).contains(id) {
                assert forall|k: Seq<char>| #[trigger] m.dom().contains(provider_key_path(id, k)) == r.dom().contains(provider_key_path(id, k)) by {
                    assert(provider_key_path(id, k)[1] == id);
                }
            }
        }
    }
}

/// After a restore, the configuration holds no provider that the launcher
/// manages.
pub proof fn law_restore_removes_launcher_providers(
    m: TomlMap,
    configured: Seq<char>,
    state: Option<RestoreStateModel>,
    id: Seq<char>,
)
    requires
        provider_ids_spec(restore_spec(m, configured, state)).contains(id),
    ensures
        !is_managed(restore_spec(m, configured, state), id, configured),
        provider_ids_spec(m).contains(id),
{
    let s = launcher_ids(m, configured).insert(configured);
    let m1 = remove_providers(m, s);
    let m2 = if active_is_managed(m, configured) {
        revert_spec(m1, state)
    } else {
        m1
    };
    let fin = restore_spec(m, configured, state);
    lemma_revert_keeps_providers(m1, state);
    assert(agree_on_providers(m1, m2));
    lemma_revert_keeps_providers(m2, None);
    assert(agree_on_providers(m2, fin));
    lemma_agree_trans(m1, m2, fin);
    lemma_agree_all_gives_each(m1, fin, id);
    lemma_agree_on_provider_facts(m1, fin, id, configured);
    lemma_remove_providers_keeps_others(m, s, id);
    assert(provider_ids_spec(m1).contains(id));
    lemma_agree_on_provider_facts(m, m1, id, configured);
    assert(!s.contains(id));
    assert(!is_managed(m, id, configured));
}

/// After a restore, the active provider, when there is one, is not a
/// launcher provider.
pub proof fn law_restore_leaves_no_launcher_active(
    m: TomlMap,
    configured: Seq<char>,
    state: Option<RestoreStateModel>,
)
    ensures
        !active_is_managed(restore_spec(m, configured, state), configured),
{
    let s = launcher_ids(m, configured).insert(configured);
    let m1 = remove_providers(m, s);
    let m2 = if active_is_managed(m, configured) {
        revert_spec(m1, state)
    } else {
        m1
    };
    if active_is_managed(m2, configured) {
        lemma_root_keys_distinct();
        let n0 = without(m2, root_path("model"@));
        let n1 = without(n0, root_path("model_catalog_json"@));
        let fin = revert_spec(m2, None);
        lemma_root_edit_keeps_providers(m2, "model"@, TomlEntry::Other);
        lemma_root_edit_keeps_providers(n0, "model_catalog_json"@, TomlEntry::Other);
        lemma_agree_trans(m2, n0, n1);
        match best_candidate(n1) {
            Some(a) => {
                let b = choose|b: Seq<char>| is_best_candidate(n1, b);
                assert(is_best_candidate(n1, a));
                lemma_root_edit_keeps_providers(n1, "model_provider"@, TomlEntry::Str(a));
                assert(root_str_spec(fin, "model_provider"@) == Some(a)) by {
                    assert(root_path("model_provider"@).len() == 1);
                }
                lemma_agree_all_gives_each(n1, fin, a);
                lemma_agree_on_provider_facts(n1, fin, a, configured);
                // `a` is not the configured provider: that one was removed.
                lemma_revert_keeps_providers(m1, state);
                lemma_agree_trans(m1, m2, n1);
                lemma_agree_all_gives_each(m1, n1, a);
                lemma_remove_providers_keeps_others(m, s, a);
                assert(s.contains(configured));
                assert(a != configured);
            },
            None => {
                assert(root_str_spec(fin, "model_provider"@) is None) by {
                    lemma_below_provider(Seq::empty(), root_path("model_provider"@));
                    assert(at_or_below(root_path("model_provider"@), root_path("model_provider"@))) by {
                        assert(root_path("model_provider"@).subrange(0, 1) =~= root_path("model_provider"@));
                    }
                }
            },
        }
    }
}

proof fn lemma_provider_key_paths_apart(id: Seq<char>, k1: Seq<char>, k2: Seq<char>)
    requires
        k1 != k2,
    ensures
        !at_or_below(provider_key_path(id, k1), provider_key_path(id, k2)),
        !at_or_below(provider_key_path(id, k1), root_path("model_provider"@)),
        !at_or_below(provider_key_path(id, k1), root_path("model"@)),
        !at_or_below(provider_key_path(id, k1), root_path(providers_key())),
        !at_or_below(provider_key_path(id, k1), provider_path(id)),
{
    if at_or_below(provider_key_path(id, k1), provider_key_path(id, k2)) {
        assert(provider_key_path(id, k2).subrange(0, 3)[2] == k2);
    }
}

proof fn lemma_provider_keys_distinct()
    ensures
        "name"@ != "base_url"@,
        "name"@ != "wire_api"@,
        "name"@ != "requires_openai_auth"@,
        "name"@ != "env_key"@,
        "name"@ != "experimental_bearer_token"@,
        "name"@ != "auth"@,
        "base_url"@ != "name"@,
        "base_url"@ != "wire_api"@,
        "base_url"@ != "requires_openai_auth"@,
        "base_url"@ != "env_key"@,
        "base_url"@ != "experimental_bearer_token"@,
        "base_url"@ != "auth"@,
        "wire_api"@ != "name"@,
        "wire_api"@ != "base_url"@,
        "wire_api"@ != "requires_openai_auth"@,
        "wire_api"@ != "env_key"@,
        "wire_api"@ != "experimental_bearer_token"@,
        "wire_api"@ != "auth"@,
        "requires_openai_auth"@ != "name"@,
        "requires_openai_auth"@ != "base_url"@,
        "requires_openai_auth"@ != "wire_api"@,
        "requires_openai_auth"@ != "env_key"@,
        "requires_openai_auth"@ != "experimental_bearer_token"@,
        "requires_openai_auth"@ != "auth"@,
        "env_key"@ != "name"@,
        "env_key"@ != "base_url"@,
        "env_key"@ != "wire_api"@,
        "env_key"@ != "requires_openai_auth"@,
        "env_key"@ != "experimental_bearer_token"@,
        "env_key"@ != "auth"@,
        "experimental_bearer_token"@ != "name"@,
        "experimental_bearer_token"@ != "base_url"@,
        "experimental_bearer_token"@ != "wire_api"@,
        "experimental_bearer_token"@ != "requires_openai_auth"@,
        "experimental_bearer_token"@ != "env_key"@,
        "experimental_bearer_token"@ != "auth"@,
        "auth"@ != "name"@,
        "auth"@ != "base_url"@,
        "auth"@ != "wire_api"@,
        "auth"@ != "requires_openai_auth"@,
        "auth"@ != "env_key"@,
        "auth"@ != "experimental_bearer_token"@,
        "model"@ != "model_provider"@,
        "model_provider"@ != "model"@,
{
    reveal_strlit("name");
    reveal_strlit("base_url");
    reveal_strlit("wire_api");
    reveal_strlit("requires_openai_auth");
    reveal_strlit("env_key");
    reveal_strlit("experimental_bearer_token");
    reveal_strlit("auth");
    reveal_strlit("model");
    reveal_strlit("model_provider");
    assert("name"@.len() == 4);
    assert("base_url"@.len() == 8);
    assert("wire_api"@.len() == 8);
    assert("requires_openai_auth"@.len() == 20);
    assert("env_key"@.len() == 7);
    assert("experimental_bearer_token"@.len() == 25);
    assert("auth"@.len() == 4);
    assert("model"@.len() == 5);
    assert("model_provider"@.len() == 14);
    assert("base_url"@[0] != "wire_api"@[0]);
    assert("wire_api"@[0] != "base_url"@[0]);
    assert("name"@[0] != "auth"@[0]);
    assert("auth"@[0] != "name"@[0]);
}

/// After the launcher's provider is applied, Codex's configuration is on
/// that provider: it is the active one, the launcher recognises it as its
/// own (by id, and by its fingerprint unless no key is written), it points
/// at the configured base URL, and the model is the one asked for.
pub proof fn law_apply_then_inspect(m: TomlMap, s: PersistentCodexConfig)
    requires
        provider_slot_ok(m, s.provider_id@),
    ensures
        ({
            let f = apply_spec(m, s);
            let id = s.provider_id@;
            &&& root_str_spec(f, "model_provider"@) == Some(id)
            &&& active_is_managed(f, id)
            &&& launcher_base_url_spec(f, id) == Some(s.base_url@)
            &&& (s.model matches Some(x) ==> root_str_spec(f, "model"@) == Some(x@))
            &&& (s.api_key_mode != ApiKeyMode::NoKey ==> has_fingerprint(f, id))
            &&& provider_str_spec(f, id, "name"@) == Some(s.provider_name@)
        }),
{
    let id = s.provider_id@;
    lemma_root_keys_distinct();
    lemma_provider_keys_distinct();
    reveal_strlit("model");
    reveal_strlit("model_provider");
    let mp = root_path(providers_key());
    let pp = provider_path(id);
    let m1 = match s.model {
        Some(x) => with_entry(m, root_path("model"@), TomlEntry::Str(x@)),
        None => m,
    };
    let m2 = with_entry(m1, root_path("model_provider"@), TomlEntry::Str(id));
    lemma_apart_at_first_key(root_path("model"@), root_path("model_provider"@));
    lemma_apart_at_first_key(root_path("model"@), mp);
    lemma_apart_at_first_key(root_path("model"@), pp);
    lemma_apart_at_first_key(root_path("model_provider"@), mp);
    lemma_apart_at_first_key(root_path("model_provider"@), pp);
    assert(root_path("model_provider"@).subrange(0, 1) =~= root_path("model_provider"@));
    assert(root_path("model"@).subrange(0, 1) =~= root_path("model"@));
    assert(provider_slot_ok(m2, id));
    lemma_ensure_provider(m2, id);
    let m3 = ensure_provider_spec(m2, id);
    lemma_apart_at_first_key(mp, root_path("model_provider"@));
    lemma_apart_at_first_key(pp, root_path("model_provider"@));
    lemma_apart_at_first_key(mp, root_path("model"@));
    lemma_apart_at_first_key(pp, root_path("model"@));
    assert(root_str_spec(m3, "model_provider"@) == Some(id));
    let k_name = provider_key_path(id, "name"@);
    let k_url = provider_key_path(id, "base_url"@);
    let k_wire = provider_key_path(id, "wire_api"@);
    let k_auth_req = provider_key_path(id, "requires_openai_auth"@);
    let k_env = provider_key_path(id, "env_key"@);
    let k_bearer = provider_key_path(id, "experimental_bearer_token"@);
    let k_auth = provider_key_path(id, "auth"@);
    lemma_provider_key_paths_apart(id, "name"@, "base_url"@);
    lemma_provider_key_paths_apart(id, "name"@, "wire_api"@);
    lemma_provider_key_paths_apart(id, "name"@, "requires_openai_auth"@);
    lemma_provider_key_paths_apart(id, "base_url"@, "name"@);
    lemma_provider_key_paths_apart(id, "base_url"@, "wire_api"@);
    lemma_provider_key_paths_apart(id, "base_url"@, "requires_openai_auth"@);
    lemma_provider_key_paths_apart(id, "wire_api"@, "name"@);
    lemma_provider_key_paths_apart(id, "wire_api"@, "base_url"@);
    lemma_provider_key_paths_apart(id, "wire_api"@, "requires_openai_auth"@);
    lemma_provider_key_paths_apart(id, "requires_openai_auth"@, "name"@);
    lemma_provider_key_paths_apart(id, "requires_openai_auth"@, "base_url"@);
    lemma_provider_key_paths_apart(id, "requires_openai_auth"@, "wire_api"@);
    lemma_provider_key_paths_apart(id, "env_key"@, "name"@);
    lemma_provider_key_paths_apart(id, "env_key"@, "base_url"@);
    lemma_provider_key_paths_apart(id, "env_key"@, "wire_api"@);
    lemma_provider_key_paths_apart(id, "env_key"@, "requires_openai_auth"@);
    lemma_provider_key_paths_apart(id, "env_key"@, "experimental_bearer_token"@);
    lemma_provider_key_paths_apart(id, "experimental_bearer_token"@, "name"@);
    lemma_provider_key_paths_apart(id, "experimental_bearer_token"@, "base_url"@);
    lemma_provider_key_paths_apart(id, "experimental_bearer_token"@, "wire_api"@);
    lemma_provider_key_paths_apart(id, "experimental_bearer_token"@, "requires_openai_auth"@);
    lemma_provider_key_paths_apart(id, "experimental_bearer_token"@, "env_key"@);
    lemma_provider_key_paths_apart(id, "auth"@, "name"@);
    lemma_provider_key_paths_apart(id, "auth"@, "base_url"@);
    lemma_provider_key_paths_apart(id, "auth"@, "wire_api"@);
    lemma_provider_key_paths_apart(id, "auth"@, "requires_openai_auth"@);
    lemma_provider_key_paths_apart(id, "auth"@, "env_key"@);
    lemma_provider_key_paths_apart(id, "auth"@, "experimental_bearer_token"@);
    assert(k_name.subrange(0, 3) =~= k_name);
    assert(k_url.subrange(0, 3) =~= k_url);
    assert(k_wire.subrange(0, 3) =~= k_wire);
    assert(k_auth_req.subrange(0, 3) =~= k_auth_req);
    assert(k_env.subrange(0, 3) =~= k_env);
    assert(k_bearer.subrange(0, 3) =~= k_bearer);
}

// ---------------------------------------------------------------------------
// Apply, then restore
// ---------------------------------------------------------------------------
proof fn lemma_four_root_keys_distinct()
    ensures
        "profile"@ != "model"@,
        "profile"@ != "model_provider"@,
        "profile"@ != "model_catalog_json"@,
        "model"@ != "model_provider"@,
        "model"@ != "model_catalog_json"@,
        "model_provider"@ != "model_catalog_json"@,
{
    reveal_strlit("profile");
    reveal_strlit("model");
    reveal_strlit("model_provider");
    reveal_strlit("model_catalog_json");
    assert("profile"@.len() != "model"@.len());
    assert("profile"@.len() != "model_provider"@.len());
    assert("profile"@.len() != "model_catalog_json"@.len());
    assert("model"@.len() != "model_provider"@.len());
    assert("model"@.len() != "model_catalog_json"@.len());
    assert("model_provider"@.len() != "model_catalog_json"@.len());
}

/// An edit of another top-level key leaves the string at `k` alone.
proof fn lemma_restore_root_other(m: TomlMap, k2: Seq<char>, had: bool, v: Option<Seq<char>>, k: Seq<char>)
    requires
        k != k2,
    ensures
        root_str_spec(restore_root_spec(m, k2, had, v), k) == root_str_spec(m, k),
{
    lemma_apart_at_first_key(root_path(k2), root_path(k));
    assert(root_path(k) != root_path(k2)) by {
        assert(root_path(k)[0] != root_path(k2)[0]);
    }
    let r = restore_root_spec(m, k2, had, v);
    assert(r.dom().contains(root_path(k)) == m.dom().contains(root_path(k)));
    if m.dom().contains(root_path(k)) {
        assert(r[root_path(k)] == m[root_path(k)]);
    }
}

/// Putting back what a document held at `k` gives back its string there.
proof fn lemma_restore_root_own(m: TomlMap, k: Seq<char>, v: Option<Seq<char>>)
    ensures
        root_str_spec(restore_root_spec(m, k, v is Some, v), k) == v,
{
    assert(root_path(k).subrange(0, 1) =~= root_path(k));
}

/// Reverting to the settings saved from `m0` gives back its top-level
/// strings.
proof fn lemma_revert_gives_back(m: TomlMap, m0: TomlMap)
    ensures
        ({
            let f = revert_spec(m, Some(restore_state_of(m0)));
            &&& root_str_spec(f, "profile"@) == root_str_spec(m0, "profile"@)
            &&& root_str_spec(f, "model"@) == root_str_spec(m0, "model"@)
            &&& root_str_spec(f, "model_provider"@) == root_str_spec(m0, "model_provider"@)
            &&& root_str_spec(f, "model_catalog_json"@) == root_str_spec(m0, "model_catalog_json"@)
        }),
{
    lemma_four_root_keys_distinct();
    let st = restore_state_of(m0);
    let m1 = restore_root_spec(m, "profile"@, st.had_profile, st.profile);
    let m2 = restore_root_spec(m1, "model"@, st.had_model, st.model);
    let m3 = restore_root_spec(m2, "model_provider"@, st.had_model_provider, st.model_provider);
    let m4 = restore_root_spec(m3, "model_catalog_json"@, st.had_model_catalog_json, st.model_catalog_json);
    lemma_restore_root_own(m, "profile"@, st.profile);
    lemma_restore_root_other(m1, "model"@, st.had_model, st.model, "profile"@);
    lemma_restore_root_other(m2, "model_provider"@, st.had_model_provider, st.model_provider, "profile"@);
    lemma_restore_root_other(m3, "model_catalog_json"@, st.had_model_catalog_json, st.model_catalog_json, "profile"@);
    lemma_restore_root_own(m1, "model"@, st.model);
    lemma_restore_root_other(m2, "model_provider"@, st.had_model_provider, st.model_provider, "model"@);
    lemma_restore_root_other(m3, "model_catalog_json"@, st.had_model_catalog_json, st.model_catalog_json, "model"@);
    lemma_restore_root_own(m2, "model_provider"@, st.model_provider);
    lemma_restore_root_other(m3, "model_catalog_json"@, st.had_model_catalog_json, st.model_catalog_json, "model_provider"@);
    lemma_restore_root_own(m3, "model_catalog_json"@, st.model_catalog_json);
}

/// An edit inside another provider's block leaves provider `p` alone.
proof fn lemma_other_block_edit(m: TomlMap, q: Seq<Seq<char>>, e: TomlEntry, p: Seq<char>)
    requires
        q.len() >= 2,
        q[0] == providers_key(),
        q[1] != p,
    ensures
        agree_on_provider(m, with_entry(m, q, e), p),
        agree_on_provider(m, without(m, q), p),
{
    let mp = root_path(providers_key());
    assert(!at_or_below(q, mp));
    assert(!at_or_below(q, provider_path(p))) by {
        if at_or_below(q, provider_path(p)) {
            assert(provider_path(p).subrange(0, q.len() as int)[1] == q[1]);
        }
    }
    assert forall|k: Seq<char>| !at_or_below(q, #[trigger] provider_key_path(p, k)) && q != provider_key_path(p, k) by {
        if at_or_below(q, provider_key_path(p, k)) {
            assert(provider_key_path(p, k).subrange(0, q.len() as int)[1] == q[1]);
        }
        if q == provider_key_path(p, k) {
            assert(q[1] == p);
        }
    }
}

/// Once a document has nothing at `x`, an edit elsewhere adds nothing there.
proof fn lemma_stays_absent(m: TomlMap, q: Seq<Seq<char>>, e: TomlEntry, x: Seq<Seq<char>>)
    requires
        !m.dom().contains(x),
        x != q,
    ensures
        !with_entry(m, q, e).dom().contains(x),
        !without(m, q).dom().contains(x),
{
}

proof fn lemma_agree_provider_trans(a: TomlMap, b: TomlMap, c: TomlMap, p: Seq<char>)
    requires
        agree_on_provider(a, b, p),
        agree_on_provider(b, c, p),
    ensures
        agree_on_provider(a, c, p),
{
    assert forall|k: Seq<char>| #[trigger] a.dom().contains(provider_key_path(p, k)) == c.dom().contains(provider_key_path(p, k)) by {
        assert(a.dom().contains(provider_key_path(p, k)) == b.dom().contains(provider_key_path(p, k)));
    }
    assert forall|k: Seq<char>| #[trigger] a.dom().contains(provider_key_path(p, k)) implies a[provider_key_path(p, k)] == c[provider_key_path(p, k)] by {
        assert(a.dom().contains(provider_key_path(p, k)) == b.dom().contains(provider_key_path(p, k)));
    }
}

/// Applying the launcher's provider leaves every other provider that the
/// launcher does not recognise unrecognised.
proof fn lemma_apply_keeps_other_fingerprint(m: TomlMap, s: PersistentCodexConfig, p: Seq<char>)
    requires
        provider_slot_ok(m, s.provider_id@),
        p != s.provider_id@,
        !has_fingerprint(m, p),
    ensures
        !has_fingerprint(apply_spec(m, s), p),
{
    let id = s.provider_id@;
    lemma_root_keys_distinct();
    lemma_provider_keys_distinct();
    let mp = root_path(providers_key());
    let pp = provider_path(id);
    let m1 = match s.model {
        Some(x) => with_entry(m, root_path("model"@), TomlEntry::Str(x@)),
        None => m,
    };
    let m2 = with_entry(m1, root_path("model_provider"@), TomlEntry::Str(id));
    let n1 = if m2.dom().contains(mp) {
        m2
    } else {
        with_entry(m2, mp, TomlEntry::Table)
    };
    let m3 = ensure_provider_spec(m2, id);
    let m4 = with_entry(m3, provider_key_path(id, "name"@), TomlEntry::Str(s.provider_name@));
    let m5 = with_entry(m4, provider_key_path(id, "base_url"@), TomlEntry::Str(s.base_url@));
    let m6 = with_entry(m5, provider_key_path(id, "wire_api"@), TomlEntry::Str("responses"@));
    let m7 = with_entry(m6, provider_key_path(id, "requires_openai_auth"@), TomlEntry::Bool(false));
    let m8a = without(m7, provider_key_path(id, "env_key"@));
    let m8b = without(m8a, provider_key_path(id, "experimental_bearer_token"@));
    let m8 = without(m8b, provider_key_path(id, "auth"@));
    let f = apply_spec(m, s);
    assert(provider_key_path(id, "name"@)[1] == id);
    assert(provider_key_path(id, "base_url"@)[1] == id);
    assert(provider_key_path(id, "wire_api"@)[1] == id);
    assert(provider_key_path(id, "requires_openai_auth"@)[1] == id);
    assert(provider_key_path(id, "env_key"@)[1] == id);
    assert(provider_key_path(id, "experimental_bearer_token"@)[1] == id);
    assert(provider_key_path(id, "auth"@)[1] == id);
    assert(pp[1] == id);
    if is_table_at(m, mp) {
        // Every step keeps what `p` holds.
        match s.model {
            Some(x) => lemma_root_edit_keeps_providers(m, "model"@, TomlEntry::Str(x@)),
            None => {},
        }
        lemma_root_edit_keeps_providers(m1, "model_provider"@, TomlEntry::Str(id));
        lemma_agree_trans(m, m1, m2);
        lemma_agree_all_gives_each(m, m2, p);
        assert(mp[0] == providers_key());
        assert(m2.dom().contains(mp));
        assert(n1 == m2);
        if !m2.dom().contains(pp) {
            lemma_other_block_edit(m2, pp, TomlEntry::Table, p);
        }
        lemma_agree_provider_trans(m, m2, m3, p);
        lemma_other_block_edit(m3, provider_key_path(id, "name"@), TomlEntry::Str(s.provider_name@), p);
        lemma_agree_provider_trans(m, m3, m4, p);
        lemma_other_block_edit(m4, provider_key_path(id, "base_url"@), TomlEntry::Str(s.base_url@), p);
        lemma_agree_provider_trans(m, m4, m5, p);
        lemma_other_block_edit(m5, provider_key_path(id, "wire_api"@), TomlEntry::Str("responses"@), p);
        lemma_agree_provider_trans(m, m5, m6, p);
        lemma_other_block_edit(m6, provider_key_path(id, "requires_openai_auth"@), TomlEntry::Bool(false), p);
        lemma_agree_provider_trans(m, m6, m7, p);
        lemma_other_block_edit(m7, provider_key_path(id, "env_key"@), TomlEntry::Other, p);
        lemma_agree_provider_trans(m, m7, m8a, p);
        lemma_other_block_edit(m8a, provider_key_path(id, "experimental_bearer_token"@), TomlEntry::Other, p);
        lemma_agree_provider_trans(m, m8a, m8b, p);
        lemma_other_block_edit(m8b, provider_key_path(id, "auth"@), TomlEntry::Other, p);
        lemma_agree_provider_trans(m, m8b, m8, p);
        lemma_other_block_edit(m8, provider_key_path(id, "env_key"@), TomlEntry::Str(env_key_name()), p);
        lemma_other_block_edit(m8, provider_key_path(id, "experimental_bearer_token"@), TomlEntry::Str(s.api_key@), p);
        match s.api_key_mode {
            ApiKeyMode::EnvKey => lemma_agree_provider_trans(m, m8, f, p),
            ApiKeyMode::ExperimentalBearerToken => lemma_agree_provider_trans(m, m8, f, p),
            ApiKeyMode::NoKey => {},
        }
        lemma_agree_on_provider_facts(m, f, p, id);
    } else {
        // There was no `model_providers` table: it is created empty, so `p`
        // has no block afterwards.
        let x = provider_path(p);
        assert(!m.dom().contains(mp));
        lemma_apart_at_first_key(root_path("model"@), mp);
        lemma_apart_at_first_key(root_path("model_provider"@), mp);
        assert(mp != root_path("model_provider"@)) by {
            assert(mp[0] != root_path("model_provider"@)[0]);
        }
        assert(mp != root_path("model"@)) by {
            assert(mp[0] != root_path("model"@)[0]);
        }
        match s.model {
            Some(v) => lemma_stays_absent(m, root_path("model"@), TomlEntry::Str(v@), mp),
            None => {},
        }
        lemma_stays_absent(m1, root_path("model_provider"@), TomlEntry::Str(id), mp);
        assert(!m2.dom().contains(mp));
        lemma_below_provider(p, x);
        assert(at_or_below(mp, x));
        assert(!n1.dom().contains(x));
        assert(x != pp) by {
            assert(x[1] == p);
        }
        if !n1.dom().contains(pp) {
            lemma_stays_absent(n1, pp, TomlEntry::Table, x);
        }
        assert(!m3.dom().contains(x));
        lemma_stays_absent(m3, provider_key_path(id, "name"@), TomlEntry::Str(s.provider_name@), x);
        lemma_stays_absent(m4, provider_key_path(id, "base_url"@), TomlEntry::Str(s.base_url@), x);
        lemma_stays_absent(m5, provider_key_path(id, "wire_api"@), TomlEntry::Str("responses"@), x);
        lemma_stays_absent(m6, provider_key_path(id, "requires_openai_auth"@), TomlEntry::Bool(false), x);
        lemma_stays_absent(m7, provider_key_path(id, "env_key"@), TomlEntry::Other, x);
        lemma_stays_absent(m8a, provider_key_path(id, "experimental_bearer_token"@), TomlEntry::Other, x);
        lemma_stays_absent(m8b, provider_key_path(id, "auth"@), TomlEntry::Other, x);
        lemma_stays_absent(m8, provider_key_path(id, "env_key"@), TomlEntry::Str(env_key_name()), x);
        lemma_stays_absent(m8, provider_key_path(id, "experimental_bearer_token"@), TomlEntry::Str(s.api_key@), x);
        assert(!f.dom().contains(x));
        assert(!provider_table(f, p));
    }
}

/// Applying the launcher's provider and then restoring with the settings
/// that the apply saved gives back Codex's top-level settings (`profile`,
/// `model`, `model_provider`, `model_catalog_json`) as they were, when Codex
/// was not on a launcher provider before.
pub proof fn law_apply_then_restore_gives_back_settings(m: TomlMap, s: PersistentCodexConfig)
    requires
        provider_slot_ok(m, s.provider_id@),
        !active_is_managed(m, s.provider_id@),
    ensures
        ({
            let id = s.provider_id@;
            let f = restore_spec(apply_spec(m, s), id, state_to_save_spec(m, id, false));
            &&& root_str_spec(f, "profile"@) == root_str_spec(m, "profile"@)
            &&& root_str_spec(f, "model"@) == root_str_spec(m, "model"@)
            &&& root_str_spec(f, "model_provider"@) == root_str_spec(m, "model_provider"@)
            &&& root_str_spec(f, "model_catalog_json"@) == root_str_spec(m, "model_catalog_json"@)
        }),
{
    let id = s.provider_id@;
    let st = restore_state_of(m);
    assert(state_to_save_spec(m, id, false) == Some(st));
    let a = apply_spec(m, s);
    law_apply_then_inspect(m, s);
    assert(active_is_managed(a, id));
    let set = launcher_ids(a, id).insert(id);
    let m1 = remove_providers(a, set);
    let m2 = revert_spec(m1, Some(st));
    lemma_revert_gives_back(m1, m);
    match root_str_spec(m, "model_provider"@) {
        Some(p) => {
            assert(!is_managed(m, p, id));
            lemma_apply_keeps_other_fingerprint(m, s, p);
            assert(!is_managed(a, p, id));
            assert(!launcher_ids(a, id).contains(p));
            assert(!set.contains(p));
            lemma_remove_providers_keeps_others(a, set, p);
            if provider_ids_spec(m1).contains(p) {
                lemma_agree_on_provider_facts(a, m1, p, id);
            } else {
                assert(!provider_table(m1, p));
            }
            assert(!has_fingerprint(m1, p));
            lemma_revert_keeps_providers(m1, Some(st));
            lemma_agree_all_gives_each(m1, m2, p);
            lemma_agree_on_provider_facts(m1, m2, p, id);
            assert(!is_managed(m2, p, id));
            assert(!active_is_managed(m2, id));
        },
        None => {
            assert(!active_is_managed(m2, id));
        },
    }
}

} // verus!

//! Choosing the profile to fail over to, and recognising rate-limit replies.
use vstd::prelude::*;

use crate::lpad_app_server::{
    is_rate_limit_reached, rate_limit_reached_type, reached_type_spec, CodexRateLimitsStatus,
};

use crate::config::{
    api_key_spec, default_rate_limit_patterns_spec, empty_model, merged, non_empty_spec,
    opt_view, provider_id_spec, strings_view, ApiKeyMode, ConfigModel, FailoverModel,
    FailoverSettings, LauncherConfig, ProfileOverlay,
};
use crate::acp_client::SessionInfo;
use crate::session_checkpoint::{
    detect_goal_from_text, first_goal, resume_prompt_spec, split_lines, ProviderModeKind,
    SessionCheckpoint,
};
use crate::text::{
    append_str, chars_eq, chars_of, decimal, first_match_ignoring_case, first_pattern_match,
    push_decimal, str_to_string, string_of, trim, trim_str,
};

verus! {

/// The source of alerts that the app-server's rate-limit reading raised.
pub const APP_SERVER_RATE_LIMIT_SOURCE: &'static str = "app_server_rate_limits";

/// The failover settings of `config`, or the defaults when it has none.
pub fn failover_settings(config: &LauncherConfig) -> (s: FailoverSettings)
    ensures
        match config.failover {
            Some(f) => s@ == f@,
            None => s@ == (FailoverModel {
                enabled: false,
                auto_switch: false,
                monitor_interval_secs: 30,
                rate_limit_patterns: default_rate_limit_patterns_spec(),
                fallback_chain: Seq::empty(),
            }),
        },
{
    match &config.failover {
        Some(f) => f.duplicate(),
        None => FailoverSettings::default(),
    }
}

pub open spec fn profiles_view(v: Seq<(String, ProfileOverlay)>) -> Seq<(Seq<char>, ConfigModel)> {
    v.map_values(|p: (String, ProfileOverlay)| (p.0@, p.1@))
}

pub open spec fn config_profiles(config: LauncherConfig) -> Seq<(Seq<char>, ConfigModel)> {
    match config.profiles {
        Some(v) => profiles_view(v@),
        None => Seq::empty(),
    }
}

fn clone_overlay(o: &ProfileOverlay) -> (r: ProfileOverlay)
    ensures
        r@ == o@,
{
    ProfileOverlay {
        openai_base_url: clone_opt(&o.openai_base_url),
        ollama_ip: clone_opt(&o.ollama_ip),
        ollama_port: o.ollama_port,
        ollama_scheme: clone_opt(&o.ollama_scheme),
        api_key: clone_opt(&o.api_key),
        codex_model: clone_opt(&o.codex_model),
        codex_provider_id: clone_opt(&o.codex_provider_id),
        codex_provider_name: clone_opt(&o.codex_provider_name),
        codex_api_key_mode: o.codex_api_key_mode,
        working_directory: clone_opt(&o.working_directory),
    }
}

fn clone_opt(o: &Option<String>) -> (r: Option<String>)
    ensures
        opt_view(r) == opt_view(*o),
{
    match o {
        Some(s) => Some(s.clone()),
        None => None,
    }
}

/// The named profiles of `config`, in file order; none when it has none.
pub fn profile_overlays(config: &LauncherConfig) -> (r: Vec<(String, ProfileOverlay)>)
    ensures
        profiles_view(r@) == config_profiles(*config),
{
    let mut r: Vec<(String, ProfileOverlay)> = Vec::new();
    match &config.profiles {
        Some(v) => {
            let mut i: usize = 0;
            while i < v.len()
                invariant
                    i <= v.len(),
                    profiles_view(r@) == profiles_view(v@.subrange(0, i as int)),
                decreases v.len() - i,
            {
                let name = v[i].0.clone();
                let o = clone_overlay(&v[i].1);
                let ghost before = r@;
                let ghost item = (name@, o@);
                assert(item == (v@[i as int].0@, v@[i as int].1@));
                r.push((name, o));
                i += 1;
                assert(v@.subrange(0, i as int) =~= v@.subrange(0, i - 1).push(v@[i - 1]));
                assert(profiles_view(r@) =~= profiles_view(before).push(item));
                assert(profiles_view(v@.subrange(0, i as int)) =~= profiles_view(
                    v@.subrange(0, i - 1),
                ).push(item));
            }
            assert(v@.subrange(0, v.len() as int) =~= v@);
        },
        None => {
            assert(profiles_view(r@) =~= Seq::<(Seq<char>, ConfigModel)>::empty());
        },
    }
    r
}

/// The pattern of `patterns` that a rate-limit reply `text` matches: the
/// first one that occurs in it, compared without regard to case.
pub fn matches_rate_limit(text: &str, patterns: &Vec<String>) -> (r: Option<String>)
    ensures
        first_pattern_match(text@, strings_view(patterns@), opt_view(r)),
{
    first_match_ignoring_case(text, patterns)
}

/// The profile that stands for the launcher's own provider settings.
pub open spec fn local_overlay_spec(c: ConfigModel) -> ConfigModel {
    ConfigModel {
        openai_base_url: c.openai_base_url,
        ollama_ip: c.ollama_ip,
        ollama_port: c.ollama_port,
        ollama_scheme: c.ollama_scheme,
        api_key: c.api_key,
        codex_model: c.codex_model,
        codex_provider_id: Some(provider_id_spec(c)),
        codex_provider_name: Some(
            match non_empty_spec(c.codex_provider_name) {
                Some(s) => s,
                None => "Codex Launchpad"@,
            },
        ),
        codex_api_key_mode: Some(
            match c.codex_api_key_mode {
                Some(m) => m,
                None => ApiKeyMode::ExperimentalBearerToken,
            },
        ),
        working_directory: c.working_directory,
        ..empty_model()
    }
}

/// A profile made of the launcher's own provider settings.
pub fn local_overlay_from_config(config: &LauncherConfig) -> (o: ProfileOverlay)
    ensures
        o@ == local_overlay_spec(config@),
{
    ProfileOverlay {
        openai_base_url: clone_opt(&config.openai_base_url),
        ollama_ip: clone_opt(&config.ollama_ip),
        ollama_port: config.ollama_port,
        ollama_scheme: clone_opt(&config.ollama_scheme),
        api_key: clone_opt(&config.api_key),
        codex_model: clone_opt(&config.codex_model),
        codex_provider_id: Some(config.codex_provider_id()),
        codex_provider_name: Some(config.codex_provider_name()),
        codex_api_key_mode: Some(config.codex_api_key_mode()),
        working_directory: clone_opt(&config.working_directory),
    }
}

/// Why no profile to fail over to was found.
#[derive(Clone, Debug)]
pub enum FailoverError {
    /// The profile that was asked for by name does not exist.
    ProfileNotFound(String),
    /// No profile was named, the fallback chain names none that exists, and
    /// the launcher has no endpoint of its own.
    NoLocalEndpoint,
}

/// The index of the first profile called `name`.
pub open spec fn profile_index(ps: Seq<(Seq<char>, ConfigModel)>, name: Seq<char>) -> Option<int> {
    if exists|i: int| 0 <= i < ps.len() && #[trigger] ps[i].0 == name {
        Some(
            choose|i: int|
                0 <= i < ps.len() && ps[i].0 == name && forall|j: int|
                    0 <= j < i ==> #[trigger] ps[j].0 != name,
        )
    } else {
        None
    }
}

proof fn lemma_profile_index(ps: Seq<(Seq<char>, ConfigModel)>, name: Seq<char>, i: int)
    requires
        0 <= i < ps.len(),
        ps[i].0 == name,
        forall|j: int| 0 <= j < i ==> #[trigger] ps[j].0 != name,
    ensures
        profile_index(ps, name) == Some(i),
{
    let k = choose|k: int|
        0 <= k < ps.len() && ps[k].0 == name && forall|j: int|
            0 <= j < k ==> #[trigger] ps[j].0 != name;
    assert(0 <= k < ps.len() && ps[k].0 == name);
    if k < i {
        assert(ps[k].0 != name);
    }
    if i < k {
        assert(ps[i].0 != name);
    }
}

/// Looks up the first profile called `name`.
fn find_profile(ps: &Vec<(String, ProfileOverlay)>, name: &str) -> (r: Option<ProfileOverlay>)
    ensures
        match profile_index(profiles_view(ps@), name@) {
            Some(i) => r matches Some(o) && o@ == profiles_view(ps@)[i].1,
            None => r is None,
        },
{
    let n = chars_of(name);
    let mut i: usize = 0;
    while i < ps.len()
        invariant
            i <= ps.len(),
            n@ == name@,
            forall|j: int| 0 <= j < i ==> #[trigger] profiles_view(ps@)[j].0 != name@,
        decreases ps.len() - i,
    {
        let k = chars_of(ps[i].0.as_str());
        if chars_eq(&k, &n) {
            proof {
                lemma_profile_index(profiles_view(ps@), name@, i as int);
            }
            return Some(clone_overlay(&ps[i].1));
        }
        i += 1;
    }
    assert(forall|j: int|
        0 <= j < profiles_view(ps@).len() ==> #[trigger] profiles_view(ps@)[j].0 != name@);
    None
}

pub open spec fn has_local_endpoint(c: ConfigModel) -> bool {
    (c.ollama_ip matches Some(ip) && trim(ip).len() > 0) || (c.openai_base_url matches Some(
        u,
    ) && trim(u).len() > 0)
}

/// The profile to fail over to: the one named, else the first of the
/// fallback chain when it exists, else the launcher's own endpoint
/// (`launcher-local`) when one is configured.  An error is `Some(name)` for
/// a named profile that does not exist and `None` when there is no endpoint
/// at all.
pub open spec fn resolve_fallback_spec(
    c: LauncherConfig,
    chain: Seq<Seq<char>>,
    name: Option<Seq<char>>,
) -> Result<(Seq<char>, ConfigModel), Option<Seq<char>>> {
    let ps = config_profiles(c);
    match name {
        Some(n) => match profile_index(ps, n) {
            Some(i) => Ok((n, ps[i].1)),
            None => Err(Some(n)),
        },
        None => if chain.len() > 0 && profile_index(ps, chain[0]) is Some {
            Ok((chain[0], ps[profile_index(ps, chain[0])->0].1))
        } else if has_local_endpoint(c@) {
            Ok(("launcher-local"@, local_overlay_spec(c@)))
        } else {
            Err(None)
        },
    }
}

pub open spec fn failover_view(o: Option<FailoverSettings>) -> Option<FailoverModel> {
    match o {
        Some(f) => Some(f@),
        None => None,
    }
}

pub open spec fn config_chain(c: LauncherConfig) -> Seq<Seq<char>> {
    match c.failover {
        Some(f) => f@.fallback_chain,
        None => Seq::empty(),
    }
}

/// With no profile named, the fallback chain is tried from its head: when
/// its first entry names a profile, that profile is chosen, with the overlay
/// of the first profile of that name.
pub proof fn law_fallback_chain_head_first(c: LauncherConfig, i: int)
    requires
        config_chain(c).len() > 0,
        0 <= i < config_profiles(c).len(),
        config_profiles(c)[i].0 == config_chain(c)[0],
        forall|j: int| 0 <= j < i ==> #[trigger] config_profiles(c)[j].0 != config_chain(c)[0],
    ensures
        resolve_fallback_spec(c, config_chain(c), None) == Ok::<(Seq<char>, ConfigModel), Option<Seq<char>>>(
            (config_chain(c)[0], config_profiles(c)[i].1),
        ),
{
    lemma_profile_index(config_profiles(c), config_chain(c)[0], i);
}

/// A named profile is chosen when one of that name exists (the first of
/// them), whatever the chain says; a name that no profile has is refused
/// with that name.
pub proof fn law_named_profile_wins(c: LauncherConfig, n: Seq<char>)
    ensures
        forall|i: int|
            0 <= i < config_profiles(c).len() && #[trigger] config_profiles(c)[i].0 == n && (forall|j: int|
                0 <= j < i ==> config_profiles(c)[j].0 != n) ==> resolve_fallback_spec(
                c,
                config_chain(c),
                Some(n),
            ) == Ok::<(Seq<char>, ConfigModel), Option<Seq<char>>>((n, config_profiles(c)[i].1)),
        (forall|i: int| 0 <= i < config_profiles(c).len() ==> #[trigger] config_profiles(c)[i].0 != n)
            ==> resolve_fallback_spec(c, config_chain(c), Some(n)) == Err::<
            (Seq<char>, ConfigModel),
            Option<Seq<char>>,
        >(Some(n)),
{
    assert forall|i: int|
        0 <= i < config_profiles(c).len() && #[trigger] config_profiles(c)[i].0 == n && (forall|j: int|
            0 <= j < i ==> config_profiles(c)[j].0 != n) implies resolve_fallback_spec(
        c,
        config_chain(c),
        Some(n),
    ) == Ok::<(Seq<char>, ConfigModel), Option<Seq<char>>>((n, config_profiles(c)[i].1)) by {
        lemma_profile_index(config_profiles(c), n, i);
    }
}

/// Picks the profile to fail over to; see `resolve_fallback_spec`.
pub fn resolve_fallback_profile(config: &LauncherConfig, profile_name: Option<&str>) -> (r: Result<
    (String, ProfileOverlay),
    FailoverError,
>)
    ensures
        ({
            let spec = resolve_fallback_spec(
                *config,
                config_chain(*config),
                match profile_name {
                    Some(p) => Some(p@),
                    None => None,
                },
            );
            match r {
                Ok((n, o)) => spec == Ok::<(Seq<char>, ConfigModel), Option<Seq<char>>>((n@, o@)),
                Err(FailoverError::ProfileNotFound(n)) => spec == Err::<
                    (Seq<char>, ConfigModel),
                    Option<Seq<char>>,
                >(Some(n@)),
                Err(FailoverError::NoLocalEndpoint) => spec == Err::<
                    (Seq<char>, ConfigModel),
                    Option<Seq<char>>,
                >(None),
            }
        }),
{
    let settings = failover_settings(config);
    let profiles = profile_overlays(config);
    if let Some(explicit) = profile_name {
        if let Some(overlay) = find_profile(&profiles, explicit) {
            return Ok((str_to_string(explicit), overlay));
        }
        return Err(FailoverError::ProfileNotFound(str_to_string(explicit)));
    }
    if settings.fallback_chain.len() > 0 {
        let name = &settings.fallback_chain[0];
        if let Some(overlay) = find_profile(&profiles, name.as_str()) {
            return Ok((name.clone(), overlay));
        }
    }
    let ip_set = match &config.ollama_ip {
        Some(v) => trim_str(v.as_str()).len() > 0,
        None => false,
    };
    let url_set = match &config.openai_base_url {
        Some(v) => trim_str(v.as_str()).len() > 0,
        None => false,
    };
    if ip_set || url_set {
        return Ok((str_to_string("launcher-local"), local_overlay_from_config(config)));
    }
    Err(FailoverError::NoLocalEndpoint)
}

/// `base` with the fields that `overlay` sets replaced.
pub fn apply_profile_overlay(base: &LauncherConfig, overlay: &ProfileOverlay) -> (r:
    LauncherConfig)
    ensures
        r@ == merged(base@, overlay@),
        failover_view(r.failover) == failover_view(base.failover),
        config_profiles(r) == config_profiles(*base),
{
    let mut next = LauncherConfig {
        auto_start: base.auto_start,
        openai_base_url: clone_opt(&base.openai_base_url),
        ollama_ip: clone_opt(&base.ollama_ip),
        ollama_port: base.ollama_port,
        ollama_scheme: clone_opt(&base.ollama_scheme),
        api_key: clone_opt(&base.api_key),
        persist_codex_config: base.persist_codex_config,
        codex_model: clone_opt(&base.codex_model),
        codex_provider_id: clone_opt(&base.codex_provider_id),
        codex_provider_name: clone_opt(&base.codex_provider_name),
        codex_api_key_mode: base.codex_api_key_mode,
        codex_config_path: clone_opt(&base.codex_config_path),
        codex_command: clone_opt(&base.codex_command),
        codex_api_port: base.codex_api_port,
        codex_api_scheme: clone_opt(&base.codex_api_scheme),
        discover_ollama_models: base.discover_ollama_models,
        codex_args: match &base.codex_args {
            Some(v) => Some(crate::config::clone_strings(v)),
            None => None,
        },
        working_directory: clone_opt(&base.working_directory),
        failover: match &base.failover {
            Some(f) => Some(f.duplicate()),
            None => None,
        },
        profiles: match &base.profiles {
            Some(_) => Some(profile_overlays(base)),
            None => None,
        },
    };
    overlay.apply_to(&mut next);
    next
}

/// The reason that the app-server gives for a reached limit.
pub fn rate_limit_reached_from_status(status: &CodexRateLimitsStatus) -> (r: Option<String>)
    ensures
        match r {
            Some(s) => reached_type_spec(*status) == Some(s@),
            None => reached_type_spec(*status) is None,
        },
{
    rate_limit_reached_type(status)
}

/// Whether to fail over for what the app-server reported: it answered, and
/// says that a limit was reached. Usage alone, even at its limit, is no
/// reason.
pub fn should_failover_for_rate_limits(status: &CodexRateLimitsStatus) -> (r: bool)
    ensures
        r == (status.ok && reached_type_spec(*status) is Some),
{
    status.ok && is_rate_limit_reached(status)
}

// ---------------------------------------------------------------------------
// Checkpoints and the result of a failover
// ---------------------------------------------------------------------------
/// What was observed of the running Codex when a checkpoint is taken.
pub struct CheckpointObservation {
    /// When, in milliseconds since the Unix epoch.
    pub millis: i64,
    /// When, in RFC 3339.
    pub captured_at: String,
    pub session_id: Option<String>,
    /// The latest response of that session, where it could be read.
    pub last_assistant_summary: Option<String>,
    pub working_directory: Option<String>,
    pub git_branch: Option<String>,
    pub provider_mode: ProviderModeKind,
    pub model: Option<String>,
}

/// The session a checkpoint is taken of: the last one listed.
pub fn checkpoint_session(sessions: &Vec<SessionInfo>) -> (r: Option<usize>)
    ensures
        match r {
            Some(i) => sessions@.len() > 0 && i == sessions@.len() - 1,
            None => sessions@.len() == 0,
        },
{
    if sessions.len() > 0 {
        Some(sessions.len() - 1)
    } else {
        None
    }
}

/// The text in which a goal is looked for: the last user message (none is
/// captured) and the last assistant state, one per line.
pub open spec fn goal_search_text(assistant: Option<Seq<char>>) -> Seq<char> {
    "\n"@ + match assistant {
        Some(a) => a,
        None => Seq::empty(),
    }
}

/// The checkpoint taken of what was observed, for the reason `trigger`: its
/// id is `chk_` and the time in milliseconds; its goal is the first goal
/// line of the captured messages; its resume prompt is built from it.
pub fn checkpoint_from_observation(o: CheckpointObservation, trigger: &str) -> (c: SessionCheckpoint)
    ensures
        c.id@ == "chk_"@ + (if o.millis < 0 {
            "-"@ + decimal((-o.millis) as nat)
        } else {
            decimal(o.millis as nat)
        }),
        c.captured_at@ == o.captured_at@,
        c.thread_id is None,
        c.session_id == o.session_id,
        c.working_directory == o.working_directory,
        c.provider_mode == o.provider_mode,
        c.model == o.model,
        opt_view(c.active_goal) == first_goal(split_lines(goal_search_text(opt_view(o.last_assistant_summary)))),
        c.last_user_message is None,
        c.last_assistant_summary == o.last_assistant_summary,
        c.git_branch == o.git_branch,
        c.trigger@ == trigger@,
        c.resume_prompt@ == resume_prompt_spec(c),
{
    let mut id: Vec<char> = Vec::new();
    append_str(&mut id, "chk_");
    if o.millis < 0 {
        append_str(&mut id, "-");
        if o.millis == i64::MIN {
            push_decimal(&mut id, 9223372036854775808u64);
        } else {
            push_decimal(&mut id, (-o.millis) as u64);
        }
    } else {
        push_decimal(&mut id, o.millis as u64);
    }
    let mut text: Vec<char> = Vec::new();
    append_str(&mut text, "\n");
    match &o.last_assistant_summary {
        Some(a) => append_str(&mut text, a.as_str()),
        None => {},
    }
    assert(text@ =~= goal_search_text(opt_view(o.last_assistant_summary)));
    let active_goal = detect_goal_from_text(string_of(&text).as_str());
    let mut c = SessionCheckpoint {
        id: string_of(&id),
        captured_at: o.captured_at,
        thread_id: None,
        session_id: o.session_id,
        working_directory: o.working_directory,
        provider_mode: o.provider_mode,
        model: o.model,
        active_goal,
        last_user_message: None,
        last_assistant_summary: o.last_assistant_summary,
        git_branch: o.git_branch,
        trigger: str_to_string(trigger),
        resume_prompt: string_of(&Vec::new()),
    };
    c.resume_prompt = c.build_resume_prompt();
    c
}

/// The message of a completed failover.
pub fn failover_message(profile_name: &str, launch_message: &str) -> (r: String)
    ensures
        r@ == "Failover complete via profile '"@ + profile_name@ + "'. "@ + launch_message@
            + " Paste the resume prompt into Codex to continue."@,
{
    let mut v: Vec<char> = Vec::new();
    append_str(&mut v, "Failover complete via profile '");
    append_str(&mut v, profile_name);
    append_str(&mut v, "'. ");
    append_str(&mut v, launch_message);
    append_str(&mut v, " Paste the resume prompt into Codex to continue.");
    string_of(&v)
}

pub open spec fn failover_error_text(e: FailoverError) -> Seq<char> {
    match e {
        FailoverError::ProfileNotFound(n) => "Failover profile '"@ + n@ + "' was not found"@,
        FailoverError::NoLocalEndpoint => "No local endpoint is configured in this launcher's settings yet."@,
    }
}

impl FailoverError {
    /// The text that the error is shown with.
    pub fn message(&self) -> (r: String)
        ensures
            r@ == failover_error_text(*self),
    {
        let mut v: Vec<char> = Vec::new();
        match self {
            FailoverError::ProfileNotFound(n) => {
                append_str(&mut v, "Failover profile '");
                append_str(&mut v, n.as_str());
                append_str(&mut v, "' was not found");
            },
            FailoverError::NoLocalEndpoint => {
                append_str(&mut v, "No local endpoint is configured in this launcher's settings yet.");
            },
        }
        proof {
            assert(v@ =~= failover_error_text(*self));
        }
        string_of(&v)
    }
}

/// What a completed failover reports.
pub struct FailoverResult {
    pub message: String,
    pub profile_name: String,
    pub checkpoint: Option<SessionCheckpoint>,
    pub resume_prompt: Option<String>,
}

/// The report of a failover to `profile_name` that launched Codex with
/// `launch_message`, with the checkpoint taken before, if any, and its
/// resume prompt.
pub fn failover_result(profile_name: String, launch_message: &str, checkpoint: Option<SessionCheckpoint>) -> (r:
    FailoverResult)
    ensures
        r.message@ == "Failover complete via profile '"@ + profile_name@ + "'. "@ + launch_message@
            + " Paste the resume prompt into Codex to continue."@,
        r.profile_name == profile_name,
        r.checkpoint == checkpoint,
        r.resume_prompt == (match checkpoint {
            Some(c) => Some(c.resume_prompt),
            None => None,
        }),
{
    let message = failover_message(profile_name.as_str(), launch_message);
    let resume_prompt = match &checkpoint {
        Some(c) => Some(c.resume_prompt.clone()),
        None => None,
    };
    FailoverResult { message, profile_name, checkpoint, resume_prompt }
}

} // verus!

//! What Codex's app-server says about the account's rate limits and
//! threads, and what the launcher makes of it: the merge of the two places
//! where the limits come, whether a limit was reached, and the one-line
//! summary of the usage windows. Talking to the app-server (a child process
//! that speaks JSON-RPC) and decoding its JSON is the program's work.
use vstd::prelude::*;

use crate::text::{append_str, string_of, trim, trim_str};

verus! {

/// One usage window of a rate limit.
#[derive(Debug)]
pub struct RateLimitWindow {
    /// The share of the window used, as the app-server's percentage rounded
    /// to a whole number and written in decimal.
    pub used_percent: Option<String>,
    pub window_duration_mins: Option<u32>,
    pub resets_at: Option<i64>,
}

#[derive(Debug)]
pub struct RateLimitCredits {
    pub has_credits: Option<bool>,
    pub unlimited: Option<bool>,
    pub balance: Option<String>,
}

#[derive(Debug)]
pub struct SpendControlLimitSnapshot {
    pub limit: Option<String>,
    pub used: Option<String>,
    /// The share that remains, as the app-server wrote it.
    pub remaining_percent: Option<String>,
    pub resets_at: Option<i64>,
}

#[derive(Debug)]
pub struct CodexRateLimits {
    pub limit_id: Option<String>,
    pub limit_name: Option<String>,
    pub primary: Option<RateLimitWindow>,
    pub secondary: Option<RateLimitWindow>,
    pub credits: Option<RateLimitCredits>,
    pub individual_limit: Option<SpendControlLimitSnapshot>,
    pub spend_control_reached: Option<bool>,
    pub plan_type: Option<String>,
    pub rate_limit_reached_type: Option<String>,
}

#[derive(Debug)]
pub struct RateLimitResetCredits {
    pub available_count: Option<u32>,
}

#[derive(Debug)]
pub struct CodexThreadSummary {
    pub id: String,
    pub name: Option<String>,
    pub status: Option<String>,
    pub path: Option<String>,
    pub created_at: Option<String>,
    pub model: Option<String>,
}

#[derive(Debug)]
pub struct CodexThreadListStatus {
    pub ok: bool,
    pub fetched_at: String,
    pub source: String,
    pub codex_cli: Option<String>,
    pub error: Option<String>,
    pub threads: Vec<CodexThreadSummary>,
}

#[derive(Debug)]
pub struct CodexRateLimitsStatus {
    pub ok: bool,
    pub fetched_at: String,
    pub source: String,
    pub codex_cli: Option<String>,
    pub error: Option<String>,
    pub requires_auth: Option<bool>,
    pub plan_type: Option<String>,
    pub rate_limits: Option<CodexRateLimits>,
    pub rate_limit_reset_credits: Option<RateLimitResetCredits>,
}

/// Why the app-server could not be asked.
#[derive(Debug)]
pub enum AppServerError {
    Spawn(String),
    CliNotFound,
    Timeout,
    Rpc(String),
    Parse(String),
}

pub open spec fn app_server_error_text(e: AppServerError) -> Seq<char> {
    match e {
        AppServerError::Spawn(m) => "could not start codex app-server: "@ + m@,
        AppServerError::CliNotFound =>
            "codex CLI not found on PATH; install Codex CLI or set codexCommand"@,
        AppServerError::Timeout => "app-server request timed out"@,
        AppServerError::Rpc(m) => "app-server returned an error: "@ + m@,
        AppServerError::Parse(m) => "could not parse app-server response: "@ + m@,
    }
}

impl AppServerError {
    /// The text that the error is shown with.
    pub fn message(&self) -> (r: String)
        ensures
            r@ == app_server_error_text(*self),
    {
        let mut v: Vec<char> = Vec::new();
        match self {
            AppServerError::Spawn(m) => {
                append_str(&mut v, "could not start codex app-server: ");
                append_str(&mut v, m.as_str());
            },
            AppServerError::CliNotFound => {
                append_str(&mut v, "codex CLI not found on PATH; install Codex CLI or set codexCommand");
            },
            AppServerError::Timeout => {
                append_str(&mut v, "app-server request timed out");
            },
            AppServerError::Rpc(m) => {
                append_str(&mut v, "app-server returned an error: ");
                append_str(&mut v, m.as_str());
            },
            AppServerError::Parse(m) => {
                append_str(&mut v, "could not parse app-server response: ");
                append_str(&mut v, m.as_str());
            },
        }
        proof {
            assert(v@ =~= app_server_error_text(*self));
        }
        string_of(&v)
    }
}

pub open spec fn first_some<T>(a: Option<T>, b: Option<T>) -> Option<T> {
    if a is Some {
        a
    } else {
        b
    }
}

fn or_string(a: Option<String>, b: Option<String>) -> (r: Option<String>)
    ensures
        r == first_some(a, b),
{
    match a {
        Some(x) => Some(x),
        None => b,
    }
}

impl RateLimitWindow {
    pub fn duplicate(&self) -> (r: RateLimitWindow)
        ensures
            r == *self,
    {
        RateLimitWindow {
            used_percent: match &self.used_percent {
                Some(s) => Some(s.clone()),
                None => None,
            },
            window_duration_mins: self.window_duration_mins,
            resets_at: self.resets_at,
        }
    }
}

/// Two readings of one window merged: each field from the current reading
/// where it has one, else from the incoming one.
pub open spec fn merge_window_spec(
    current: Option<RateLimitWindow>,
    incoming: Option<RateLimitWindow>,
) -> Option<RateLimitWindow> {
    match (current, incoming) {
        (Some(c), Some(i)) => Some(
            RateLimitWindow {
                used_percent: first_some(c.used_percent, i.used_percent),
                window_duration_mins: first_some(c.window_duration_mins, i.window_duration_mins),
                resets_at: first_some(c.resets_at, i.resets_at),
            },
        ),
        (Some(c), None) => Some(c),
        (None, Some(i)) => Some(i),
        (None, None) => None,
    }
}

pub fn merge_rate_limit_window(
    current: Option<RateLimitWindow>,
    incoming: Option<RateLimitWindow>,
) -> (r: Option<RateLimitWindow>)
    ensures
        r == merge_window_spec(current, incoming),
{
    match (current, incoming) {
        (Some(c), Some(i)) => Some(
            RateLimitWindow {
                used_percent: or_string(c.used_percent, i.used_percent),
                window_duration_mins: match c.window_duration_mins {
                    Some(m) => Some(m),
                    None => i.window_duration_mins,
                },
                resets_at: match c.resets_at {
                    Some(t) => Some(t),
                    None => i.resets_at,
                },
            },
        ),
        (Some(c), None) => Some(c),
        (None, Some(i)) => Some(i),
        (None, None) => None,
    }
}

/// The limits of `base` completed from `overlay`: each field from `base`
/// where it has one, the windows merged field by field.
pub open spec fn merge_limits_spec(base: CodexRateLimits, overlay: CodexRateLimits) -> CodexRateLimits {
    CodexRateLimits {
        limit_id: first_some(base.limit_id, overlay.limit_id),
        limit_name: first_some(base.limit_name, overlay.limit_name),
        primary: merge_window_spec(base.primary, overlay.primary),
        secondary: merge_window_spec(base.secondary, overlay.secondary),
        credits: first_some(base.credits, overlay.credits),
        individual_limit: first_some(base.individual_limit, overlay.individual_limit),
        spend_control_reached: first_some(base.spend_control_reached, overlay.spend_control_reached),
        plan_type: first_some(base.plan_type, overlay.plan_type),
        rate_limit_reached_type: first_some(base.rate_limit_reached_type, overlay.rate_limit_reached_type),
    }
}

pub fn merge_rate_limits(base: CodexRateLimits, overlay: CodexRateLimits) -> (r: CodexRateLimits)
    ensures
        r == merge_limits_spec(base, overlay),
{
    CodexRateLimits {
        limit_id: or_string(base.limit_id, overlay.limit_id),
        limit_name: or_string(base.limit_name, overlay.limit_name),
        primary: merge_rate_limit_window(base.primary, overlay.primary),
        secondary: merge_rate_limit_window(base.secondary, overlay.secondary),
        credits: match base.credits {
            Some(c) => Some(c),
            None => overlay.credits,
        },
        individual_limit: match base.individual_limit {
            Some(l) => Some(l),
            None => overlay.individual_limit,
        },
        spend_control_reached: match base.spend_control_reached {
            Some(b) => Some(b),
            None => overlay.spend_control_reached,
        },
        plan_type: or_string(base.plan_type, overlay.plan_type),
        rate_limit_reached_type: or_string(base.rate_limit_reached_type, overlay.rate_limit_reached_type),
    }
}

/// Whether a window reports its usage.
pub open spec fn window_has_usage_spec(w: Option<RateLimitWindow>) -> bool {
    w matches Some(x) && x.used_percent is Some
}

pub fn window_has_usage(window: &Option<RateLimitWindow>) -> (r: bool)
    ensures
        r == window_has_usage_spec(*window),
{
    match window {
        Some(w) => w.used_percent.is_some(),
        None => false,
    }
}

/// Whether the limits report the usage of either window.
pub open spec fn has_usage_spec(limits: Option<CodexRateLimits>) -> bool {
    limits matches Some(l) && (window_has_usage_spec(l.primary) || window_has_usage_spec(l.secondary))
}

pub fn rate_limits_has_usage(limits: &Option<CodexRateLimits>) -> (r: bool)
    ensures
        r == has_usage_spec(*limits),
{
    match limits {
        Some(l) => window_has_usage(&l.primary) || window_has_usage(&l.secondary),
        None => false,
    }
}

/// The limits that a reply holds, from its `rateLimits` and from the entry
/// for Codex under `rateLimitsByLimitId`: both merged when both came, and
/// kept only when they report some usage.
pub open spec fn combined_limits_spec(
    main: Option<CodexRateLimits>,
    by_limit_id: Option<CodexRateLimits>,
) -> Option<CodexRateLimits> {
    let merged = match (main, by_limit_id) {
        (Some(m), Some(b)) => Some(merge_limits_spec(m, b)),
        (Some(m), None) => Some(m),
        (None, Some(b)) => Some(b),
        (None, None) => None,
    };
    if has_usage_spec(merged) {
        merged
    } else {
        None
    }
}

pub fn combine_rate_limits(main: Option<CodexRateLimits>, by_limit_id: Option<CodexRateLimits>) -> (r: Option<
    CodexRateLimits,
>)
    ensures
        r == combined_limits_spec(main, by_limit_id),
{
    let merged = match (main, by_limit_id) {
        (Some(m), Some(b)) => Some(merge_rate_limits(m, b)),
        (Some(m), None) => Some(m),
        (None, Some(b)) => Some(b),
        (None, None) => None,
    };
    if rate_limits_has_usage(&merged) {
        merged
    } else {
        None
    }
}

/// The reason the app-server gives for a reached limit, when it gives one
/// that is not blank.
pub open spec fn reached_type_spec(status: CodexRateLimitsStatus) -> Option<Seq<char>> {
    match status.rate_limits {
        Some(l) => match l.rate_limit_reached_type {
            Some(t) => if trim(t@).len() > 0 {
                Some(t@)
            } else {
                None
            },
            None => None,
        },
        None => None,
    }
}

pub fn rate_limit_reached_type(status: &CodexRateLimitsStatus) -> (r: Option<String>)
    ensures
        match r {
            Some(s) => reached_type_spec(*status) == Some(s@),
            None => reached_type_spec(*status) is None,
        },
{
    match &status.rate_limits {
        Some(l) => match &l.rate_limit_reached_type {
            Some(t) => {
                if trim_str(t.as_str()).len() > 0 {
                    Some(t.clone())
                } else {
                    None
                }
            },
            None => None,
        },
        None => None,
    }
}

/// Whether the app-server says that a limit was reached.
pub fn is_rate_limit_reached(status: &CodexRateLimitsStatus) -> (r: bool)
    ensures
        r == (reached_type_spec(*status) is Some),
{
    rate_limit_reached_type(status).is_some()
}

/// The name that a window goes by, from its length in minutes.
pub open spec fn duration_label_spec(mins: Option<u32>) -> Seq<char> {
    match mins {
        Some(m) => if m == 300 {
            "5h"@
        } else if m == 10080 {
            "weekly"@
        } else if m == 43200 {
            "monthly"@
        } else if m <= 360 {
            "short-term"@
        } else {
            "window"@
        },
        None => "window"@,
    }
}

pub fn window_duration_label(window_duration_mins: Option<u32>) -> (r: &'static str)
    ensures
        r@ == duration_label_spec(window_duration_mins),
{
    match window_duration_mins {
        Some(300) => "5h",
        Some(10080) => "weekly",
        Some(43200) => "monthly",
        Some(minutes) => if minutes <= 360 {
            "short-term"
        } else {
            "window"
        },
        None => "window",
    }
}

/// How a window is summed up: its name and the share used.
pub open spec fn window_usage_text(w: RateLimitWindow) -> Seq<char> {
    match w.used_percent {
        Some(p) => duration_label_spec(w.window_duration_mins) + " "@ + p@ + "% used"@,
        None => duration_label_spec(w.window_duration_mins) + " unavailable"@,
    }
}

pub fn format_window_usage(window: &RateLimitWindow) -> (r: String)
    ensures
        r@ == window_usage_text(*window),
{
    let mut v: Vec<char> = Vec::new();
    append_str(&mut v, window_duration_label(window.window_duration_mins));
    match &window.used_percent {
        Some(p) => {
            append_str(&mut v, " ");
            append_str(&mut v, p.as_str());
            append_str(&mut v, "% used");
        },
        None => {
            append_str(&mut v, " unavailable");
        },
    }
    string_of(&v)
}

/// The sort key of a window: its length, a window of unknown length last.
pub open spec fn duration_key(w: RateLimitWindow) -> u32 {
    match w.window_duration_mins {
        Some(m) => m,
        None => 4294967295u32,
    }
}

/// The windows that report usage, shortest first, and only the first of
/// two of the same length.
pub open spec fn usage_windows_spec(limits: CodexRateLimits) -> Seq<RateLimitWindow> {
    let p = limits.primary;
    let s = limits.secondary;
    if window_has_usage_spec(p) && window_has_usage_spec(s) {
        let (a, b) = (p->0, s->0);
        if a.window_duration_mins == b.window_duration_mins {
            seq![a]
        } else if duration_key(a) <= duration_key(b) {
            seq![a, b]
        } else {
            seq![b, a]
        }
    } else if window_has_usage_spec(p) {
        seq![p->0]
    } else if window_has_usage_spec(s) {
        seq![s->0]
    } else {
        Seq::empty()
    }
}

fn key_of(w: &RateLimitWindow) -> (r: u32)
    ensures
        r == duration_key(*w),
{
    match w.window_duration_mins {
        Some(m) => m,
        None => 4294967295u32,
    }
}

pub fn collect_usage_windows(limits: &CodexRateLimits) -> (r: Vec<RateLimitWindow>)
    ensures
        r@ == usage_windows_spec(*limits),
{
    let mut out: Vec<RateLimitWindow> = Vec::new();
    let hp = window_has_usage(&limits.primary);
    let hs = window_has_usage(&limits.secondary);
    if hp && hs {
        let a = limits.primary.as_ref().unwrap();
        let b = limits.secondary.as_ref().unwrap();
        if a.window_duration_mins == b.window_duration_mins {
            out.push(a.duplicate());
        } else if key_of(a) <= key_of(b) {
            out.push(a.duplicate());
            out.push(b.duplicate());
        } else {
            out.push(b.duplicate());
            out.push(a.duplicate());
        }
    } else if hp {
        out.push(limits.primary.as_ref().unwrap().duplicate());
    } else if hs {
        out.push(limits.secondary.as_ref().unwrap().duplicate());
    }
    assert(out@ =~= usage_windows_spec(*limits));
    out
}

/// The summaries of `ws`, joined by `; `.
pub open spec fn join_usage(ws: Seq<RateLimitWindow>) -> Seq<char>
    decreases ws.len(),
{
    if ws.len() == 0 {
        Seq::empty()
    } else if ws.len() == 1 {
        window_usage_text(ws[0])
    } else {
        join_usage(ws.drop_last()) + "; "@ + window_usage_text(ws.last())
    }
}

/// The one-line summary of a rate-limit reading: the reason for a reached
/// limit (`unknown` when none was given), then the usage of each window, or
/// `windows=unavailable`.
pub open spec fn status_snippet_spec(status: CodexRateLimitsStatus) -> Seq<char> {
    let reached = match reached_type_spec(status) {
        Some(t) => t,
        None => "unknown"@,
    };
    let windows = match status.rate_limits {
        Some(l) => usage_windows_spec(l),
        None => Seq::empty(),
    };
    if windows.len() == 0 {
        "rateLimitReachedType="@ + reached + "; windows=unavailable"@
    } else {
        "rateLimitReachedType="@ + reached + "; "@ + join_usage(windows)
    }
}

pub fn rate_limit_status_snippet(status: &CodexRateLimitsStatus) -> (r: String)
    ensures
        r@ == status_snippet_spec(*status),
{
    let mut v: Vec<char> = Vec::new();
    append_str(&mut v, "rateLimitReachedType=");
    match rate_limit_reached_type(status) {
        Some(t) => append_str(&mut v, t.as_str()),
        None => append_str(&mut v, "unknown"),
    }
    let windows = match &status.rate_limits {
        Some(l) => collect_usage_windows(l),
        None => Vec::new(),
    };
    if windows.len() == 0 {
        append_str(&mut v, "; windows=unavailable");
        return string_of(&v);
    }
    append_str(&mut v, "; ");
    let ghost head = v@;
    let mut i: usize = 0;
    while i < windows.len()
        invariant
            i <= windows.len(),
            v@ == head + join_usage(windows@.subrange(0, i as int)),
        decreases windows.len() - i,
    {
        assert(windows@.subrange(0, i + 1).drop_last() =~= windows@.subrange(0, i as int));
        if i > 0 {
            append_str(&mut v, "; ");
        }
        let text = format_window_usage(&windows[i]);
        append_str(&mut v, text.as_str());
        proof {
            if i == 0 {
                assert(join_usage(windows@.subrange(0, 0)) =~= Seq::<char>::empty());
            }
        }
        assert(v@ =~= head + join_usage(windows@.subrange(0, i + 1)));
        i += 1;
    }
    assert(windows@.subrange(0, windows.len() as int) =~= windows@);
    string_of(&v)
}

/// The error text when no Codex CLI answered: the last error, then the
/// candidates that were tried, joined by `, `.
pub fn cli_discovery_error(last_error: &str, candidates: &Vec<String>) -> (r: String)
    ensures
        r@ == last_error@ + ". Checked: "@ + join_comma(
            candidates@.map_values(|s: String| s@),
        ),
{
    let mut v: Vec<char> = Vec::new();
    append_str(&mut v, last_error);
    append_str(&mut v, ". Checked: ");
    let ghost head = v@;
    let ghost cs = candidates@.map_values(|s: String| s@);
    let mut i: usize = 0;
    while i < candidates.len()
        invariant
            i <= candidates.len(),
            cs == candidates@.map_values(|s: String| s@),
            v@ == head + join_comma(cs.subrange(0, i as int)),
        decreases candidates.len() - i,
    {
        assert(cs.subrange(0, i + 1).drop_last() =~= cs.subrange(0, i as int));
        if i > 0 {
            append_str(&mut v, ", ");
        }
        append_str(&mut v, candidates[i].as_str());
        proof {
            if i == 0 {
                assert(join_comma(cs.subrange(0, 0)) =~= Seq::<char>::empty());
            }
        }
        assert(v@ =~= head + join_comma(cs.subrange(0, i + 1)));
        i += 1;
    }
    assert(cs.subrange(0, candidates.len() as int) =~= cs);
    string_of(&v)
}

/// The strings joined by `, `.
pub open spec fn join_comma(ss: Seq<Seq<char>>) -> Seq<char>
    decreases ss.len(),
{
    if ss.len() == 0 {
        Seq::empty()
    } else if ss.len() == 1 {
        ss[0]
    } else {
        join_comma(ss.drop_last()) + ", "@ + ss.last()
    }
}

/// The rate-limit reading that the app-server of Codex CLI `cli` gave at
/// `fetched_at`, with its limits and reset credits; the plan is the one that
/// the limits name.
pub fn rate_limits_from_app_server(
    fetched_at: String,
    cli: &str,
    rate_limits: Option<CodexRateLimits>,
    reset_credits: Option<RateLimitResetCredits>,
) -> (r: CodexRateLimitsStatus)
    ensures
        r.ok,
        r.fetched_at == fetched_at,
        r.source@ == "codex app-server account/rateLimits/read"@,
        r.codex_cli matches Some(c) && c@ == cli@,
        r.error is None,
        r.requires_auth == Some(false),
        r.plan_type == (match rate_limits {
            Some(l) => l.plan_type,
            None => None,
        }),
        r.rate_limits == rate_limits,
        r.rate_limit_reset_credits == reset_credits,
{
    let plan_type = match &rate_limits {
        Some(l) => l.plan_type.clone(),
        None => None,
    };
    CodexRateLimitsStatus {
        ok: true,
        fetched_at,
        source: crate::text::str_to_string("codex app-server account/rateLimits/read"),
        codex_cli: Some(crate::text::str_to_string(cli)),
        error: None,
        requires_auth: Some(false),
        plan_type,
        rate_limits,
        rate_limit_reset_credits: reset_credits,
    }
}

/// The rate-limit reading when no Codex CLI answered: the first candidate
/// that was tried, and the reason with the candidates.
pub fn rate_limits_unavailable(fetched_at: String, candidates: &Vec<String>) -> (r: CodexRateLimitsStatus)
    ensures
        !r.ok,
        r.fetched_at == fetched_at,
        r.source@ == "codex app-server account/rateLimits/read"@,
        r.codex_cli == (if candidates@.len() > 0 {
            Some(candidates@[0])
        } else {
            None
        }),
        r.error matches Some(e) && e@ == "Codex app-server unavailable. Checked: "@ + join_comma(
            candidates@.map_values(|s: String| s@),
        ),
        r.requires_auth is None,
        r.plan_type is None,
        r.rate_limits is None,
        r.rate_limit_reset_credits is None,
{
    let codex_cli = if candidates.len() > 0 {
        Some(candidates[0].clone())
    } else {
        None
    };
    proof {
        reveal_strlit("Codex app-server unavailable");
        reveal_strlit("Codex app-server unavailable. Checked: ");
        reveal_strlit(". Checked: ");
    }
    let error = cli_discovery_error("Codex app-server unavailable", candidates);
    assert("Codex app-server unavailable"@ + ". Checked: "@ =~= "Codex app-server unavailable. Checked: "@);
    CodexRateLimitsStatus {
        ok: false,
        fetched_at,
        source: crate::text::str_to_string("codex app-server account/rateLimits/read"),
        codex_cli,
        error: Some(error),
        requires_auth: None,
        plan_type: None,
        rate_limits: None,
        rate_limit_reset_credits: None,
    }
}

/// The thread list that the app-server of Codex CLI `cli` gave at
/// `fetched_at`.
pub fn thread_list_from_app_server(fetched_at: String, cli: &str, threads: Vec<CodexThreadSummary>) -> (r:
    CodexThreadListStatus)
    ensures
        r.ok,
        r.fetched_at == fetched_at,
        r.source@ == "codex app-server thread/list"@,
        r.codex_cli matches Some(c) && c@ == cli@,
        r.error is None,
        r.threads == threads,
{
    CodexThreadListStatus {
        ok: true,
        fetched_at,
        source: crate::text::str_to_string("codex app-server thread/list"),
        codex_cli: Some(crate::text::str_to_string(cli)),
        error: None,
        threads,
    }
}

/// The thread list taken from the local session index at `fetched_at`.
pub fn thread_list_from_store(fetched_at: String, threads: Vec<CodexThreadSummary>) -> (r: CodexThreadListStatus)
    ensures
        r.ok,
        r.fetched_at == fetched_at,
        r.source@ == "codex ~/.codex/session_index.jsonl"@,
        r.codex_cli is None,
        r.error is None,
        r.threads == threads,
{
    CodexThreadListStatus {
        ok: true,
        fetched_at,
        source: crate::text::str_to_string("codex ~/.codex/session_index.jsonl"),
        codex_cli: None,
        error: None,
        threads,
    }
}

/// The thread list when neither the app-server nor the local index gave one:
/// the first CLI candidate that was tried, and the reason.
pub fn thread_list_unavailable(fetched_at: String, candidates: &Vec<String>) -> (r: CodexThreadListStatus)
    ensures
        !r.ok,
        r.fetched_at == fetched_at,
        r.source@ == "codex app-server thread/list"@,
        r.codex_cli == (if candidates@.len() > 0 {
            Some(candidates@[0])
        } else {
            None
        }),
        r.error matches Some(e) && e@ == "Could not reach Codex app-server or read local session index."@,
        r.threads@.len() == 0,
{
    let codex_cli = if candidates.len() > 0 {
        Some(candidates[0].clone())
    } else {
        None
    };
    CodexThreadListStatus {
        ok: false,
        fetched_at,
        source: crate::text::str_to_string("codex app-server thread/list"),
        codex_cli,
        error: Some(crate::text::str_to_string("Could not reach Codex app-server or read local session index.")),
        threads: Vec::new(),
    }
}

} // verus!

//! Connection health: the alerts that the watch raises, their wording, and
//! the recognition of connection failures in Codex replies.
use vstd::prelude::*;

use crate::clock::now_rfc3339;
use crate::config::{
    config_error_text, openai_base_url_spec, opt_view, strings_view, LauncherConfig,
};
use crate::ollama::{api_root_spec, tags_url_from_base};
use crate::text::{
    append_chars, append_str, chars_of, decimal, first_match_ignoring_case, first_pattern_match,
    push_decimal, str_to_string, string_of,
};

verus! {

#[derive(Clone, Copy, Debug, PartialEq, Eq, Structural)]
pub enum ConnectionAlertKind {
    EndpointDown,
    EndpointRestored,
    CodexApiDown,
    CodexApiRestored,
    SessionConnectionError,
}

#[derive(Clone, Copy, Debug, PartialEq, Eq, Structural)]
pub enum AlertSeverity {
    Error,
    Warn,
    Info,
}

/// The result of one probe of the configured endpoint.
#[derive(Clone, Debug)]
pub struct EndpointHealth {
    /// When the probe ran, in RFC 3339.
    pub checked_at: String,
    pub endpoint_url: Option<String>,
    pub reachable: bool,
    pub status_code: Option<u16>,
    pub latency_ms: Option<u64>,
    pub error: Option<String>,
    pub model_count: Option<u64>,
}

/// An alert about the connection to the endpoint or to Codex.
#[derive(Clone, Debug)]
pub struct ConnectionAlert {
    /// When the alert was raised, in RFC 3339.
    pub detected_at: String,
    pub kind: ConnectionAlertKind,
    pub severity: AlertSeverity,
    pub title: String,
    pub message: String,
    pub endpoint_health: Option<EndpointHealth>,
    pub dismissed: bool,
}

fn copy_opt(o: &Option<String>) -> (r: Option<String>)
    ensures
        r == *o,
{
    match o {
        Some(s) => Some(s.clone()),
        None => None,
    }
}

impl EndpointHealth {
    pub fn duplicate(&self) -> (r: EndpointHealth)
        ensures
            r == *self,
    {
        EndpointHealth {
            checked_at: self.checked_at.clone(),
            endpoint_url: copy_opt(&self.endpoint_url),
            reachable: self.reachable,
            status_code: self.status_code,
            latency_ms: self.latency_ms,
            error: copy_opt(&self.error),
            model_count: self.model_count,
        }
    }
}

impl ConnectionAlert {
    pub fn duplicate(&self) -> (r: ConnectionAlert)
        ensures
            r == *self,
    {
        ConnectionAlert {
            detected_at: self.detected_at.clone(),
            kind: self.kind,
            severity: self.severity,
            title: self.title.clone(),
            message: self.message.clone(),
            endpoint_health: match &self.endpoint_health {
                Some(h) => Some(h.duplicate()),
                None => None,
            },
            dismissed: self.dismissed,
        }
    }
}

/// The phrases that mark a reply as a connection failure, lower case.
pub open spec fn connection_failure_patterns_spec() -> Seq<Seq<char>> {
    seq![
        "connection refused"@,
        "econnrefused"@,
        "failed to connect"@,
        "could not connect"@,
        "couldn't connect"@,
        "network error"@,
        "connection error"@,
        "connection reset"@,
        "timed out"@,
        "timeout"@,
        "unreachable"@,
        "no route to host"@,
        "dial tcp"@,
        "502 bad gateway"@,
        "503 service unavailable"@,
        "504 gateway timeout"@,
        "ollama"@,
    ]
}

pub fn default_connection_failure_patterns() -> (v: Vec<String>)
    ensures
        strings_view(v@) == connection_failure_patterns_spec(),
{
    let mut v: Vec<String> = Vec::new();
    v.push(str_to_string("connection refused"));
    v.push(str_to_string("econnrefused"));
    v.push(str_to_string("failed to connect"));
    v.push(str_to_string("could not connect"));
    v.push(str_to_string("couldn't connect"));
    v.push(str_to_string("network error"));
    v.push(str_to_string("connection error"));
    v.push(str_to_string("connection reset"));
    v.push(str_to_string("timed out"));
    v.push(str_to_string("timeout"));
    v.push(str_to_string("unreachable"));
    v.push(str_to_string("no route to host"));
    v.push(str_to_string("dial tcp"));
    v.push(str_to_string("502 bad gateway"));
    v.push(str_to_string("503 service unavailable"));
    v.push(str_to_string("504 gateway timeout"));
    v.push(str_to_string("ollama"));
    assert(strings_view(v@) =~= connection_failure_patterns_spec());
    v
}

/// The connection-failure pattern that `text` matches: the first of
/// `patterns` that occurs in it, ignoring case.
pub fn matches_connection_failure(text: &str, patterns: &Vec<String>) -> (r: Option<String>)
    ensures
        first_pattern_match(text@, strings_view(patterns@), opt_view(r)),
{
    first_match_ignoring_case(text, patterns)
}

pub open spec fn or_text(o: Option<Seq<char>>, fallback: Seq<char>) -> Seq<char> {
    match o {
        Some(s) => s,
        None => fallback,
    }
}

pub open spec fn health_error(h: Option<EndpointHealth>) -> Option<Seq<char>> {
    match h {
        Some(x) => opt_view(x.error),
        None => None,
    }
}

pub open spec fn health_url(h: Option<EndpointHealth>) -> Option<Seq<char>> {
    match h {
        Some(x) => opt_view(x.endpoint_url),
        None => None,
    }
}

/// The severity, title and message of an alert of `kind`, given the latest
/// endpoint probe.
pub open spec fn alert_text(kind: ConnectionAlertKind, h: Option<EndpointHealth>) -> (
    AlertSeverity,
    Seq<char>,
    Seq<char>,
) {
    match kind {
        ConnectionAlertKind::EndpointDown => {
            let detail = match health_error(h) {
                Some(e) => e,
                None => or_text(health_url(h), "configured endpoint"@),
            };
            (
                AlertSeverity::Error,
                "Local API unreachable"@,
                "Launchpad cannot reach your API endpoint ("@ + detail
                    + "). Check that Ollama or your gateway is running and the IP/port in Settings are correct."@,
            )
        },
        ConnectionAlertKind::EndpointRestored => (
            AlertSeverity::Info,
            "Local API back online"@,
            "Your OpenAI-compatible endpoint is reachable again."@,
        ),
        ConnectionAlertKind::CodexApiDown => (
            AlertSeverity::Warn,
            "Codex API disconnected"@,
            "Codex is running but its local API stopped responding. Restart Codex if chat or automations stop working."@,
        ),
        ConnectionAlertKind::CodexApiRestored => (
            AlertSeverity::Info,
            "Codex API reconnected"@,
            "Codex's local API is responding again."@,
        ),
        ConnectionAlertKind::SessionConnectionError => (
            AlertSeverity::Error,
            "Codex reported a connection problem"@,
            match h {
                Some(x) => if x.reachable {
                    "Launchpad probed "@ + or_text(opt_view(x.endpoint_url), "the endpoint"@)
                        + " and it responded ("@ + decimal(
                        match x.model_count {
                            Some(n) => n as nat,
                            None => 0,
                        },
                    ) + " models, "@ + decimal(
                        match x.latency_ms {
                            Some(n) => n as nat,
                            None => 0,
                        },
                    ) + " ms). The failure may be inside Codex or transient."@
                } else {
                    "Launchpad also cannot reach "@ + or_text(
                        opt_view(x.endpoint_url),
                        "the endpoint"@,
                    ) + " \u{2014} "@ + or_text(opt_view(x.error), "connection failed"@)
                },
                None => "Could not probe the configured endpoint."@,
            },
        ),
    }
}

fn text_or(o: &Option<String>, fallback: &str) -> (r: Vec<char>)
    ensures
        r@ == or_text(opt_view(*o), fallback@),
{
    match o {
        Some(s) => chars_of(s.as_str()),
        None => chars_of(fallback),
    }
}

fn session_error_message(h: &Option<EndpointHealth>) -> (r: Vec<char>)
    ensures
        r@ == alert_text(ConnectionAlertKind::SessionConnectionError, *h).2,
{
    match h {
        Some(x) => {
            let url = text_or(&x.endpoint_url, "the endpoint");
            if x.reachable {
                let mut out = chars_of("Launchpad probed ");
                append_chars(&mut out, &url);
                append_str(&mut out, " and it responded (");
                let models: u64 = match x.model_count {
                    Some(n) => n,
                    None => 0,
                };
                push_decimal(&mut out, models);
                append_str(&mut out, " models, ");
                let latency: u64 = match x.latency_ms {
                    Some(n) => n,
                    None => 0,
                };
                push_decimal(&mut out, latency);
                append_str(&mut out, " ms). The failure may be inside Codex or transient.");
                out
            } else {
                let mut out = chars_of("Launchpad also cannot reach ");
                append_chars(&mut out, &url);
                append_str(&mut out, " \u{2014} ");
                let err = text_or(&x.error, "connection failed");
                append_chars(&mut out, &err);
                out
            }
        },
        None => chars_of("Could not probe the configured endpoint."),
    }
}

/// The severity, title and message of an alert of `kind`.
pub fn alert_content(kind: ConnectionAlertKind, h: &Option<EndpointHealth>) -> (r: (
    AlertSeverity,
    String,
    String,
))
    ensures
        (r.0, r.1@, r.2@) == alert_text(kind, *h),
{
    match kind {
        ConnectionAlertKind::EndpointDown => {
            let detail: Vec<char> = match h {
                Some(x) => match &x.error {
                    Some(e) => chars_of(e.as_str()),
                    None => text_or(&x.endpoint_url, "configured endpoint"),
                },
                None => chars_of("configured endpoint"),
            };
            let mut out = chars_of("Launchpad cannot reach your API endpoint (");
            append_chars(&mut out, &detail);
            append_str(
                &mut out,
                "). Check that Ollama or your gateway is running and the IP/port in Settings are correct.",
            );
            (AlertSeverity::Error, str_to_string("Local API unreachable"), string_of(&out))
        },
        ConnectionAlertKind::EndpointRestored => (
            AlertSeverity::Info,
            str_to_string("Local API back online"),
            str_to_string("Your OpenAI-compatible endpoint is reachable again."),
        ),
        ConnectionAlertKind::CodexApiDown => (
            AlertSeverity::Warn,
            str_to_string("Codex API disconnected"),
            str_to_string(
                "Codex is running but its local API stopped responding. Restart Codex if chat or automations stop working.",
            ),
        ),
        ConnectionAlertKind::CodexApiRestored => (
            AlertSeverity::Info,
            str_to_string("Codex API reconnected"),
            str_to_string("Codex's local API is responding again."),
        ),
        ConnectionAlertKind::SessionConnectionError => {
            let m = session_error_message(h);
            (
                AlertSeverity::Error,
                str_to_string("Codex reported a connection problem"),
                string_of(&m),
            )
        },
    }
}

/// A new, undismissed alert of `kind`, stamped with the current time.
pub fn alert_for_kind(kind: ConnectionAlertKind, endpoint_health: Option<EndpointHealth>) -> (a:
    ConnectionAlert)
    ensures
        a.kind == kind,
        (a.severity, a.title@, a.message@) == alert_text(kind, endpoint_health),
        a.endpoint_health == endpoint_health,
        !a.dismissed,
{
    let (severity, title, message) = alert_content(kind, &endpoint_health);
    ConnectionAlert {
        detected_at: now_rfc3339(),
        kind,
        severity,
        title,
        message,
        endpoint_health,
        dismissed: false,
    }
}

// ---------------------------------------------------------------------------
// Probing the endpoint
// ---------------------------------------------------------------------------
/// The result of a probe that got no answer: not reachable, with `error`.
pub fn failed_probe(
    checked_at: String,
    endpoint_url: Option<String>,
    latency_ms: Option<u64>,
    error: String,
) -> (h: EndpointHealth)
    ensures
        h.checked_at@ == checked_at@,
        opt_view(h.endpoint_url) == opt_view(endpoint_url),
        !h.reachable,
        h.status_code is None,
        h.latency_ms == latency_ms,
        opt_view(h.error) == Some(error@),
        h.model_count is None,
{
    EndpointHealth {
        checked_at,
        endpoint_url,
        reachable: false,
        status_code: None,
        latency_ms,
        error: Some(error),
        model_count: None,
    }
}

/// Where a probe of the configured endpoint goes: the URL of its model list.
/// When the configuration names no usable endpoint, the probe's result
/// instead, with the reason.
pub fn probe_target(config: &LauncherConfig, checked_at: String) -> (r: Result<String, EndpointHealth>)
    ensures
        match openai_base_url_spec(config@) {
            Err(e) => r matches Err(h) && h.checked_at@ == checked_at@ && h.endpoint_url is None
                && !h.reachable && h.status_code is None && h.latency_ms is None && opt_view(h.error)
                == Some(config_error_text(e)) && h.model_count is None,
            Ok(base) => match api_root_spec(base) {
                Some(root) => r matches Ok(url) && url@ == root + "/tags"@,
                None => r matches Err(h) && h.checked_at@ == checked_at@ && opt_view(h.endpoint_url)
                    == Some(base) && !h.reachable && h.status_code is None && h.latency_ms is None
                    && opt_view(h.error) == Some(
                    "could not derive Ollama API root from base URL: "@ + base,
                ) && h.model_count is None,
            },
        },
{
    let base_url = match config.openai_base_url() {
        Ok(url) => url,
        Err(error) => {
            return Err(failed_probe(checked_at, None, None, error.message()));
        },
    };
    match tags_url_from_base(base_url.as_str()) {
        Ok(url) => Ok(url),
        Err(error) => {
            let text = error.message();
            Err(failed_probe(checked_at, Some(base_url), None, text))
        },
    }
}

/// The result of a probe of `tags_url` that got an HTTP answer: reachable on
/// success, with the number of models that the answer listed; else an
/// `HTTP <status>` error.
pub fn answered_probe(
    checked_at: String,
    tags_url: String,
    status_code: u16,
    latency_ms: u64,
    model_count: Option<u64>,
) -> (h: EndpointHealth)
    ensures
        h.checked_at@ == checked_at@,
        opt_view(h.endpoint_url) == Some(tags_url@),
        h.reachable == (200 <= status_code <= 299),
        h.status_code == Some(status_code),
        h.latency_ms == Some(latency_ms),
        opt_view(h.error) == (if 200 <= status_code <= 299 {
            None
        } else {
            Some("HTTP "@ + decimal(status_code as nat))
        }),
        h.model_count == (if 200 <= status_code <= 299 {
            model_count
        } else {
            None
        }),
{
    let reachable = 200 <= status_code && status_code <= 299;
    let error = if reachable {
        None
    } else {
        let mut v: Vec<char> = Vec::new();
        append_str(&mut v, "HTTP ");
        push_decimal(&mut v, status_code as u64);
        Some(string_of(&v))
    };
    EndpointHealth {
        checked_at,
        endpoint_url: Some(tags_url),
        reachable,
        status_code: Some(status_code),
        latency_ms: Some(latency_ms),
        error,
        model_count: if reachable {
            model_count
        } else {
            None
        },
    }
}

} // verus!

use codex_launchpad::failover::{
    checkpoint_from_observation, failover_message, rate_limit_reached_from_status,
    should_failover_for_rate_limits, CheckpointObservation,
};
use codex_launchpad::lpad_app_server::{
    cli_discovery_error, collect_usage_windows, combine_rate_limits, is_rate_limit_reached,
    merge_rate_limits, rate_limit_reached_type, rate_limit_status_snippet, window_duration_label,
    AppServerError, CodexRateLimits, CodexRateLimitsStatus, RateLimitWindow,
};
use codex_launchpad::lpad_monitor::{
    rate_limits_poll_signature, structured_poll_due, MonitorAlerts, StructuredOutcome,
};
use codex_launchpad::session_checkpoint::ProviderModeKind;

fn window(used: Option<&str>, mins: Option<u32>) -> RateLimitWindow {
    RateLimitWindow {
        used_percent: used.map(|s| s.to_string()),
        window_duration_mins: mins,
        resets_at: Some(1),
    }
}

fn limits(primary: Option<RateLimitWindow>, secondary: Option<RateLimitWindow>, reached: Option<&str>) -> CodexRateLimits {
    CodexRateLimits {
        limit_id: Some("codex".to_string()),
        limit_name: None,
        primary,
        secondary,
        credits: None,
        individual_limit: None,
        spend_control_reached: None,
        plan_type: Some("plus".to_string()),
        rate_limit_reached_type: reached.map(|s| s.to_string()),
    }
}

fn status(ok: bool, l: Option<CodexRateLimits>) -> CodexRateLimitsStatus {
    CodexRateLimitsStatus {
        ok,
        fetched_at: "now".to_string(),
        source: "test".to_string(),
        codex_cli: None,
        error: None,
        requires_auth: Some(false),
        plan_type: Some("plus".to_string()),
        rate_limits: l,
        rate_limit_reset_credits: None,
    }
}

#[test]
fn structured_rate_limit_requires_reached_type() {
    let limited = status(true, Some(limits(Some(window(Some("100"), Some(300))), None, Some("primary"))));
    assert!(should_failover_for_rate_limits(&limited));
    assert_eq!(rate_limit_reached_from_status(&limited).as_deref(), Some("primary"));

    let exhausted_without_signal = status(true, Some(limits(Some(window(Some("100"), Some(300))), None, None)));
    assert!(!should_failover_for_rate_limits(&exhausted_without_signal));
}

#[test]
fn blank_reached_type_does_not_count() {
    let s = status(true, Some(limits(None, None, Some("  "))));
    assert!(!is_rate_limit_reached(&s));
    assert_eq!(rate_limit_reached_type(&s), None);
    let not_ok = status(false, Some(limits(None, None, Some("primary"))));
    assert!(!should_failover_for_rate_limits(&not_ok));
}

#[test]
fn snippet_lists_windows_by_duration() {
    let s = status(true, Some(limits(Some(window(Some("18"), Some(10080))), Some(window(Some("25"), Some(300))), None)));
    assert_eq!(rate_limit_status_snippet(&s), "rateLimitReachedType=unknown; 5h 25% used; weekly 18% used");
    let empty = status(true, None);
    assert_eq!(rate_limit_status_snippet(&empty), "rateLimitReachedType=unknown; windows=unavailable");
}

#[test]
fn windows_of_equal_length_appear_once() {
    let l = limits(Some(window(Some("10"), Some(300))), Some(window(Some("20"), Some(300))), None);
    let ws = collect_usage_windows(&l);
    assert_eq!(ws.len(), 1);
    assert_eq!(ws[0].used_percent.as_deref(), Some("10"));
}

#[test]
fn duration_labels() {
    assert_eq!(window_duration_label(Some(300)), "5h");
    assert_eq!(window_duration_label(Some(10080)), "weekly");
    assert_eq!(window_duration_label(Some(43200)), "monthly");
    assert_eq!(window_duration_label(Some(60)), "short-term");
    assert_eq!(window_duration_label(Some(1000)), "window");
    assert_eq!(window_duration_label(None), "window");
}

#[test]
fn merge_prefers_base_and_fills_gaps() {
    let base = limits(Some(window(None, Some(300))), None, None);
    let overlay = limits(Some(window(Some("12"), Some(999))), Some(window(Some("40"), Some(10080))), Some("secondary"));
    let m = merge_rate_limits(base, overlay);
    let p = m.primary.expect("primary");
    assert_eq!(p.used_percent.as_deref(), Some("12"));
    assert_eq!(p.window_duration_mins, Some(300));
    assert_eq!(m.secondary.expect("secondary").used_percent.as_deref(), Some("40"));
    assert_eq!(m.rate_limit_reached_type.as_deref(), Some("secondary"));
}

#[test]
fn combined_limits_need_usage() {
    let sparse = limits(None, None, None);
    assert!(combine_rate_limits(Some(sparse), None).is_none());
    let by_id = limits(None, Some(window(Some("12"), Some(10080))), None);
    let merged = combine_rate_limits(Some(limits(None, None, None)), Some(by_id)).expect("usage");
    assert_eq!(merged.secondary.expect("secondary").used_percent.as_deref(), Some("12"));
}

#[test]
fn errors_and_discovery_text() {
    assert_eq!(AppServerError::Timeout.message(), "app-server request timed out");
    assert_eq!(AppServerError::Rpc("x".to_string()).message(), "app-server returned an error: x");
    assert_eq!(
        cli_discovery_error("Codex app-server unavailable", &vec!["codex".to_string(), "/usr/bin/codex".to_string()]),
        "Codex app-server unavailable. Checked: codex, /usr/bin/codex"
    );
}

#[test]
fn structured_reading_raises_then_clears() {
    let mut alerts = MonitorAlerts::new();
    let limited = status(true, Some(limits(Some(window(Some("100"), Some(300))), None, Some("primary"))));
    assert_eq!(alerts.observe_structured_rate_limits(&limited, "t1".to_string()), StructuredOutcome::Raised);
    let active = alerts.active_alert.as_ref().expect("alert");
    assert_eq!(active.matched_pattern, "primary");
    assert_eq!(active.source, "app_server_rate_limits");
    assert_eq!(alerts.recent_alerts.len(), 1);
    let fine = status(true, Some(limits(Some(window(Some("10"), Some(300))), None, None)));
    assert_eq!(alerts.observe_structured_rate_limits(&fine, "t2".to_string()), StructuredOutcome::Cleared);
    assert!(alerts.active_alert.is_none());
    assert_eq!(alerts.observe_structured_rate_limits(&fine, "t3".to_string()), StructuredOutcome::Unchanged);
    assert_eq!(alerts.recent_alerts.len(), 1);
}

#[test]
fn poll_signature_and_schedule() {
    let s = status(false, None);
    assert_eq!(rate_limits_poll_signature(&s), "false|||rateLimitReachedType=unknown; windows=unavailable");
    assert!(structured_poll_due(0));
    assert!(structured_poll_due(12));
    assert!(!structured_poll_due(7));
}

#[test]
fn checkpoint_is_assembled_from_observation() {
    let c = checkpoint_from_observation(
        CheckpointObservation {
            millis: 1700,
            captured_at: "2026-01-01T00:00:00+00:00".to_string(),
            session_id: Some("sess_9".to_string()),
            last_assistant_summary: Some("working\n/goal ship it".to_string()),
            working_directory: Some("/tmp/w".to_string()),
            git_branch: None,
            provider_mode: ProviderModeKind::CodexAccount,
            model: None,
        },
        "manual",
    );
    assert_eq!(c.id, "chk_1700");
    assert_eq!(c.active_goal.as_deref(), Some("/goal ship it"));
    assert!(c.resume_prompt.contains("Active goal: /goal ship it"));
    assert!(c.resume_prompt.contains("Working directory: /tmp/w"));
    assert_eq!(failover_message("local", "Launching Codex via codex"), "Failover complete via profile 'local'. Launching Codex via codex Paste the resume prompt into Codex to continue.");
}

// The payloads below are the app-server replies of the rate-limit tests,
// written as the library values that decoding them gives (percentages as
// the whole-number text that the summaries show).
fn window_at(used: &str, mins: u32, resets_at: i64) -> RateLimitWindow {
    RateLimitWindow { used_percent: Some(used.to_string()), window_duration_mins: Some(mins), resets_at: Some(resets_at) }
}

fn reading(main: Option<CodexRateLimits>, by_limit_id: Option<CodexRateLimits>) -> CodexRateLimitsStatus {
    status(true, combine_rate_limits(main, by_limit_id))
}

#[test]
fn detects_rate_limit_reached_type() {
    let mut status = reading(
        Some(limits(
            Some(window_at("100", 300, 1779459394)),
            Some(window_at("10", 10080, 1779826837)),
            Some("primary"),
        )),
        None,
    );
    assert!(is_rate_limit_reached(&status));
    assert_eq!(rate_limit_reached_type(&status).as_deref(), Some("primary"));

    status.rate_limits.as_mut().unwrap().rate_limit_reached_type = None;
    assert!(!is_rate_limit_reached(&status));
}

#[test]
fn snippet_lists_windows_by_duration_not_slot_name() {
    let status = reading(
        Some(limits(Some(window_at("25", 300, 1779459394)), Some(window_at("18", 10080, 1779826837)), None)),
        None,
    );
    let snippet = rate_limit_status_snippet(&status);
    assert!(snippet.contains("5h 25% used"));
    assert!(snippet.contains("weekly 18% used"));
    assert!(!snippet.contains("primary="));
    assert!(!snippet.contains("secondary="));
}

#[test]
fn merges_sparse_rate_limits_with_rate_limits_by_limit_id() {
    let status = reading(
        Some(limits(None, None, None)),
        Some(limits(Some(window_at("12", 10080, 1784766572)), None, None)),
    );
    let limits = status.rate_limits.expect("limits");
    let primary = limits.primary.expect("primary");
    assert_eq!(primary.used_percent.as_deref(), Some("12"));
    assert_eq!(primary.window_duration_mins, Some(10_080));
}

#[test]
fn parses_weekly_only_rate_limits_payload() {
    let status = reading(
        Some(limits(Some(window_at("42", 10080, 1784766572)), None, None)),
        Some(limits(Some(window_at("42", 10080, 1784766572)), None, None)),
    );
    assert!(status.ok);
    assert!(rate_limit_status_snippet(&status).contains("weekly 42% used"));
    let limits = status.rate_limits.expect("limits");
    let primary = limits.primary.expect("primary");
    assert_eq!(primary.window_duration_mins, Some(10_080));
    assert_eq!(primary.used_percent.as_deref(), Some("42"));
    assert!(limits.secondary.is_none());
}

#[test]
fn detects_new_rate_limit_reached_type_values() {
    let status = reading(
        Some(limits(Some(window_at("100", 10080, 1784766572)), None, Some("rate_limit_reached"))),
        None,
    );
    assert!(is_rate_limit_reached(&status));
    assert_eq!(rate_limit_reached_type(&status).as_deref(), Some("rate_limit_reached"));
}

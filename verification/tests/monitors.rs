use codex_launchpad::codex_monitor;
use codex_launchpad::config::default_rate_limit_patterns;
use codex_launchpad::connection_watch::{default_connection_failure_patterns, matches_connection_failure};
use codex_launchpad::diagnose::format_configured_secret;
use codex_launchpad::discovery_log::is_noise_event;
use codex_launchpad::failover::matches_rate_limit;
use codex_launchpad::lpad_monitor;
use codex_launchpad::rate_limit_watch::looks_interesting;
use codex_launchpad::session_monitor;

#[test]
fn codex_monitor_truncates_multibyte_safe() {
    assert_eq!(codex_monitor::truncate("hello", 10), "hello");
    assert!(codex_monitor::truncate("abcdefghijklmnopqrstuvwxyz", 10).ends_with("..."));
}

#[test]
fn lpad_monitor_truncates_multibyte_safe() {
    assert_eq!(lpad_monitor::truncate("hello", 10), "hello");
    assert!(lpad_monitor::truncate("abcdefghijklmnopqrstuvwxyz", 10).ends_with("..."));
}

#[test]
fn session_monitor_truncates_multibyte_safe() {
    assert_eq!(session_monitor::truncate("hello", 10), "hello");
    assert!(session_monitor::truncate("abcdefghijklmnopqrstuvwxyz", 10).ends_with('…'));
}

#[test]
fn matches_connection_errors() {
    let patterns = default_connection_failure_patterns();
    assert_eq!(
        matches_connection_failure("dial tcp 127.0.0.1:11434: connect: connection refused", &patterns),
        Some("connection refused".to_string())
    );
    assert!(matches_connection_failure("patch applied cleanly", &patterns).is_none());
}

#[test]
fn format_secret_redacts_configured_values() {
    assert_eq!(format_configured_secret(None), "(not set)");
    assert_eq!(format_configured_secret(Some("")), "(not set)");
    assert_eq!(format_configured_secret(Some("replace-with-your-api-key")), "(not set)");
    assert_eq!(format_configured_secret(Some("sk-test")), "Configured (redacted)");
}

#[test]
fn skips_noise_discovery_events() {
    assert!(is_noise_event("watch_heartbeat"));
    assert!(is_noise_event("endpoint_heartbeat"));
    assert!(!is_noise_event("rate_limit_structured"));
}

#[test]
fn matches_configured_patterns() {
    let patterns = default_rate_limit_patterns();
    assert_eq!(
        matches_rate_limit("You are out of messages for today", &patterns),
        Some("out of messages".to_string())
    );
    assert!(matches_rate_limit("everything is fine", &patterns).is_none());
}

#[test]
fn flags_quota_like_text() {
    assert!(looks_interesting("You are out of messages for this cycle"));
    assert!(!looks_interesting("Applied patch to src/main.rs"));
}

use codex_launchpad::app_logic::bootstrap_launcher_from_codex;
use codex_launchpad::lpad_config::CodexConfigInspection;
use codex_launchpad::config::{ConfigError, LauncherConfig};
use codex_launchpad::diagnose::{check_lines, CheckResult};
use codex_launchpad::discovery_log::effective_limit;
use codex_launchpad::failover::FailoverError;
use codex_launchpad::launcher::LauncherError;
use codex_launchpad::lpad_thread_store::{newest_rows, session_ids, SessionIndexRow};
use codex_launchpad::ollama::OllamaError;
use codex_launchpad::session_monitor::{failed_listing, listing_from_store, preview_of};
use codex_launchpad::web_backend::log_entry;

fn row(id: &str, at: Option<&str>) -> SessionIndexRow {
    SessionIndexRow { id: id.to_string(), thread_name: None, updated_at: at.map(|s| s.to_string()) }
}

#[test]
fn session_rows_newest_first_and_stable() {
    let rows = vec![
        row("a", Some("2026-06-01T10:00:00Z")),
        row("b", None),
        row("c", Some("2026-06-02T10:00:00Z")),
        row("d", Some("2026-06-01T10:00:00Z")),
    ];
    let ids: Vec<String> = newest_rows(rows, 10).into_iter().map(|r| r.id).collect();
    assert_eq!(ids, vec!["c", "a", "d", "b"]);
    let limited = newest_rows(vec![row("x", Some("1")), row("y", Some("2"))], 0);
    assert_eq!(limited.len(), 1);
    assert_eq!(limited[0].id, "y");
    let pairs = session_ids(vec![row("x", Some("t"))]);
    assert_eq!(pairs, vec![("x".to_string(), Some("t".to_string()))]);
}

#[test]
fn limits_are_clamped() {
    assert_eq!(effective_limit(0), 1);
    assert_eq!(effective_limit(50), 50);
    assert_eq!(effective_limit(1000), 200);
}

#[test]
fn check_lines_show_status_and_detail() {
    let failed = CheckResult { name: "Codex API health".to_string(), success: false, status: Some(503), detail: "HTTP 503".to_string() };
    assert_eq!(check_lines(&failed), vec!["FAIL  Codex API health [503]".to_string(), "      HTTP 503".to_string()]);
    let ok = CheckResult { name: "Config file parses".to_string(), success: true, status: None, detail: "x".to_string() };
    assert_eq!(check_lines(&ok), vec!["PASS  Config file parses".to_string()]);
}

#[test]
fn log_lines_are_split_and_redacted() {
    let (level, message) = log_entry("[WARN]  token Bearer abc ");
    assert_eq!(level, "WARN");
    assert_eq!(message, "token Bearer <redacted>");
    let (level, message) = log_entry("plain line");
    assert_eq!(level, "INFO");
    assert_eq!(message, "plain line");
    assert_eq!(log_entry("[unterminated").0, "INFO");
}

#[test]
fn previews_and_listings() {
    let p = preview_of("assistant".to_string(), true, "short");
    assert_eq!(p.content, "short");
    let long = "x".repeat(600);
    let p = preview_of("assistant".to_string(), false, &long);
    assert_eq!(p.content.len(), 480 + '…'.len_utf8());
    let listing = listing_from_store(vec![("s1".to_string(), None), ("s2".to_string(), Some("t".to_string()))]);
    assert_eq!(listing.sessions.len(), 2);
    assert_eq!(listing.sessions[1].session_id, "s2");
    assert!(listing.error.is_none());
    let failed = failed_listing("boom".to_string());
    assert!(failed.sessions.is_empty());
    assert_eq!(failed.error.as_deref(), Some("boom"));
}

#[test]
fn error_messages() {
    assert_eq!(ConfigError::MissingApiKey.message(), "config.json must set apiKey");
    assert_eq!(
        ConfigError::Missing("c.json".to_string()).message(),
        "missing config file: c.json; copy config.example.json to config.json and fill it in"
    );
    assert_eq!(OllamaError::CacheExpired.message(), "model cache expired");
    assert_eq!(
        OllamaError::NoModelsDiscovered("u".to_string()).message(),
        "no Ollama models were discovered from u"
    );
    assert_eq!(LauncherError::CodexNotFound.message(), "could not find Codex; set codexCommand in config.json");
    assert_eq!(FailoverError::ProfileNotFound("p".to_string()).message(), "Failover profile 'p' was not found");
}

#[test]
fn bootstrap_adopts_model_and_endpoint() {
    let mut config: LauncherConfig = LauncherConfig {
        auto_start: None, openai_base_url: None, ollama_ip: None, ollama_port: None, ollama_scheme: None,
        api_key: None, persist_codex_config: None, codex_model: None, codex_provider_id: None,
        codex_provider_name: None, codex_api_key_mode: None, codex_config_path: None, codex_command: None,
        codex_api_port: None, codex_api_scheme: None, discover_ollama_models: None, codex_args: None,
        working_directory: None, failover: None, profiles: None,
    };
    let inspection = CodexConfigInspection {
        config_path: "c".to_string(),
        exists: true,
        model: Some("llama3.2".to_string()),
        model_provider: Some("launchpadx".to_string()),
        managed_by_launcher: true,
        launcher_base_url: Some("http://127.0.0.1:11434/v1".to_string()),
        restore_state_available: false,
    };
    let changes = bootstrap_launcher_from_codex(&mut config, &inspection);
    assert_eq!(changes, vec![
        "Adopted Codex model: llama3.2".to_string(),
        "Adopted Codex endpoint: http://127.0.0.1:11434/v1".to_string(),
    ]);
    assert_eq!(config.codex_model.as_deref(), Some("llama3.2"));
    let again = bootstrap_launcher_from_codex(&mut config, &inspection);
    assert!(again.is_empty());
}

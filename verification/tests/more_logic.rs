use codex_launchpad::acp_client::{
    close_status_ok, is_success, user_message, AcpClient, AcpError, MessageResponse, SessionInfo,
};
use codex_launchpad::session_monitor::{listing_with_previews, preview_count};
use codex_launchpad::codex_monitor::CodexMonitor;
use codex_launchpad::config::{FailoverSettings, LauncherConfig};
use codex_launchpad::connection_watch::{answered_probe, failed_probe, probe_target};
use codex_launchpad::discovery_log::{discovery_entry, tail_entries, DEFAULT_LIMIT};
use codex_launchpad::envvars::expand_env_vars;
use codex_launchpad::process_util::{should_ignore_codex_pid, TransientPids};
use codex_launchpad::web_backend::content_type_for;
use codex_launchpad::failover::{checkpoint_session, failover_result};
use codex_launchpad::ipc::{ipc_command, ipc_command_name, unknown_command_message, IpcCommand};
use codex_launchpad::launcher::{is_blocked_windowsapps_cli, is_packaged_codex_resource, tasklist_shows_codex};
use codex_launchpad::lpad_app_server::{
    format_window_usage, rate_limits_from_app_server, rate_limits_unavailable, thread_list_from_app_server, thread_list_from_store, thread_list_unavailable,
    CodexRateLimits, RateLimitWindow,
};
use codex_launchpad::lpad_config::is_local_base_url;
use codex_launchpad::lpad_monitor::{session_fingerprint, should_probe_endpoint};
use codex_launchpad::lpad_thread_store::{extract_rollout_id, thread_summaries, uuid_like, SessionIndexRow};
use codex_launchpad::ollama::cache_expired;
use codex_launchpad::session_checkpoint::ProviderModeKind;

fn config_with_ip(ip: &str) -> LauncherConfig {
    let mut c = LauncherConfig::default();
    c.ollama_ip = Some(ip.to_string());
    c
}

#[test]
fn ipc_names_round_trip() {
    let all = [
        IpcCommand::Launch,
        IpcCommand::Stop,
        IpcCommand::SaveConfig,
        IpcCommand::LoadConfig,
        IpcCommand::HealthCheck,
        IpcCommand::ListModels,
        IpcCommand::RefreshModels,
        IpcCommand::WriteCodexConfig,
        IpcCommand::RevertCodexConfig,
        IpcCommand::DetectCodex,
        IpcCommand::KillCodexByPid,
    ];
    for c in all {
        assert_eq!(ipc_command(ipc_command_name(c)), Some(c));
    }
    assert_eq!(ipc_command_name(IpcCommand::KillCodexByPid), "kill_codex_by_pid");
    assert_eq!(ipc_command("launch"), Some(IpcCommand::Launch));
    assert_eq!(ipc_command("Launch"), None);
    assert_eq!(ipc_command(""), None);
    assert_eq!(unknown_command_message("dance"), "Unknown command: dance");
}

#[test]
fn acp_routes_and_key() {
    let client = AcpClient::with_base_url("http://127.0.0.1:4000", "k1");
    assert_eq!(client.sessions_url(), "http://127.0.0.1:4000/sessions");
    assert_eq!(client.session_url("s9"), "http://127.0.0.1:4000/sessions/s9");
    assert_eq!(client.messages_url("s9"), "http://127.0.0.1:4000/sessions/s9/messages");
    assert_eq!(client.response_url("s9"), "http://127.0.0.1:4000/sessions/s9/response");
    assert_eq!(client.authorization(), "Bearer k1");
    assert!(client.is_configured());
    assert!(!AcpClient::with_base_url("x", "").is_configured());

    let mut config = LauncherConfig::default();
    config.codex_api_port = Some(4100);
    config.api_key = Some("secret".to_string());
    let from = AcpClient::from_config(&config);
    assert_eq!(from.base_url, "http://127.0.0.1:4100");
    assert_eq!(from.api_key, "secret");
    let unset = AcpClient::from_config(&LauncherConfig::default());
    assert_eq!(unset.base_url, "http://127.0.0.1:4000");
    assert_eq!(unset.api_key, "");

    let m = user_message("s1", "hi");
    assert_eq!((m.session_id.as_str(), m.content.as_str(), m.role.as_str()), ("s1", "hi", "user"));
    assert!(is_success(200) && is_success(299) && !is_success(300) && !is_success(199));
    assert!(close_status_ok(404) && close_status_ok(204) && !close_status_ok(500));
}

#[test]
fn probe_targets_and_results() {
    let target = probe_target(&config_with_ip("10.0.0.5"), "t0".to_string());
    assert_eq!(target.ok(), Some("http://10.0.0.5:11434/api/tags".to_string()));

    let missing = probe_target(&LauncherConfig::default(), "t1".to_string()).unwrap_err();
    assert_eq!(missing.checked_at, "t1");
    assert!(!missing.reachable);
    assert!(missing.endpoint_url.is_none());
    assert_eq!(missing.error.as_deref(), Some("config.json must set either openaiBaseUrl or ollamaIp"));

    let mut odd = LauncherConfig::default();
    odd.openai_base_url = Some("https://example.com".to_string());
    assert_eq!(probe_target(&odd, "t2".to_string()).ok(), Some("https://example.com/api/tags".to_string()));

    let ok = answered_probe("t3".to_string(), "u".to_string(), 200, 12, Some(4));
    assert!(ok.reachable);
    assert_eq!((ok.status_code, ok.latency_ms, ok.model_count), (Some(200), Some(12), Some(4)));
    assert!(ok.error.is_none());
    let bad = answered_probe("t3".to_string(), "u".to_string(), 503, 7, Some(4));
    assert!(!bad.reachable);
    assert_eq!(bad.error.as_deref(), Some("HTTP 503"));
    assert_eq!(bad.model_count, None);

    let down = failed_probe("t4".to_string(), Some("u".to_string()), Some(30), "refused".to_string());
    assert!(!down.reachable);
    assert_eq!(down.status_code, None);
    assert_eq!(down.latency_ms, Some(30));
    assert_eq!(down.error.as_deref(), Some("refused"));
}

#[test]
fn codex_monitor_polls_and_raises_alerts() {
    let mut settings = FailoverSettings::default();
    settings.enabled = true;
    let mut monitor = CodexMonitor::new("c.toml".to_string(), "/r".to_string(), &settings);
    assert!(monitor.status().monitoring);
    assert!(monitor.begin_poll(&settings, ProviderModeKind::CodexAccount, "t1".to_string()));
    assert_eq!(monitor.status().last_poll_at.as_deref(), Some("t1"));
    assert!(!monitor.begin_poll(&settings, ProviderModeKind::LocalApi, "t2".to_string()));

    assert!(!monitor.observe_response(&settings, "s1", "all good", "t3".to_string()));
    assert!(monitor.status().active_alert.is_none());

    assert!(monitor.observe_response(&settings, "s1", "Error: Rate Limit reached", "t4".to_string()));
    let alert = monitor.status().active_alert.as_ref().expect("alert");
    assert_eq!(alert.matched_pattern, "rate limit");
    assert_eq!(alert.source, "session_response");
    assert_eq!(alert.session_id.as_deref(), Some("s1"));
    assert_eq!(monitor.status().recent_alerts.len(), 1);

    // The same snippet again is not recorded twice.
    assert!(monitor.observe_response(&settings, "s1", "Error: Rate Limit reached", "t5".to_string()));
    assert_eq!(monitor.status().recent_alerts.len(), 1);

    monitor.dismiss_alert();
    assert!(monitor.status().active_alert.is_none());
    monitor.record_error("boom".to_string());
    assert_eq!(monitor.status().last_error.as_deref(), Some("boom"));
    monitor.clear_error();
    assert!(monitor.status().last_error.is_none());

    let mut off = FailoverSettings::default();
    off.enabled = false;
    assert!(!monitor.begin_poll(&off, ProviderModeKind::CodexAccount, "t6".to_string()));
    assert!(!monitor.status().monitoring);
}

#[test]
fn thread_lists_from_the_store() {
    let rows = vec![
        SessionIndexRow { id: "a".to_string(), thread_name: Some("first".to_string()), updated_at: Some("t".to_string()) },
        SessionIndexRow { id: "b".to_string(), thread_name: None, updated_at: None },
    ];
    let paths = vec![("b".to_string(), "/x/b.jsonl".to_string()), ("b".to_string(), "/y/b.jsonl".to_string())];
    let summaries = thread_summaries(rows, &paths);
    assert_eq!(summaries.len(), 2);
    assert_eq!(summaries[0].id, "a");
    assert_eq!(summaries[0].name.as_deref(), Some("first"));
    assert_eq!(summaries[0].status.as_deref(), Some("stored"));
    assert_eq!(summaries[0].path, None);
    assert_eq!(summaries[0].created_at.as_deref(), Some("t"));
    assert_eq!(summaries[1].path.as_deref(), Some("/x/b.jsonl"));
    assert!(summaries[1].model.is_none());

    let listed = thread_list_from_store("now".to_string(), summaries);
    assert!(listed.ok);
    assert_eq!(listed.source, "codex ~/.codex/session_index.jsonl");
    assert_eq!(listed.threads.len(), 2);

    let none = thread_list_unavailable("now".to_string(), &vec!["codex".to_string(), "codex-app".to_string()]);
    assert!(!none.ok);
    assert_eq!(none.codex_cli.as_deref(), Some("codex"));
    assert_eq!(none.error.as_deref(), Some("Could not reach Codex app-server or read local session index."));
    assert!(none.threads.is_empty());
    assert!(thread_list_unavailable("now".to_string(), &Vec::new()).codex_cli.is_none());
}

#[test]
fn rollout_ids_need_uuid_shape() {
    let id = "0199a5b2-1c3d-7e4f-8a9b-0c1d2e3f4a5b";
    assert!(uuid_like(id));
    assert!(!uuid_like("0199a5b2x1c3d-7e4f-8a9b-0c1d2e3f4a5b"));
    assert!(!uuid_like("short"));
    let name = format!("rollout-2026-01-01T00-00-00-{id}.jsonl");
    assert_eq!(extract_rollout_id(&name), Some(id.to_string()));
    assert_eq!(extract_rollout_id("rollout.json"), None);
    assert_eq!(extract_rollout_id("short.jsonl"), None);
}

#[test]
fn failover_reports_and_checkpoint_choice() {
    let r = failover_result("backup".to_string(), "Launched Codex.", None);
    assert_eq!(
        r.message,
        "Failover complete via profile 'backup'. Launched Codex. Paste the resume prompt into Codex to continue."
    );
    assert_eq!(r.profile_name, "backup");
    assert!(r.resume_prompt.is_none());
    let sessions = vec![
        SessionInfo { session_id: "s1".to_string(), created_at: None },
        SessionInfo { session_id: "s2".to_string(), created_at: None },
    ];
    assert_eq!(checkpoint_session(&sessions), Some(1));
    assert_eq!(checkpoint_session(&Vec::new()), None);
}

#[test]
fn small_rules_of_the_monitors() {
    assert_eq!(session_fingerprint("assistant", true, "hi"), "assistant:true:hi");
    assert_eq!(session_fingerprint("user", false, ""), "user:false:");
    assert!(should_probe_endpoint(ProviderModeKind::LocalApi, 3));
    assert!(should_probe_endpoint(ProviderModeKind::CodexAccount, 4));
    assert!(!should_probe_endpoint(ProviderModeKind::CodexAccount, 5));
    assert!(!cache_expired(1000, Some(800)));
    assert!(cache_expired(1000, Some(699)));
    assert!(!cache_expired(1000, None));
    assert!(!cache_expired(100, Some(500)));
}

#[test]
fn window_usage_labels() {
    let w = |p: Option<&str>, mins: Option<u32>| RateLimitWindow {
        used_percent: p.map(|s| s.to_string()),
        window_duration_mins: mins,
        resets_at: None,
    };
    assert_eq!(format_window_usage(&w(Some("42"), Some(300))), "5h 42% used");
    assert_eq!(format_window_usage(&w(Some("7"), Some(10_080))), "weekly 7% used");
    assert_eq!(format_window_usage(&w(None, Some(43_200))), "monthly unavailable");
    assert_eq!(format_window_usage(&w(Some("1"), Some(60))), "short-term 1% used");
    assert_eq!(format_window_usage(&w(Some("1"), None)), "window 1% used");
}

#[test]
fn path_and_host_checks() {
    assert!(is_local_base_url("http://LOCALHOST:11434/v1"));
    assert!(is_local_base_url("http://[::1]:8080"));
    assert!(!is_local_base_url("https://ollama.com/v1"));
    assert!(is_blocked_windowsapps_cli("C:/Program Files/WindowsApps/OpenAI.Codex_1.0/codex.exe"));
    assert!(!is_blocked_windowsapps_cli("C:\\tools\\codex.exe"));
    assert!(is_packaged_codex_resource(
        "C:\\Program Files\\WindowsApps\\OpenAI.Codex_1.0\\app\\resources\\codex.exe"
    ));
    assert!(!is_packaged_codex_resource("C:\\Program Files\\WindowsApps\\OpenAI.Codex_1.0\\codex.exe"));
    assert!(tasklist_shows_codex("\"Codex.exe\",\"1234\""));
    assert!(!tasklist_shows_codex("INFO: No tasks are running"));
}

#[test]
fn tails_and_sorts_discovery_entries() {
    let older = discovery_entry(
        "rateLimit",
        "rate-limit-discovery.jsonl",
        Some("older".to_string()),
        Some("2026-01-01T00:00:00Z".to_string()),
        r#"{"note":"a"}"#.to_string(),
    )
    .expect("entry");
    let newer = discovery_entry(
        "rateLimit",
        "rate-limit-discovery.jsonl",
        Some("newer".to_string()),
        Some("2026-06-01T12:00:00Z".to_string()),
        r#"{"note":"b"}"#.to_string(),
    )
    .expect("entry");
    let entries = tail_entries(vec![older, newer], DEFAULT_LIMIT);
    let newer_idx = entries.iter().position(|entry| entry.event == "newer");
    let older_idx = entries.iter().position(|entry| entry.event == "older");
    assert_eq!(entries.len(), 2);
    assert!(newer_idx.unwrap() < older_idx.unwrap());
}

#[test]
fn discovery_entries_default_and_skip_noise() {
    assert!(discovery_entry("connection", "f", Some("watch_heartbeat".to_string()), None, "{}".to_string()).is_none());
    let e = discovery_entry("connection", "f", None, None, "{}".to_string()).expect("entry");
    assert_eq!((e.stream.as_str(), e.source.as_str(), e.event.as_str(), e.at.as_str()), ("connection", "f", "unknown", ""));
    assert_eq!(e.details, "{}");
}

#[test]
fn log_view_orders_by_instant_and_limits() {
    let mk = |event: &str, at: &str| {
        discovery_entry("rateLimit", "f", Some(event.to_string()), Some(at.to_string()), "{}".to_string()).expect("entry")
    };
    let entries = vec![
        mk("bad", "not a time"),
        mk("early", "2026-01-01T00:00:00Z"),
        mk("offset", "2026-01-01T02:00:00+03:00"),
        mk("late", "2026-01-01T00:00:00.5Z"),
        mk("early_again", "2026-01-01T00:00:00Z"),
    ];
    let events: Vec<String> = tail_entries(entries, 10).into_iter().map(|e| e.event).collect();
    assert_eq!(events, vec!["late", "early", "early_again", "offset", "bad"]);
    let one = tail_entries(vec![mk("a", "2026-01-01T00:00:00Z"), mk("b", "2027-01-01T00:00:00Z")], 0);
    assert_eq!(one.len(), 1);
    assert_eq!(one[0].event, "b");
}

#[test]
fn session_previews_follow_replies() {
    assert_eq!(preview_count(3), 3);
    assert_eq!(preview_count(40), 12);
    let sessions = vec![
        SessionInfo { session_id: "s1".to_string(), created_at: Some("t1".to_string()) },
        SessionInfo { session_id: "s2".to_string(), created_at: None },
        SessionInfo { session_id: "s3".to_string(), created_at: None },
    ];
    let replies = vec![
        Ok(MessageResponse { session_id: "s1".to_string(), content: "y".repeat(500), role: "assistant".to_string(), done: true }),
        Err(AcpError::Timeout.message()),
    ];
    let listing = listing_with_previews(&sessions, replies);
    assert!(listing.error.is_none());
    assert_eq!(listing.sessions.len(), 2);
    let first = &listing.sessions[0];
    assert_eq!(first.session_id, "s1");
    assert_eq!(first.created_at.as_deref(), Some("t1"));
    let preview = first.preview.as_ref().expect("preview");
    assert_eq!(preview.role, "assistant");
    assert!(preview.done);
    assert_eq!(preview.content, format!("{}…", "y".repeat(480)));
    assert!(first.preview_error.is_none());
    assert!(listing.sessions[1].preview.is_none());
    assert_eq!(listing.sessions[1].preview_error.as_deref(), Some("timeout waiting for response"));
}

#[test]
fn acp_errors_are_worded() {
    assert_eq!(AcpError::Request("x".to_string()).message(), "request failed: x");
    assert_eq!(AcpError::Decode("y".to_string()).message(), "decode failed: y");
    assert_eq!(AcpError::SessionNotFound("z".to_string()).message(), "session not found: z");
    assert_eq!(AcpError::InvalidResponse.message(), "invalid response from server");
    assert_eq!(AcpError::CodexNotRunning.message(), "codex is not running");
}

#[test]
fn thread_list_from_the_app_server() {
    let status = thread_list_from_app_server("now".to_string(), "codex", Vec::new());
    assert!(status.ok);
    assert_eq!(status.source, "codex app-server thread/list");
    assert_eq!(status.codex_cli.as_deref(), Some("codex"));
    assert!(status.error.is_none());
}

#[test]
fn rate_limit_readings_from_the_app_server() {
    let limits = CodexRateLimits {
        limit_id: Some("codex".to_string()),
        limit_name: None,
        primary: None,
        secondary: None,
        credits: None,
        individual_limit: None,
        spend_control_reached: None,
        plan_type: Some("plus".to_string()),
        rate_limit_reached_type: None,
    };
    let ok = rate_limits_from_app_server("t".to_string(), "codex", Some(limits), None);
    assert!(ok.ok);
    assert_eq!(ok.source, "codex app-server account/rateLimits/read");
    assert_eq!(ok.codex_cli.as_deref(), Some("codex"));
    assert_eq!(ok.requires_auth, Some(false));
    assert_eq!(ok.plan_type.as_deref(), Some("plus"));
    let none = rate_limits_unavailable("t".to_string(), &vec!["codex".to_string(), "/opt/codex".to_string()]);
    assert!(!none.ok);
    assert_eq!(none.codex_cli.as_deref(), Some("codex"));
    assert_eq!(none.error.as_deref(), Some("Codex app-server unavailable. Checked: codex, /opt/codex"));
    assert!(none.rate_limits.is_none() && none.plan_type.is_none() && none.requires_auth.is_none());
}

#[test]
fn env_vars_expand_in_three_forms() {
    let vars = vec![("HOME".to_string(), "/h".to_string())];
    assert_eq!(expand_env_vars("%HOME%/x", &vars), "/h/x");
    assert_eq!(expand_env_vars("${HOME}/y and $HOME", &vars), "/h/y and /h");
    assert_eq!(expand_env_vars("é%HOME%", &vars), "é/h");
    // An occurrence glued to a letter is not replaced, and the search goes on
    // past it without keeping the text before it.
    assert_eq!(expand_env_vars("a%HOME%", &vars), "HOME%");
    assert_eq!(expand_env_vars("no variables", &vars), "no variables");
    assert_eq!(expand_env_vars("%HOME%", &Vec::new()), "%HOME%");
}

#[test]
fn packaged_codex_resource_matches_store_shim() {
    let path = r"C:\Program Files\WindowsApps\OpenAI.Codex_1.2.3.0_x64__8wekyb3d8bbwe\app\resources\codex.exe";
    assert!(is_packaged_codex_resource(path));
}

#[test]
fn packaged_codex_resource_ignores_standalone_install() {
    let path = r"C:\Users\alice\AppData\Local\Programs\Codex\Codex.exe";
    assert!(!is_packaged_codex_resource(path));
}

#[test]
fn blocks_windowsapps_shim_paths() {
    let path = r"C:\Program Files\WindowsApps\OpenAI.Codex_26.623.8305.0_x64__2p2nqsd0c76g0\app\resources\codex.exe";
    assert!(is_blocked_windowsapps_cli(path));
}

#[test]
fn creates_client_from_config() {
    let config = LauncherConfig::default();
    let client = AcpClient::from_config(&config);
    assert_eq!(client.base_url, "http://127.0.0.1:4000");
}

#[test]
fn codex_config_path_sits_under_home() {
    let p = codex_launchpad::lpad_config::codex_config_path_under(Some("/home/a".to_string())).ok().expect("path");
    assert!(p.ends_with("config.toml"));
    assert!(p.contains(".codex"));
    assert!(matches!(
        codex_launchpad::lpad_config::codex_config_path_under(None),
        Err(codex_launchpad::lpad_config::CodexConfigError::MissingHome)
    ));
}

#[test]
fn media_types_follow_the_file_name() {
    assert_eq!(content_type_for("dist/dir.d/"), "application/octet-stream");
    assert_eq!(content_type_for("dist/app.css/."), "text/css");
    assert_eq!(content_type_for("dist/.hidden"), "application/octet-stream");
    assert_eq!(content_type_for("dist/.config.json"), "application/json");
    assert_eq!(content_type_for("dist/a.png/.."), "application/octet-stream");
    assert_eq!(content_type_for("dist/name."), "application/octet-stream");
}

#[test]
fn pid_zero_is_never_a_probe() {
    let registry = TransientPids::new();
    let probe = "codex app-server --listen stdio://";
    assert!(!should_ignore_codex_pid(&registry, 0, Some(probe)));
    assert!(should_ignore_codex_pid(&registry, 42, Some(probe)));
}

#[test]
fn pid_file_sits_next_to_the_config() {
    assert_eq!(codex_launchpad::app_logic::lpad_pid_file("/c/config.json"), "/c/config.pid");
    assert_eq!(codex_launchpad::app_logic::lpad_pid_file("/c/config"), "/c/config.pid");
    assert_eq!(codex_launchpad::app_logic::lpad_pid_file("/"), "/");
    assert_eq!(codex_launchpad::app_logic::lpad_pid_file("/opt/lpx/config.json"), "/opt/lpx/config.pid");
    assert_eq!(codex_launchpad::app_logic::lpad_pid_file("/c/config.json/"), "/c/config.pid");
    assert_eq!(codex_launchpad::app_logic::lpad_pid_file("/c/.launchpad"), "/c/.launchpad.pid");
}

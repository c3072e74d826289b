use codex_launchpad::cli::Args;
use codex_launchpad::lpad_thread_store::extract_rollout_id;
use codex_launchpad::ollama::derive_ollama_api_root;
use codex_launchpad::process_util::{
    is_app_server_probe_command, is_transient_helper_pid, register_transient_helper_pid,
    unregister_transient_helper_pid, TransientPids,
};
use codex_launchpad::session_checkpoint::{detect_goal_from_text, ProviderModeKind, SessionCheckpoint};
use codex_launchpad::web_backend::redact_sensitive_text;

#[test]
fn default_args_are_empty() {
    let args = Args::default();
    assert!(!args.gui);
    assert!(!args.serve_only);
    assert!(args.port.is_none());
    assert!(!args.write_config_only);
    assert!(!args.restore);
    assert!(!args.refresh_models);
    assert!(!args.list_models);
    assert!(!args.launch);
    assert!(!args.launch_wait);
    assert!(!args.kill);
    assert!(!args.health);
    assert!(!args.diagnose);
    assert!(!args.build_check);
    assert!(args.session_create.is_none());
    assert!(args.session_send.is_none());
    assert!(args.session_response.is_none());
    assert!(args.session_close.is_none());
    assert!(!args.session_list);
    assert!(!args.needs_async());
}

#[test]
fn health_flag_needs_async() {
    let args = Args {
        health: true,
        ..Args::default()
    };
    assert!(args.needs_async());
}

#[test]
fn extracts_rollout_id_from_filename() {
    let id = extract_rollout_id("rollout-2026-05-27T13-52-37-019e6ac7-fd7b-7f13-8b5f-830851de21db.jsonl")
        .expect("id");
    assert_eq!(id, "019e6ac7-fd7b-7f13-8b5f-830851de21db");
}

#[test]
fn derives_api_root_from_v1_base_url() {
    assert_eq!(
        derive_ollama_api_root("http://127.0.0.1:11434/v1").expect("api root"),
        "http://127.0.0.1:11434/api"
    );
    assert_eq!(
        derive_ollama_api_root("https://example.com/custom/v1/").expect("api root"),
        "https://example.com/custom/api"
    );
}

#[test]
fn preserves_existing_api_root() {
    assert_eq!(
        derive_ollama_api_root("https://ollama.com/api").expect("api root"),
        "https://ollama.com/api"
    );
}

#[test]
fn rejects_unrecognized_base_url() {
    assert!(derive_ollama_api_root("https://example.com").is_err());
}

#[test]
fn detects_stdio_app_server_probes() {
    assert!(is_app_server_probe_command(r#"C:\Users\me\codex.exe app-server --listen stdio://"#));
    assert!(is_app_server_probe_command("/usr/local/bin/codex app-server --listen stdio://"));
    assert!(!is_app_server_probe_command(r#"C:\Program Files\Codex\Codex.exe"#));
    assert!(!is_app_server_probe_command("codex"));
}

#[test]
fn transient_pid_registry_round_trips() {
    let mut registry = TransientPids::new();
    register_transient_helper_pid(&mut registry, 424242);
    assert!(is_transient_helper_pid(&registry, 424242));
    unregister_transient_helper_pid(&mut registry, 424242);
    assert!(!is_transient_helper_pid(&registry, 424242));
}

#[test]
fn builds_resume_prompt_with_goal() {
    let checkpoint = SessionCheckpoint {
        id: "test".to_string(),
        captured_at: "2026-06-01T10:00:00+00:00".to_string(),
        thread_id: None,
        session_id: Some("sess_1".to_string()),
        working_directory: Some("/tmp/project".to_string()),
        provider_mode: ProviderModeKind::CodexAccount,
        model: Some("gpt-5".to_string()),
        active_goal: Some("/goal fix the auth bug".to_string()),
        last_user_message: Some("keep going".to_string()),
        last_assistant_summary: Some("updated login handler".to_string()),
        git_branch: Some("feature/auth".to_string()),
        trigger: "manual".to_string(),
        resume_prompt: String::new(),
    };

    let prompt = checkpoint.build_resume_prompt();
    assert!(prompt.contains("/goal fix the auth bug"));
    assert!(prompt.contains("feature/auth"));
}

#[test]
fn detects_goal_prefix() {
    assert_eq!(
        detect_goal_from_text("  /goal ship failover\nnext line"),
        Some("/goal ship failover".to_string())
    );
}

#[test]
fn redacts_json_api_keys() {
    let input = r#"{"apiKey":"secret-value","nested":{"api_key":"abc123"}}"#;
    let output = redact_sensitive_text(input);
    assert!(!output.contains("secret-value"));
    assert!(!output.contains("abc123"));
    assert!(output.contains(r#""apiKey":"<redacted>""#));
    assert!(output.contains(r#""api_key":"<redacted>""#));
}

#[test]
fn redacts_bearer_and_env_tokens() {
    let input = "Authorization: Bearer secret-token OPENAI_API_KEY=super-secret";
    let output = redact_sensitive_text(input);
    assert!(!output.contains("secret-token"));
    assert!(!output.contains("super-secret"));
    assert!(output.contains("Bearer <redacted>"));
    assert!(output.contains("OPENAI_API_KEY=<redacted>"));
}

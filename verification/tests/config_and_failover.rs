use codex_launchpad::config::{ApiKeyMode, ConfigError, FailoverSettings, LauncherConfig, ProfileOverlay};
use codex_launchpad::failover::{
    apply_profile_overlay, failover_settings, local_overlay_from_config, resolve_fallback_profile, FailoverError,
};
use codex_launchpad::web_backend::{content_type_for, redact_quoted_field, redact_token_after_marker};

fn overlay(ip: &str) -> ProfileOverlay {
    ProfileOverlay {
        openai_base_url: None,
        ollama_ip: Some(ip.to_string()),
        ollama_port: Some(8080),
        ollama_scheme: None,
        api_key: None,
        codex_model: Some("qwen".to_string()),
        codex_provider_id: None,
        codex_provider_name: None,
        codex_api_key_mode: None,
        working_directory: None,
    }
}

#[test]
fn base_urls_from_host_or_url() {
    let mut c = LauncherConfig::default();
    assert!(matches!(c.openai_base_url(), Err(ConfigError::MissingBaseUrl)));
    c.ollama_ip = Some(" 10.1.2.3 ".to_string());
    assert_eq!(c.openai_base_url().ok().as_deref(), Some("http://10.1.2.3:11434/v1"));
    c.ollama_scheme = Some("https".to_string());
    c.ollama_port = Some(443);
    assert_eq!(c.openai_base_url().ok().as_deref(), Some("https://10.1.2.3:443/v1"));
    c.ollama_ip = Some("fe80::1".to_string());
    assert_eq!(c.openai_base_url().ok().as_deref(), Some("https://[fe80::1]:443/v1"));
    c.ollama_ip = Some("http://box:11434/".to_string());
    assert_eq!(c.openai_base_url().ok().as_deref(), Some("http://box:11434/v1"));
    c.ollama_ip = Some("100.64.0.10".to_string());
    assert!(matches!(c.openai_base_url(), Err(ConfigError::ExampleOllamaIp)));
    let mut d = LauncherConfig::default();
    d.openai_base_url = Some("https://gw.example/v1//".to_string());
    assert_eq!(d.openai_base_url().ok().as_deref(), Some("https://gw.example/v1"));
}

#[test]
fn api_keys_and_defaults() {
    let mut c = LauncherConfig::default();
    assert!(matches!(c.api_key(), Err(ConfigError::MissingApiKey)));
    assert_eq!(c.api_key_if_configured(), None);
    c.api_key = Some("replace-with-your-api-key".to_string());
    assert!(matches!(c.api_key(), Err(ConfigError::ExampleApiKey)));
    assert_eq!(c.api_key_if_configured(), None);
    c.api_key = Some("  k  ".to_string());
    assert_eq!(c.api_key().ok().as_deref(), Some("k"));
    assert_eq!(c.codex_provider_id(), "codex-launchpad");
    assert_eq!(c.codex_provider_name(), "Codex Launchpad");
    assert_eq!(c.codex_api_key_mode(), ApiKeyMode::ExperimentalBearerToken);
    assert_eq!(c.codex_api_base_url(), "http://127.0.0.1:4000");
}

#[test]
fn merging_keeps_unset_fields() {
    let mut a = LauncherConfig::default();
    a.ollama_ip = Some("1.1.1.1".to_string());
    a.codex_model = Some("m1".to_string());
    let mut b = LauncherConfig::default();
    b.codex_model = Some("m2".to_string());
    a.merge_from(&b);
    assert_eq!(a.ollama_ip.as_deref(), Some("1.1.1.1"));
    assert_eq!(a.codex_model.as_deref(), Some("m2"));
}

#[test]
fn fallback_profiles_are_chosen_in_order() {
    let mut c = LauncherConfig::default();
    assert!(matches!(resolve_fallback_profile(&c, None), Err(FailoverError::NoLocalEndpoint)));
    assert_eq!(
        FailoverError::NoLocalEndpoint.message(),
        "No local endpoint is configured in this launcher's settings yet."
    );
    c.ollama_ip = Some("10.0.0.9".to_string());
    let (name, o) = resolve_fallback_profile(&c, None).ok().expect("local");
    assert_eq!(name, "launcher-local");
    assert_eq!(o.ollama_ip.as_deref(), Some("10.0.0.9"));
    assert_eq!(o.codex_provider_id.as_deref(), Some("codex-launchpad"));

    c.profiles = Some(vec![("gpu".to_string(), overlay("10.0.0.2")), ("cpu".to_string(), overlay("10.0.0.3"))]);
    let mut settings = FailoverSettings::default();
    settings.fallback_chain = vec!["cpu".to_string()];
    c.failover = Some(settings);
    assert_eq!(failover_settings(&c).fallback_chain, vec!["cpu".to_string()]);
    let (name, o) = resolve_fallback_profile(&c, None).ok().expect("chain");
    assert_eq!(name, "cpu");
    assert_eq!(o.ollama_ip.as_deref(), Some("10.0.0.3"));
    let (name, _) = resolve_fallback_profile(&c, Some("gpu")).ok().expect("named");
    assert_eq!(name, "gpu");
    match resolve_fallback_profile(&c, Some("tpu")) {
        Err(FailoverError::ProfileNotFound(n)) => assert_eq!(n, "tpu"),
        _ => panic!("expected ProfileNotFound"),
    }

    let next = apply_profile_overlay(&c, &overlay("10.0.0.7"));
    assert_eq!(next.ollama_ip.as_deref(), Some("10.0.0.7"));
    assert_eq!(next.ollama_port, Some(8080));
    assert_eq!(next.codex_model.as_deref(), Some("qwen"));
    let local = local_overlay_from_config(&next);
    assert_eq!(local.codex_provider_name.as_deref(), Some("Codex Launchpad"));
    assert_eq!(local.codex_api_key_mode, Some(ApiKeyMode::ExperimentalBearerToken));
}

#[test]
fn redaction_helpers() {
    assert_eq!(redact_token_after_marker("auth Bearer abc123 end", "Bearer "), "auth Bearer <redacted> end");
    assert_eq!(redact_token_after_marker("nothing here", "Bearer "), "nothing here");
    assert_eq!(redact_quoted_field(r#"{"apiKey":"s3cret","x":1}"#, "apiKey"), r#"{"apiKey":"<redacted>","x":1}"#);
}

#[test]
fn media_types_by_extension() {
    assert_eq!(content_type_for("dist/index.html"), "text/html; charset=utf-8");
    assert_eq!(content_type_for("dist/assets/app.js"), "application/javascript; charset=utf-8");
    assert_eq!(content_type_for("dist/icon.png"), "image/png");
    assert_eq!(content_type_for("dist/LICENSE"), "application/octet-stream");
}

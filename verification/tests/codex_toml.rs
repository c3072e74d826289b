use codex_launchpad::codex_config;
use codex_launchpad::config::ApiKeyMode;
use codex_launchpad::lpad_config::{
    apply_to_document, remove_provider, revert_launcher_root_settings, PersistentCodexConfig,
    RestoreState,
};
use codex_launchpad::lpad_config::{
    apply, codex_config_document, codex_config_text, empty_codex_config, parse_codex_config, restore,
    CodexConfigError,
};
use toml_edit::DocumentMut;

fn settings(provider_id: &str) -> PersistentCodexConfig {
    PersistentCodexConfig {
        config_path: "unused".to_string(),
        model: Some("llama3.2".to_string()),
        provider_id: provider_id.to_string(),
        provider_name: "Local Ollama".to_string(),
        base_url: "http://127.0.0.1:11434/v1".to_string(),
        api_key: "test-key".to_string(),
        api_key_mode: ApiKeyMode::ExperimentalBearerToken,
    }
}

fn previous_model_state() -> RestoreState {
    RestoreState {
        had_profile: false,
        profile: None,
        had_model: true,
        model: Some("gpt-5.5".to_string()),
        had_model_provider: false,
        model_provider: None,
        had_model_catalog_json: false,
        model_catalog_json: None,
    }
}

#[test]
fn lpad_config_applies_provider_without_removing_existing_sections() {
    let mut document = r#"
approval_policy = "never"

[desktop]
conversationDetailMode = "STEPS_COMMANDS"
"#
    .parse::<DocumentMut>()
    .expect("valid TOML");

    apply_to_document(&mut document, &settings("launchpadx"));
    let text = document.to_string();

    assert!(text.contains(r#"approval_policy = "never""#));
    assert!(text.contains("[desktop]"));
    assert!(text.contains(r#"model = "llama3.2""#));
    assert!(text.contains(r#"model_provider = "launchpadx""#));
    assert!(text.contains("[model_providers.launchpadx]"));
    assert!(text.contains(r#"base_url = "http://127.0.0.1:11434/v1""#));
    assert!(text.contains(r#"experimental_bearer_token = "test-key""#));
}

#[test]
fn lpad_config_env_key_mode_removes_persisted_bearer_token() {
    let mut document = r#"
[model_providers.launchpadx]
experimental_bearer_token = "old"
"#
    .parse::<DocumentMut>()
    .expect("valid TOML");
    let mut settings = settings("launchpadx");
    settings.api_key_mode = ApiKeyMode::EnvKey;

    apply_to_document(&mut document, &settings);
    let text = document.to_string();

    assert!(text.contains(r#"env_key = "OPENAI_API_KEY""#));
    assert!(!text.contains("experimental_bearer_token"));
}

#[test]
fn lpad_config_model_is_optional() {
    let mut document = r#"model = "existing""#.parse::<DocumentMut>().expect("valid TOML");
    let mut settings = settings("launchpadx");
    settings.model = None;

    apply_to_document(&mut document, &settings);

    assert!(document.to_string().contains(r#"model = "existing""#));
}

#[test]
fn lpad_config_restore_returns_previous_root_values_and_removes_provider() {
    let mut document = r#"
model = "llama3.2"
model_provider = "codex-launchpad"

[model_providers.codex-launchpad]
name = "Local Ollama"
"#
    .parse::<DocumentMut>()
    .expect("valid TOML");
    let state = previous_model_state();

    revert_launcher_root_settings(&mut document, Some(&state));
    remove_provider(&mut document, "codex-launchpad");
    let text = document.to_string();

    assert!(text.contains(r#"model = "gpt-5.5""#));
    assert!(!text.contains("model_provider"));
    assert!(!text.contains("codex-launchpad"));
}

#[test]
fn codex_config_applies_provider_without_removing_existing_sections() {
    let mut document = r#"
approval_policy = "never"

[desktop]
conversationDetailMode = "STEPS_COMMANDS"
"#
    .parse::<DocumentMut>()
    .expect("valid TOML");

    codex_config::apply_to_document(&mut document, &settings("codex-local-launcher"));
    let text = document.to_string();

    assert!(text.contains(r#"approval_policy = "never""#));
    assert!(text.contains("[desktop]"));
    assert!(text.contains(r#"model = "llama3.2""#));
    assert!(text.contains(r#"model_provider = "codex-local-launcher""#));
    assert!(text.contains("[model_providers.codex-local-launcher]"));
    assert!(text.contains(r#"base_url = "http://127.0.0.1:11434/v1""#));
    assert!(text.contains(r#"experimental_bearer_token = "test-key""#));
}

#[test]
fn codex_config_env_key_mode_removes_persisted_bearer_token() {
    let mut document = r#"
[model_providers.codex-local-launcher]
experimental_bearer_token = "old"
"#
    .parse::<DocumentMut>()
    .expect("valid TOML");
    let mut settings = settings("codex-local-launcher");
    settings.api_key_mode = ApiKeyMode::EnvKey;

    codex_config::apply_to_document(&mut document, &settings);
    let text = document.to_string();

    assert!(text.contains(r#"env_key = "OPENAI_API_KEY""#));
    assert!(!text.contains("experimental_bearer_token"));
}

#[test]
fn codex_config_model_is_optional() {
    let mut document = r#"model = "existing""#.parse::<DocumentMut>().expect("valid TOML");
    let mut settings = settings("codex-local-launcher");
    settings.model = None;

    codex_config::apply_to_document(&mut document, &settings);

    assert!(document.to_string().contains(r#"model = "existing""#));
}

#[test]
fn codex_config_restore_returns_previous_root_values_and_removes_provider() {
    let mut document = r#"
model = "llama3.2"
model_provider = "codex-local-launcher"

[model_providers.codex-local-launcher]
name = "Local Ollama"
"#
    .parse::<DocumentMut>()
    .expect("valid TOML");
    let state = previous_model_state();

    codex_config::restore_root_values(&mut document, "codex-local-launcher", Some(&state));
    codex_config::remove_provider(&mut document, "codex-local-launcher");
    let text = document.to_string();

    assert!(text.contains(r#"model = "gpt-5.5""#));
    assert!(!text.contains("model_provider"));
    assert!(!text.contains("codex-local-launcher"));
}

#[test]
fn codex_config_restore_does_not_change_root_values_when_not_active_provider() {
    let mut document = r#"
model = "gpt-5.5"
model_provider = "openai"

[model_providers.codex-local-launcher]
name = "Local Ollama"
"#
    .parse::<DocumentMut>()
    .expect("valid TOML");

    codex_config::restore_root_values(&mut document, "codex-local-launcher", None);
    codex_config::remove_provider(&mut document, "codex-local-launcher");
    let text = document.to_string();

    assert!(text.contains(r#"model = "gpt-5.5""#));
    assert!(text.contains(r#"model_provider = "openai""#));
    assert!(!text.contains("Local Ollama"));
}

#[test]
fn apply_then_restore_gives_back_settings() {
    let mut document = "\nmodel = \"gpt-test\"\nmodel_provider = \"openai\"\n"
        .parse::<DocumentMut>()
        .expect("valid TOML");
    let s = settings("launchpadx");
    let saved = codex_launchpad::lpad_config::apply(&mut document, &s, false).expect("state saved");
    assert!(document.to_string().contains("model_provider = \"launchpadx\""));
    codex_launchpad::lpad_config::restore(&mut document, "launchpadx", Some(&saved));
    let text = document.to_string();
    assert!(text.contains("model = \"gpt-test\""));
    assert!(text.contains("model_provider = \"openai\""));
    assert!(!text.contains("launchpadx"));
}

#[test]
fn apply_saves_nothing_when_already_on_launcher() {
    let mut document = "model_provider = \"launchpadx\"\n".parse::<DocumentMut>().expect("valid TOML");
    assert!(codex_launchpad::lpad_config::apply(&mut document, &settings("launchpadx"), false).is_none());
}

#[test]
fn codex_config_errors_are_worded() {
    assert_eq!(
        CodexConfigError::MissingHome.message(),
        "could not locate home directory for ~/.codex/config.toml"
    );
    assert_eq!(
        CodexConfigError::Read { path: "p".to_string(), message: "m".to_string() }.message(),
        "could not read Codex config p: m"
    );
}

#[test]
fn codex_config_text_round_trips_through_the_library() {
    assert!(parse_codex_config("model = ").is_err());
    assert!(matches!(
        codex_config_document("/c/config.toml", Some("model = ")),
        Err(CodexConfigError::Parse { path, .. }) if path == "/c/config.toml"
    ));
    assert_eq!(codex_config_text(&empty_codex_config()), "");
    let empty = codex_config_document("/c/config.toml", None).ok().expect("empty");
    assert_eq!(codex_config_text(&empty), "");

    let original = "\nmodel = \"gpt-test\"\nmodel_provider = \"openai\"\n";
    let mut document = codex_config_document("/c/config.toml", Some(original)).ok().expect("parsed");
    assert_eq!(codex_config_text(&document), original);
    let saved = apply(&mut document, &settings("launchpadx"), false).expect("state saved");
    let written = codex_config_text(&document);
    let mut reread = parse_codex_config(&written).ok().expect("written text parses");
    restore(&mut reread, "launchpadx", Some(&saved));
    let text = codex_config_text(&reread);
    assert!(text.contains("model = \"gpt-test\""));
    assert!(text.contains("model_provider = \"openai\""));
    assert!(!text.contains("launchpadx"));
}

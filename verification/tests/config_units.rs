//! Unit tests over configuration merging, provider invocation assembly and
//! the inspection views.

use prpilot::config::{
    compose_system_prompt, merge_provider_config, Config, DefaultsConfig, HostConfig,
    ProviderConfig, ProvidersConfig, DEFAULT_MAX_DIFF_BYTES, DEFAULT_SYSTEM_PROMPT,
};
use prpilot::inspect::{
    host_inspection, provider_lines, ConfigInspection, HostTokenResolution,
    ProviderCredentialResolution, ProviderInspection, ProvidersInspection,
};
use prpilot::providers::{
    build_provider_args, default_program, provider_response_from_output, seems_auth_failure,
    should_retry_without_stdin, ProviderAuthKind,
};
use prpilot::review::CommentLanguage;

fn provider(command: Option<&str>, api_key: Option<&str>) -> ProviderConfig {
    ProviderConfig {
        enabled: None,
        command: command.map(|s| s.to_string()),
        args: None,
        use_stdin: None,
        auto_auth: None,
        auth_command: None,
        model: None,
        api_base: None,
        api_key: api_key.map(|s| s.to_string()),
        api_key_env: None,
    }
}

#[test]
fn defaults_fall_back_to_builtins() {
    let cfg = Config::default();
    assert_eq!(cfg.max_diff_bytes(), DEFAULT_MAX_DIFF_BYTES);
    assert_eq!(cfg.system_prompt(), DEFAULT_SYSTEM_PROMPT);
    assert_eq!(cfg.comment_language(), CommentLanguage::Korean);
    assert!(cfg.host_config("github.com").is_none());
}

#[test]
fn later_defaults_override_earlier_ones() {
    let mut base = Config::default();
    base.defaults.max_diff_bytes = Some(10);
    base.defaults.system_prompt = Some("base".to_string());
    let mut incoming = Config::default();
    incoming.defaults.max_diff_bytes = Some(99);
    incoming.defaults.comment_language = Some("en".to_string());
    base.merge_from(incoming);
    assert_eq!(base.max_diff_bytes(), 99);
    assert_eq!(base.system_prompt(), "base");
    assert_eq!(base.comment_language(), CommentLanguage::English);
}

#[test]
fn host_entries_merge_in_place_and_append() {
    let mut base = Config::default();
    base.hosts.push((
        "github.com".to_string(),
        HostConfig {
            token: Some("old".to_string()),
            token_env: Some("GH".to_string()),
            token_command: None,
            api_base: None,
        },
    ));
    let mut incoming = Config::default();
    incoming.hosts.push((
        "github.com".to_string(),
        HostConfig {
            token: Some("new".to_string()),
            token_env: None,
            token_command: None,
            api_base: None,
        },
    ));
    incoming.hosts.push((
        "gitlab.com".to_string(),
        HostConfig { token: None, token_env: None, token_command: None, api_base: None },
    ));
    base.merge_from(incoming);
    assert_eq!(base.hosts.len(), 2);
    let gh = base.host_config("github.com").expect("kept");
    assert_eq!(gh.token.as_deref(), Some("new"));
    assert_eq!(gh.token_env.as_deref(), Some("GH"));
    assert!(base.host_config("gitlab.com").is_some());
    assert!(base.host_config("example.org").is_none());
}

#[test]
fn provider_slots_merge() {
    let mut target = Some(provider(Some("codex"), None));
    merge_provider_config(&mut target, Some(provider(None, Some("key"))));
    let merged = target.expect("still present");
    assert_eq!(merged.command.as_deref(), Some("codex"));
    assert_eq!(merged.api_key.as_deref(), Some("key"));

    let mut none_target: Option<ProviderConfig> = None;
    merge_provider_config(&mut none_target, Some(provider(Some("anthropic"), None)));
    assert!(none_target.is_some());

    let mut providers = ProvidersConfig::default();
    providers.merge_from(ProvidersConfig {
        openai: Some(provider(Some("codex"), None)),
        anthropic: None,
        gemini: None,
    });
    assert!(providers.openai.is_some());
    assert!(providers.anthropic.is_none());
}

#[test]
fn command_spec_applies_defaults() {
    let mut cfg = provider(None, None);
    let spec = cfg.command_spec("codex").expect("enabled by default");
    assert_eq!(spec.command, "codex");
    assert!(spec.args.is_empty());
    assert!(spec.use_stdin);

    cfg.enabled = Some(false);
    assert!(cfg.command_spec("codex").is_none());

    let mut custom = provider(Some("mytool"), None);
    custom.args = Some(vec!["exec".to_string()]);
    custom.use_stdin = Some(false);
    let spec = custom.command_spec("codex").expect("enabled");
    assert_eq!(spec.command, "mytool");
    assert_eq!(spec.args, vec!["exec".to_string()]);
    assert!(!spec.use_stdin);
}

#[test]
fn system_prompt_composition() {
    assert_eq!(compose_system_prompt("base", None), "base");
    assert_eq!(compose_system_prompt("base", Some("  \n")), "base");
    assert_eq!(
        compose_system_prompt("base", Some(" guide text \n")),
        "base\n\nReview guide (must follow):\nguide text"
    );
}

#[test]
fn provider_args_substitute_prompt() {
    let mut cfg = provider(Some("mytool"), None);
    cfg.args = Some(vec!["exec".to_string(), "--ask={prompt}".to_string()]);
    let spec = cfg.command_spec("codex").unwrap();
    let args = build_provider_args(&spec, "QUESTION");
    assert_eq!(args, vec!["exec".to_string(), "--ask=QUESTION".to_string()]);

    let mut no_stdin = provider(Some("mytool"), None);
    no_stdin.use_stdin = Some(false);
    let spec = no_stdin.command_spec("codex").unwrap();
    let args = build_provider_args(&spec, "QUESTION");
    assert_eq!(args, vec!["QUESTION".to_string()]);

    let stdin_mode = provider(Some("mytool"), None);
    let spec = stdin_mode.command_spec("codex").unwrap();
    assert!(build_provider_args(&spec, "QUESTION").is_empty());
}

#[test]
fn provider_output_classification() {
    let ok = provider_response_from_output("OpenAI", true, "0", "  review body \n", "noise")
        .expect("success");
    assert_eq!(ok.content, "review body");

    let stderr_only =
        provider_response_from_output("OpenAI", true, "0", "  ", "fallback text").expect("success");
    assert_eq!(stderr_only.content, "fallback text");

    let failed = provider_response_from_output("OpenAI", false, "exit status: 1", "out", "bad")
        .unwrap_err();
    assert_eq!(failed, "OpenAI command failed (exit status: 1): bad");

    let failed_quiet =
        provider_response_from_output("OpenAI", false, "exit status: 1", "", "").unwrap_err();
    assert_eq!(failed_quiet, "OpenAI command failed (exit status: 1): no stderr output");

    let empty = provider_response_from_output("OpenAI", true, "0", "", " ").unwrap_err();
    assert_eq!(empty, "OpenAI command returned empty output");

    let with_usage =
        provider_response_from_output("OpenAI", true, "0", "text\nprompt tokens 11", "")
            .expect("success");
    assert_eq!(with_usage.usage.prompt_tokens, Some(11));
}

#[test]
fn auth_failure_heuristics() {
    assert!(seems_auth_failure("error: unauthorized (401)"));
    assert!(seems_auth_failure("please run `tool login` first"));
    assert!(seems_auth_failure("not logged in"));
    assert!(!seems_auth_failure("connection reset by peer"));
    assert!(should_retry_without_stdin(true, false, "stdin is not a terminal"));
    assert!(!should_retry_without_stdin(false, false, "stdin is not a terminal"));
    assert!(!should_retry_without_stdin(true, true, "stdin is not a terminal"));
    assert!(!should_retry_without_stdin(true, false, "other failure"));
    assert_eq!(default_program(ProviderAuthKind::Codex), "codex");
    assert_eq!(default_program(ProviderAuthKind::Anthropic), "anthropic");
    assert_eq!(default_program(ProviderAuthKind::Gemini), "gemini");
}

#[test]
fn provider_inspection_modes() {
    let resolved = ProviderCredentialResolution {
        credential: Some("key".to_string()),
        source: Some("env:KEY".to_string()),
    };
    let unresolved = ProviderCredentialResolution { credential: None, source: None };

    let api = ProviderInspection::from_config(&provider(None, None), "codex", &resolved, false);
    assert_eq!(api.resolved_mode, "api");
    assert!(api.runnable);
    assert_eq!(api.api_key_source.as_deref(), Some("env:KEY"));

    let cli = ProviderInspection::from_config(&provider(None, None), "codex", &unresolved, true);
    assert_eq!(cli.resolved_mode, "cli");
    assert!(cli.runnable);
    assert_eq!(cli.command.as_deref(), Some("codex"));

    let mut disabled_cfg = provider(None, None);
    disabled_cfg.enabled = Some(false);
    let disabled =
        ProviderInspection::from_config(&disabled_cfg, "codex", &unresolved, true);
    assert_eq!(disabled.resolved_mode, "disabled");
    assert!(!disabled.runnable);
    assert!(disabled.command.is_none());
}

#[test]
fn host_and_config_inspection() {
    let host_cfg = HostConfig {
        token: None,
        token_env: Some("GH".to_string()),
        token_command: None,
        api_base: Some("https://api.example".to_string()),
    };
    let resolution = HostTokenResolution {
        token: Some("tok".to_string()),
        source: Some("env:GH".to_string()),
    };
    let hi = host_inspection(&host_cfg, &resolution);
    assert!(hi.token_resolved);
    assert_eq!(hi.token_source.as_deref(), Some("env:GH"));
    assert_eq!(hi.api_base.as_deref(), Some("https://api.example"));

    let mut cfg = Config::default();
    cfg.defaults.update_timeout_ms = Some(700);
    cfg.defaults.comment_language = Some("en".to_string());
    let inspection = ConfigInspection::from_loaded(
        vec!["/etc/repopilot/config.json".to_string()],
        vec![".repopilot/config.json".to_string()],
        &cfg,
        Vec::new(),
        ProvidersInspection { openai: None, anthropic: None, gemini: None },
    );
    assert_eq!(inspection.effective_defaults.max_diff_bytes, DEFAULT_MAX_DIFF_BYTES);
    assert_eq!(inspection.effective_defaults.comment_language, "en");
    assert_eq!(inspection.effective_defaults.update_timeout_ms, 700);
    assert_eq!(inspection.loaded_paths, vec![".repopilot/config.json".to_string()]);
}

#[test]
fn provider_dashboard_lines() {
    let mut cfg = Config::default();
    cfg.providers.anthropic = Some(provider(None, Some("key")));
    let mut gem = provider(Some("gemini-cli"), None);
    gem.args = Some(vec!["run".to_string(), "--fast".to_string()]);
    cfg.providers.gemini = Some(gem);
    let lines = provider_lines(&cfg);
    assert_eq!(lines.len(), 3);
    assert_eq!(lines[0], "  - openai     not configured");
    assert_eq!(lines[1], "  - anthropic  enabled  mode=api model=default");
    assert_eq!(lines[2], "  - gemini     enabled  mode=cli cmd=gemini-cli run --fast");
}

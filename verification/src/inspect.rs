//! Diagnostic views over the effective configuration: what was loaded, what
//! each host and provider resolves to, and the per-provider dashboard lines.
//! The environment- and filesystem-dependent inputs (resolved credentials,
//! command availability, file paths) are handed in already resolved.

use vstd::prelude::*;
use vstd::string::{StrSliceExecFns, StringExecFns};
use crate::config::{Config, DefaultsConfig, HostConfig, ProviderConfig, DEFAULT_MAX_DIFF_BYTES};
use crate::console::{join_with, pad_right, spec_join, spec_pad_right};
use crate::review::{CommentLanguage, spec_language_of};
use crate::strutil::{spec_trim, trim_str};
use crate::target::seq_views;

verus! {

/// A resolved provider credential and where it came from.
#[derive(Debug, Clone)]
pub struct ProviderCredentialResolution {
    pub credential: Option<String>,
    pub source: Option<String>,
}

/// A resolved VCS host token and where it came from.
#[derive(Debug, Clone)]
pub struct HostTokenResolution {
    pub token: Option<String>,
    pub source: Option<String>,
}

/// The defaults after applying the built-in fallbacks.
#[derive(Debug, Clone)]
pub struct EffectiveDefaults {
    pub max_diff_bytes: usize,
    pub system_prompt: String,
    pub review_guide_path: Option<String>,
    pub comment_language: String,
    pub update_check_url: Option<String>,
    pub update_download_url: Option<String>,
    pub update_timeout_ms: u64,
}

/// One host's resolution state.
#[derive(Debug, Clone)]
pub struct HostInspection {
    pub token_source: Option<String>,
    pub token_resolved: bool,
    pub api_base: Option<String>,
}

/// The three provider slots, inspected.
#[derive(Debug, Clone)]
pub struct ProvidersInspection {
    pub openai: Option<ProviderInspection>,
    pub anthropic: Option<ProviderInspection>,
    pub gemini: Option<ProviderInspection>,
}

/// One provider's resolution state: mode, runnability and credentials.
#[derive(Debug, Clone)]
pub struct ProviderInspection {
    pub enabled: bool,
    pub resolved_mode: String,
    pub runnable: bool,
    pub command: Option<String>,
    pub args: Vec<String>,
    pub use_stdin: bool,
    pub command_available: bool,
    pub api_key_source: Option<String>,
    pub api_key_resolved: bool,
}

/// The whole diagnostic view of a loaded configuration.
#[derive(Debug, Clone)]
pub struct ConfigInspection {
    pub searched_paths: Vec<String>,
    pub loaded_paths: Vec<String>,
    pub defaults: DefaultsConfig,
    pub effective_defaults: EffectiveDefaults,
    pub hosts: Vec<(String, HostInspection)>,
    pub providers: ProvidersInspection,
}

impl ProviderInspection {
    /// Inspects one provider entry, given its already-resolved credential and
    /// whether its CLI command exists on this machine.
    pub fn from_config(
        cfg: &ProviderConfig,
        default_command: &str,
        api_resolution: &ProviderCredentialResolution,
        command_available: bool,
    ) -> (r: ProviderInspection)
        ensures
            ({
                let enabled = match cfg.enabled {
                    Some(b) => b,
                    None => true,
                };
                let api_ready = api_resolution.credential is Some;
                &&& r.enabled == enabled
                &&& r.resolved_mode@ == if !enabled {
                    "disabled"@
                } else if api_ready {
                    "api"@
                } else {
                    "cli"@
                }
                &&& r.runnable == (enabled && (api_ready || command_available))
                &&& (enabled ==> (r.command matches Some(c) && c@ == match cfg.command {
                    Some(conf) => conf@,
                    None => default_command@,
                }))
                &&& (!enabled ==> (r.command is None && r.args@.len() == 0 && r.use_stdin))
                &&& (enabled ==> r.args@ == match cfg.args {
                    Some(a) => a@,
                    None => Seq::<String>::empty(),
                })
                &&& (enabled ==> r.use_stdin == match cfg.use_stdin {
                    Some(b) => b,
                    None => true,
                })
                &&& r.command_available == command_available
                &&& r.api_key_source == api_resolution.source
                &&& r.api_key_resolved == api_ready
            }),
    {
        let enabled = cfg.is_enabled();
        let api_ready = api_resolution.credential.is_some();
        let spec = cfg.command_spec(default_command);
        let (command, args, use_stdin) = match spec {
            Some(s) => (Some(s.command), s.args, s.use_stdin),
            None => (None, Vec::new(), true),
        };
        let resolved_mode = if !enabled {
            String::from_str("disabled")
        } else if api_ready {
            String::from_str("api")
        } else {
            String::from_str("cli")
        };
        let api_key_source = match &api_resolution.source {
            Some(s) => Some(s.clone()),
            None => None,
        };
        ProviderInspection {
            enabled,
            resolved_mode,
            runnable: enabled && (api_ready || command_available),
            command,
            args,
            use_stdin,
            command_available,
            api_key_source,
            api_key_resolved: api_ready,
        }
    }
}

/// Inspects one host entry, given its already-resolved token.
pub fn host_inspection(cfg: &HostConfig, resolution: &HostTokenResolution) -> (r: HostInspection)
    ensures
        r.token_source == resolution.source,
        r.token_resolved == (resolution.token is Some),
        r.api_base == cfg.api_base,
{
    let token_source = match &resolution.source {
        Some(s) => Some(s.clone()),
        None => None,
    };
    let api_base = match &cfg.api_base {
        Some(s) => Some(s.clone()),
        None => None,
    };
    HostInspection { token_source, token_resolved: resolution.token.is_some(), api_base }
}

impl DefaultsConfig {
    /// A field-true copy.
    pub fn duplicate(&self) -> (r: DefaultsConfig)
        ensures
            r == *self,
    {
        DefaultsConfig {
            max_diff_bytes: self.max_diff_bytes,
            system_prompt: match &self.system_prompt {
                Some(s) => Some(s.clone()),
                None => None,
            },
            review_guide_path: match &self.review_guide_path {
                Some(s) => Some(s.clone()),
                None => None,
            },
            comment_language: match &self.comment_language {
                Some(s) => Some(s.clone()),
                None => None,
            },
            update_check_url: match &self.update_check_url {
                Some(s) => Some(s.clone()),
                None => None,
            },
            update_download_url: match &self.update_download_url {
                Some(s) => Some(s.clone()),
                None => None,
            },
            update_timeout_ms: self.update_timeout_ms,
        }
    }
}

impl ConfigInspection {
    /// Assembles the diagnostic view from a loaded configuration and the
    /// already-resolved host and provider states.
    pub fn from_loaded(
        searched_paths: Vec<String>,
        loaded_paths: Vec<String>,
        config: &Config,
        hosts: Vec<(String, HostInspection)>,
        providers: ProvidersInspection,
    ) -> (r: ConfigInspection)
        ensures
            r.searched_paths == searched_paths,
            r.loaded_paths == loaded_paths,
            r.defaults == config.defaults,
            r.hosts == hosts,
            r.providers == providers,
            r.effective_defaults.max_diff_bytes == match config.defaults.max_diff_bytes {
                Some(v) => v,
                None => DEFAULT_MAX_DIFF_BYTES,
            },
            r.effective_defaults.system_prompt@ == match config.defaults.system_prompt {
                Some(s) => s@,
                None => crate::config::DEFAULT_SYSTEM_PROMPT@,
            },
            r.effective_defaults.review_guide_path == config.defaults.review_guide_path,
            r.effective_defaults.comment_language@ == spec_language_code(
                spec_language_of(
                    match config.defaults.comment_language {
                        Some(s) => Some(s@),
                        None => None,
                    },
                ),
            ),
            r.effective_defaults.update_check_url == config.defaults.update_check_url,
            r.effective_defaults.update_download_url == config.defaults.update_download_url,
            r.effective_defaults.update_timeout_ms == match config.defaults.update_timeout_ms {
                Some(v) => v,
                None => 1200u64,
            },
    {
        let effective_defaults = EffectiveDefaults {
            max_diff_bytes: config.max_diff_bytes(),
            system_prompt: config.system_prompt(),
            review_guide_path: match &config.defaults.review_guide_path {
                Some(s) => Some(s.clone()),
                None => None,
            },
            comment_language: String::from_str(config.comment_language().code()),
            update_check_url: match &config.defaults.update_check_url {
                Some(s) => Some(s.clone()),
                None => None,
            },
            update_download_url: match &config.defaults.update_download_url {
                Some(s) => Some(s.clone()),
                None => None,
            },
            update_timeout_ms: match config.defaults.update_timeout_ms {
                Some(v) => v,
                None => 1200,
            },
        };
        ConfigInspection {
            searched_paths,
            loaded_paths,
            defaults: config.defaults.duplicate(),
            effective_defaults,
            hosts,
            providers,
        }
    }
}

/// The short code of an output language.
pub open spec fn spec_language_code(language: CommentLanguage) -> Seq<char> {
    match language {
        CommentLanguage::Korean => "ko"@,
        CommentLanguage::English => "en"@,
    }
}

/// One provider's dashboard line: its configuration state, mode, and the
/// command or model it would run with.
pub open spec fn spec_provider_line(
    id: Seq<char>,
    cfg: Option<ProviderConfig>,
    default_command: Seq<char>,
) -> Seq<char> {
    match cfg {
        None => "  - "@ + spec_pad_right(id, 10) + " not configured"@,
        Some(cfg) => {
            let enabled = match cfg.enabled {
                Some(b) => b,
                None => true,
            };
            let state = if enabled {
                "enabled"@
            } else {
                "disabled"@
            };
            let head = "  - "@ + spec_pad_right(id, 10) + " "@ + spec_pad_right(state, 8);
            if cfg.api_key is Some || cfg.api_key_env is Some {
                let model = match cfg.model {
                    Some(m) => if spec_trim(m@).len() > 0 {
                        m@
                    } else {
                        "default"@
                    },
                    None => "default"@,
                };
                head + " mode=api model="@ + model
            } else {
                let command = match cfg.command {
                    Some(c) => if spec_trim(c@).len() > 0 {
                        c@
                    } else {
                        default_command
                    },
                    None => default_command,
                };
                let args = spec_join(
                    match cfg.args {
                        Some(a) => seq_views(a@),
                        None => Seq::empty(),
                    },
                    " "@,
                );
                if args.len() == 0 {
                    head + " mode=cli cmd="@ + command
                } else {
                    head + " mode=cli cmd="@ + command + " "@ + args
                }
            }
        },
    }
}

/// Renders one provider's dashboard line.
pub fn provider_line(id: &str, cfg: Option<&ProviderConfig>, default_command: &str) -> (r: String)
    ensures
        r@ == spec_provider_line(id@, match cfg {
            Some(c) => Some(*c),
            None => None,
        }, default_command@),
{
    let cfg = match cfg {
        Some(c) => c,
        None => {
            let mut out = String::from_str("  - ");
            out.append(pad_right(id, 10).as_str());
            out.append(" not configured");
            return out;
        },
    };
    let enabled = cfg.is_enabled();
    let state = if enabled {
        "enabled"
    } else {
        "disabled"
    };
    let mut out = String::from_str("  - ");
    out.append(pad_right(id, 10).as_str());
    out.append(" ");
    out.append(pad_right(state, 8).as_str());
    if cfg.api_key.is_some() || cfg.api_key_env.is_some() {
        out.append(" mode=api model=");
        match &cfg.model {
            Some(m) => {
                if trim_str(m.as_str()).unicode_len() > 0 {
                    out.append(m.as_str());
                } else {
                    out.append("default");
                }
            },
            None => {
                out.append("default");
            },
        }
        out
    } else {
        out.append(" mode=cli cmd=");
        match &cfg.command {
            Some(c) => {
                if trim_str(c.as_str()).unicode_len() > 0 {
                    out.append(c.as_str());
                } else {
                    out.append(default_command);
                }
            },
            None => {
                out.append(default_command);
            },
        }
        let args = match &cfg.args {
            Some(a) => join_with(a, " "),
            None => {
                let empty: Vec<String> = Vec::new();
                proof {
                    assert(seq_views(Seq::<String>::empty()) =~= Seq::<Seq<char>>::empty());
                }
                join_with(&empty, " ")
            },
        };
        if args.as_str().unicode_len() > 0 {
            out.append(" ");
            out.append(args.as_str());
        }
        out
    }
}

/// The three provider dashboard lines, in the fixed provider order.
pub fn provider_lines(config: &Config) -> (r: Vec<String>)
    ensures
        r@.len() == 3,
        r@[0]@ == spec_provider_line("openai"@, config.providers.openai, "codex"@),
        r@[1]@ == spec_provider_line("anthropic"@, config.providers.anthropic, "anthropic"@),
        r@[2]@ == spec_provider_line("gemini"@, config.providers.gemini, "gemini"@),
{
    let mut out: Vec<String> = Vec::new();
    let openai = match &config.providers.openai {
        Some(c) => Some(c),
        None => None,
    };
    let anthropic = match &config.providers.anthropic {
        Some(c) => Some(c),
        None => None,
    };
    let gemini = match &config.providers.gemini {
        Some(c) => Some(c),
        None => None,
    };
    out.push(provider_line("openai", openai, "codex"));
    out.push(provider_line("anthropic", anthropic, "anthropic"));
    out.push(provider_line("gemini", gemini, "gemini"));
    out
}

} // verus!

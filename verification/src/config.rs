//! The configuration schema and its merge rules: pure data, merged from
//! lowest to highest priority, with later values overriding earlier ones
//! field by field. Reading files or the environment happens outside.

use vstd::prelude::*;
use vstd::string::StringExecFns;
use crate::review::{CommentLanguage, spec_language_of};
use crate::strutil::{spec_trim, str_eq, trim_str};

verus! {

/// Diff size above which the run pauses for confirmation, unless configured.
pub const DEFAULT_MAX_DIFF_BYTES: usize = 120000;

/// The system prompt used when none is configured.
pub const DEFAULT_SYSTEM_PROMPT: &'static str = "Write a strict senior code review. Output Markdown with sections: Critical, Major, Minor, Suggestions.";

/// Global defaults of a configuration file.
#[derive(Debug, Clone)]
pub struct DefaultsConfig {
    pub max_diff_bytes: Option<usize>,
    pub system_prompt: Option<String>,
    pub review_guide_path: Option<String>,
    pub comment_language: Option<String>,
    pub update_check_url: Option<String>,
    pub update_download_url: Option<String>,
    pub update_timeout_ms: Option<u64>,
}

/// Per-VCS-host authentication and endpoint settings.
#[derive(Debug, Clone)]
pub struct HostConfig {
    pub token: Option<String>,
    pub token_env: Option<String>,
    pub token_command: Option<Vec<String>>,
    pub api_base: Option<String>,
}

/// The three known provider slots.
#[derive(Debug, Clone)]
pub struct ProvidersConfig {
    pub openai: Option<ProviderConfig>,
    pub anthropic: Option<ProviderConfig>,
    pub gemini: Option<ProviderConfig>,
}

/// One provider's execution settings: CLI command or API credentials.
#[derive(Debug, Clone)]
pub struct ProviderConfig {
    pub enabled: Option<bool>,
    pub command: Option<String>,
    pub args: Option<Vec<String>>,
    pub use_stdin: Option<bool>,
    pub auto_auth: Option<bool>,
    pub auth_command: Option<Vec<String>>,
    pub model: Option<String>,
    pub api_base: Option<String>,
    pub api_key: Option<String>,
    pub api_key_env: Option<String>,
}

/// A provider's normalized CLI invocation.
#[derive(Debug, Clone)]
pub struct ProviderCommandSpec {
    pub command: String,
    pub args: Vec<String>,
    pub use_stdin: bool,
}

/// The whole merged configuration. Host entries are keyed by host name, one
/// entry per host, in first-appearance order.
#[derive(Debug, Clone)]
pub struct Config {
    pub defaults: DefaultsConfig,
    pub hosts: Vec<(String, HostConfig)>,
    pub providers: ProvidersConfig,
}

impl Default for DefaultsConfig {
    /// All fields unset.
    fn default() -> (r: DefaultsConfig)
        ensures
            r.max_diff_bytes is None,
            r.system_prompt is None,
            r.review_guide_path is None,
            r.comment_language is None,
            r.update_check_url is None,
            r.update_download_url is None,
            r.update_timeout_ms is None,
    {
        DefaultsConfig {
            max_diff_bytes: None,
            system_prompt: None,
            review_guide_path: None,
            comment_language: None,
            update_check_url: None,
            update_download_url: None,
            update_timeout_ms: None,
        }
    }
}

impl Default for HostConfig {
    /// All fields unset.
    fn default() -> (r: HostConfig)
        ensures
            r.token is None,
            r.token_env is None,
            r.token_command is None,
            r.api_base is None,
    {
        HostConfig { token: None, token_env: None, token_command: None, api_base: None }
    }
}

impl Default for ProvidersConfig {
    /// All three slots unset.
    fn default() -> (r: ProvidersConfig)
        ensures
            r.openai is None,
            r.anthropic is None,
            r.gemini is None,
    {
        ProvidersConfig { openai: None, anthropic: None, gemini: None }
    }
}

impl Default for ProviderConfig {
    /// All fields unset.
    fn default() -> (r: ProviderConfig)
        ensures
            r.enabled is None,
            r.command is None,
            r.args is None,
            r.use_stdin is None,
            r.auto_auth is None,
            r.auth_command is None,
            r.model is None,
            r.api_base is None,
            r.api_key is None,
            r.api_key_env is None,
    {
        ProviderConfig {
            enabled: None,
            command: None,
            args: None,
            use_stdin: None,
            auto_auth: None,
            auth_command: None,
            model: None,
            api_base: None,
            api_key: None,
            api_key_env: None,
        }
    }
}

impl Default for Config {
    /// Empty defaults, no hosts, no providers.
    fn default() -> (r: Config)
        ensures
            r.defaults.max_diff_bytes is None,
            r.defaults.system_prompt is None,
            r.defaults.review_guide_path is None,
            r.defaults.comment_language is None,
            r.defaults.update_check_url is None,
            r.defaults.update_download_url is None,
            r.defaults.update_timeout_ms is None,
            r.hosts@.len() == 0,
            r.providers.openai is None,
            r.providers.anthropic is None,
            r.providers.gemini is None,
    {
        Config {
            defaults: DefaultsConfig::default(),
            hosts: Vec::new(),
            providers: ProvidersConfig::default(),
        }
    }
}

/// Defaults merged: the later (incoming) value wins wherever it is set.
pub open spec fn spec_defaults_merged(a: DefaultsConfig, b: DefaultsConfig) -> DefaultsConfig {
    DefaultsConfig {
        max_diff_bytes: if b.max_diff_bytes is Some {
            b.max_diff_bytes
        } else {
            a.max_diff_bytes
        },
        system_prompt: if b.system_prompt is Some {
            b.system_prompt
        } else {
            a.system_prompt
        },
        review_guide_path: if b.review_guide_path is Some {
            b.review_guide_path
        } else {
            a.review_guide_path
        },
        comment_language: if b.comment_language is Some {
            b.comment_language
        } else {
            a.comment_language
        },
        update_check_url: if b.update_check_url is Some {
            b.update_check_url
        } else {
            a.update_check_url
        },
        update_download_url: if b.update_download_url is Some {
            b.update_download_url
        } else {
            a.update_download_url
        },
        update_timeout_ms: if b.update_timeout_ms is Some {
            b.update_timeout_ms
        } else {
            a.update_timeout_ms
        },
    }
}

/// A host entry merged: the later value wins wherever it is set.
pub open spec fn spec_host_merged(a: HostConfig, b: HostConfig) -> HostConfig {
    HostConfig {
        token: if b.token is Some {
            b.token
        } else {
            a.token
        },
        token_env: if b.token_env is Some {
            b.token_env
        } else {
            a.token_env
        },
        token_command: if b.token_command is Some {
            b.token_command
        } else {
            a.token_command
        },
        api_base: if b.api_base is Some {
            b.api_base
        } else {
            a.api_base
        },
    }
}

/// A provider entry merged: the later value wins wherever it is set.
pub open spec fn spec_provider_merged(a: ProviderConfig, b: ProviderConfig) -> ProviderConfig {
    ProviderConfig {
        enabled: if b.enabled is Some {
            b.enabled
        } else {
            a.enabled
        },
        command: if b.command is Some {
            b.command
        } else {
            a.command
        },
        args: if b.args is Some {
            b.args
        } else {
            a.args
        },
        use_stdin: if b.use_stdin is Some {
            b.use_stdin
        } else {
            a.use_stdin
        },
        auto_auth: if b.auto_auth is Some {
            b.auto_auth
        } else {
            a.auto_auth
        },
        auth_command: if b.auth_command is Some {
            b.auth_command
        } else {
            a.auth_command
        },
        model: if b.model is Some {
            b.model
        } else {
            a.model
        },
        api_base: if b.api_base is Some {
            b.api_base
        } else {
            a.api_base
        },
        api_key: if b.api_key is Some {
            b.api_key
        } else {
            a.api_key
        },
        api_key_env: if b.api_key_env is Some {
            b.api_key_env
        } else {
            a.api_key_env
        },
    }
}

/// An optional provider slot merged: present beats absent, and two present
/// entries merge field by field.
pub open spec fn spec_provider_opt_merged(
    a: Option<ProviderConfig>,
    b: Option<ProviderConfig>,
) -> Option<ProviderConfig> {
    match (a, b) {
        (Some(x), Some(y)) => Some(spec_provider_merged(x, y)),
        (None, Some(y)) => Some(y),
        (x, None) => x,
    }
}

impl DefaultsConfig {
    /// Overrides every field the incoming defaults set.
    pub fn merge_from(&mut self, other: DefaultsConfig)
        ensures
            *final(self) == spec_defaults_merged(*old(self), other),
    {
        if other.max_diff_bytes.is_some() {
            self.max_diff_bytes = other.max_diff_bytes;
        }
        if other.system_prompt.is_some() {
            self.system_prompt = other.system_prompt;
        }
        if other.review_guide_path.is_some() {
            self.review_guide_path = other.review_guide_path;
        }
        if other.comment_language.is_some() {
            self.comment_language = other.comment_language;
        }
        if other.update_check_url.is_some() {
            self.update_check_url = other.update_check_url;
        }
        if other.update_download_url.is_some() {
            self.update_download_url = other.update_download_url;
        }
        if other.update_timeout_ms.is_some() {
            self.update_timeout_ms = other.update_timeout_ms;
        }
    }
}

impl HostConfig {
    /// Overrides every field the incoming host entry sets.
    pub fn merge_from(&mut self, other: HostConfig)
        ensures
            *final(self) == spec_host_merged(*old(self), other),
    {
        if other.token.is_some() {
            self.token = other.token;
        }
        if other.token_env.is_some() {
            self.token_env = other.token_env;
        }
        if other.token_command.is_some() {
            self.token_command = other.token_command;
        }
        if other.api_base.is_some() {
            self.api_base = other.api_base;
        }
    }
}

impl ProviderConfig {
    /// Enabled unless explicitly disabled.
    pub fn is_enabled(&self) -> (r: bool)
        ensures
            r == match self.enabled {
                Some(b) => b,
                None => true,
            },
    {
        match self.enabled {
            Some(b) => b,
            None => true,
        }
    }

    /// Automatic OAuth login on auth failures, unless switched off.
    pub fn auto_auth(&self) -> (r: bool)
        ensures
            r == match self.auto_auth {
                Some(b) => b,
                None => true,
            },
    {
        match self.auto_auth {
            Some(b) => b,
            None => true,
        }
    }

    /// The normalized CLI invocation: the configured command or the given
    /// default, the configured args or none, stdin unless switched off.
    /// `None` for a disabled provider.
    pub fn command_spec(&self, default_command: &str) -> (r: Option<ProviderCommandSpec>)
        ensures
            match self.enabled {
                Some(false) => r is None,
                _ => r matches Some(s) && {
                    &&& s.command@ == match self.command {
                        Some(c) => c@,
                        None => default_command@,
                    }
                    &&& s.args@ == match self.args {
                        Some(a) => a@,
                        None => Seq::<String>::empty(),
                    }
                    &&& s.use_stdin == match self.use_stdin {
                        Some(b) => b,
                        None => true,
                    }
                },
            },
    {
        if !self.is_enabled() {
            return None;
        }
        let command = match &self.command {
            Some(c) => c.clone(),
            None => String::from_str(default_command),
        };
        let args = match &self.args {
            Some(a) => {
                let copied = crate::strutil::copy_strings(a);
                copied
            },
            None => Vec::new(),
        };
        let use_stdin = match self.use_stdin {
            Some(b) => b,
            None => true,
        };
        proof {
            if self.args is None {
                assert(args@ =~= Seq::<String>::empty());
            }
        }
        Some(ProviderCommandSpec { command, args, use_stdin })
    }

    /// Overrides every field the incoming provider entry sets.
    pub fn merge_from(&mut self, other: ProviderConfig)
        ensures
            *final(self) == spec_provider_merged(*old(self), other),
    {
        if other.enabled.is_some() {
            self.enabled = other.enabled;
        }
        if other.command.is_some() {
            self.command = other.command;
        }
        if other.args.is_some() {
            self.args = other.args;
        }
        if other.use_stdin.is_some() {
            self.use_stdin = other.use_stdin;
        }
        if other.auto_auth.is_some() {
            self.auto_auth = other.auto_auth;
        }
        if other.auth_command.is_some() {
            self.auth_command = other.auth_command;
        }
        if other.model.is_some() {
            self.model = other.model;
        }
        if other.api_base.is_some() {
            self.api_base = other.api_base;
        }
        if other.api_key.is_some() {
            self.api_key = other.api_key;
        }
        if other.api_key_env.is_some() {
            self.api_key_env = other.api_key_env;
        }
    }
}

/// Merges one optional provider slot.
pub fn merge_provider_config(
    target: &mut Option<ProviderConfig>,
    incoming: Option<ProviderConfig>,
)
    ensures
        *final(target) == spec_provider_opt_merged(*old(target), incoming),
{
    match incoming {
        Some(next) => {
            match target {
                Some(existing) => {
                    existing.merge_from(next);
                },
                None => {
                    *target = Some(next);
                },
            }
        },
        None => {},
    }
}

impl ProvidersConfig {
    /// Merges the three provider slots.
    pub fn merge_from(&mut self, other: ProvidersConfig)
        ensures
            final(self).openai == spec_provider_opt_merged(old(self).openai, other.openai),
            final(self).anthropic == spec_provider_opt_merged(
                old(self).anthropic,
                other.anthropic,
            ),
            final(self).gemini == spec_provider_opt_merged(old(self).gemini, other.gemini),
    {
        merge_provider_config(&mut self.openai, other.openai);
        merge_provider_config(&mut self.anthropic, other.anthropic);
        merge_provider_config(&mut self.gemini, other.gemini);
    }
}

/// The position of the first host entry for a host name.
pub open spec fn spec_find_host_index(hosts: Seq<(String, HostConfig)>, host: Seq<char>) -> Option<
    int,
>
    decreases hosts.len(),
{
    if hosts.len() == 0 {
        None
    } else if hosts[0].0@ == host {
        Some(0int)
    } else {
        match spec_find_host_index(hosts.drop_first(), host) {
            Some(i) => Some(i + 1),
            None => None,
        }
    }
}

proof fn lemma_find_host_scan(hosts: Seq<(String, HostConfig)>, host: Seq<char>, i: int)
    requires
        0 <= i <= hosts.len(),
        forall|j: int| 0 <= j < i ==> (#[trigger] hosts[j].0)@ != host,
    ensures
        i < hosts.len() && hosts[i].0@ == host ==> spec_find_host_index(hosts, host) == Some(i),
        i == hosts.len() ==> spec_find_host_index(hosts, host) is None,
    decreases i,
{
    if i > 0 {
        assert(hosts[0].0@ != host);
        lemma_find_host_scan(hosts.drop_first(), host, i - 1);
        assert forall|j: int| 1 <= j < hosts.len() implies hosts.drop_first()[j - 1]
            == hosts[j] by {}
    }
}

/// One incoming host entry folded into the list: merged into the first entry
/// with the same host name, else appended.
pub open spec fn spec_merge_one_host(
    hosts: Seq<(String, HostConfig)>,
    entry: (String, HostConfig),
) -> Seq<(String, HostConfig)> {
    match spec_find_host_index(hosts, entry.0@) {
        Some(i) => hosts.update(i, (hosts[i].0, spec_host_merged(hosts[i].1, entry.1))),
        None => hosts.push(entry),
    }
}

/// A whole incoming host list folded in, in order.
pub open spec fn spec_hosts_merged(
    hosts: Seq<(String, HostConfig)>,
    incoming: Seq<(String, HostConfig)>,
) -> Seq<(String, HostConfig)>
    decreases incoming.len(),
{
    if incoming.len() == 0 {
        hosts
    } else {
        spec_merge_one_host(spec_hosts_merged(hosts, incoming.drop_last()), incoming.last())
    }
}

/// Folds one incoming host entry into the host list.
fn merge_host_entry(hosts: &mut Vec<(String, HostConfig)>, entry: (String, HostConfig))
    ensures
        final(hosts)@ == spec_merge_one_host(old(hosts)@, entry),
{
    let n = hosts.len();
    let mut i: usize = 0;
    while i < n
        invariant
            n == hosts@.len(),
            hosts@ == old(hosts)@,
            0 <= i <= n,
            forall|j: int| 0 <= j < i ==> (#[trigger] hosts@[j].0)@ != entry.0@,
        decreases n - i,
    {
        if str_eq(hosts[i].0.as_str(), entry.0.as_str()) {
            proof {
                lemma_find_host_scan(hosts@, entry.0@, i as int);
            }
            let mut current = hosts.remove(i);
            current.1.merge_from(entry.1);
            hosts.insert(i, current);
            proof {
                assert(hosts@ =~= old(hosts)@.update(
                    i as int,
                    (
                        old(hosts)@[i as int].0,
                        spec_host_merged(old(hosts)@[i as int].1, entry.1),
                    ),
                ));
            }
            return ;
        }
        i += 1;
    }
    proof {
        lemma_find_host_scan(hosts@, entry.0@, n as int);
    }
    hosts.push(entry);
}

impl Config {
    /// The configured diff-size limit, or the built-in default.
    pub fn max_diff_bytes(&self) -> (r: usize)
        ensures
            r == match self.defaults.max_diff_bytes {
                Some(v) => v,
                None => DEFAULT_MAX_DIFF_BYTES,
            },
    {
        match self.defaults.max_diff_bytes {
            Some(v) => v,
            None => DEFAULT_MAX_DIFF_BYTES,
        }
    }

    /// The configured system prompt, or the built-in default.
    pub fn system_prompt(&self) -> (r: String)
        ensures
            r@ == match self.defaults.system_prompt {
                Some(s) => s@,
                None => DEFAULT_SYSTEM_PROMPT@,
            },
    {
        match &self.defaults.system_prompt {
            Some(s) => s.clone(),
            None => String::from_str(DEFAULT_SYSTEM_PROMPT),
        }
    }

    /// The configured output language.
    pub fn comment_language(&self) -> (r: CommentLanguage)
        ensures
            r == spec_language_of(match self.defaults.comment_language {
                Some(s) => Some(s@),
                None => None,
            }),
    {
        match &self.defaults.comment_language {
            Some(s) => CommentLanguage::from_config(Some(s.as_str())),
            None => CommentLanguage::from_config(None),
        }
    }

    /// The first host entry for `host`, if one is configured.
    pub fn host_config(&self, host: &str) -> (r: Option<&HostConfig>)
        ensures
            match r {
                Some(cfg) => {
                    &&& spec_find_host_index(self.hosts@, host@) matches Some(i)
                    &&& *cfg == self.hosts@[spec_find_host_index(self.hosts@, host@)->0].1
                },
                None => spec_find_host_index(self.hosts@, host@) is None,
            },
    {
        let n = self.hosts.len();
        let mut i: usize = 0;
        while i < n
            invariant
                n == self.hosts@.len(),
                0 <= i <= n,
                forall|j: int| 0 <= j < i ==> (#[trigger] self.hosts@[j].0)@ != host@,
            decreases n - i,
        {
            if str_eq(self.hosts[i].0.as_str(), host) {
                proof {
                    lemma_find_host_scan(self.hosts@, host@, i as int);
                }
                return Some(&self.hosts[i].1);
            }
            i += 1;
        }
        proof {
            lemma_find_host_scan(self.hosts@, host@, n as int);
        }
        None
    }

    /// Merges a later, higher-priority configuration over this one.
    pub fn merge_from(&mut self, other: Config)
        ensures
            final(self).defaults == spec_defaults_merged(old(self).defaults, other.defaults),
            final(self).hosts@ == spec_hosts_merged(old(self).hosts@, other.hosts@),
            final(self).providers.openai == spec_provider_opt_merged(
                old(self).providers.openai,
                other.providers.openai,
            ),
            final(self).providers.anthropic == spec_provider_opt_merged(
                old(self).providers.anthropic,
                other.providers.anthropic,
            ),
            final(self).providers.gemini == spec_provider_opt_merged(
                old(self).providers.gemini,
                other.providers.gemini,
            ),
    {
        let Config { defaults, hosts, providers } = other;
        self.defaults.merge_from(defaults);
        let ghost incoming_all = hosts@;
        let mut incoming = hosts;
        let mut k: usize = 0;
        let total = incoming.len();
        while k < total
            invariant
                total == incoming_all.len(),
                0 <= k <= total,
                incoming@ == incoming_all.skip(k as int),
                self.hosts@ == spec_hosts_merged(old(self).hosts@, incoming_all.take(k as int)),
                self.defaults == spec_defaults_merged(old(self).defaults, other.defaults),
                self.providers == old(self).providers,
            decreases total - k,
        {
            let entry = incoming.remove(0);
            proof {
                assert(incoming_all.skip(k as int)[0] == incoming_all[k as int]);
                assert(incoming_all.skip(k as int).remove(0) =~= incoming_all.skip(k + 1));
            }
            merge_host_entry(&mut self.hosts, entry);
            proof {
                assert(incoming_all.take(k + 1).drop_last() =~= incoming_all.take(k as int));
                assert(incoming_all.take(k + 1).last() == incoming_all[k as int]);
            }
            k += 1;
        }
        proof {
            assert(incoming_all.take(total as int) =~= incoming_all);
        }
        self.providers.merge_from(providers);
    }
}

/// The effective system prompt: the base prompt, extended by the review
/// guide's text when one is given and is not blank.
pub fn compose_system_prompt(base: &str, guide: Option<&str>) -> (r: String)
    ensures
        match guide {
            None => r@ == base@,
            Some(g) => {
                if spec_trim(g@).len() == 0 {
                    r@ == base@
                } else {
                    r@ == base@ + "\n\nReview guide (must follow):\n"@ + spec_trim(g@)
                }
            },
        },
{
    let mut out = String::from_str(base);
    match guide {
        Some(g) => {
            let trimmed = trim_str(g);
            if trimmed.unicode_len() > 0 {
                out.append("\n\nReview guide (must follow):\n");
                out.append(trimmed);
            }
        },
        None => {},
    }
    out
}

} // verus!

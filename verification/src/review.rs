//! Core data model of one review run.

use vstd::prelude::*;
use crate::strutil::{lower_seq, spec_trim, str_eq, to_ascii_lower, trim_str};

verus! {

/// What the caller asked for: the target URL plus the two switches that
/// change write behaviour. `dry_run` suppresses every VCS write; `force`
/// re-reviews a commit that already carries review markers.
#[derive(Debug, Clone)]
pub struct RunOptions {
    pub url: String,
    pub dry_run: bool,
    pub force: bool,
}

/// One VCS comment as the pipeline knows it.
#[derive(Debug, Clone, PartialEq)]
pub struct ReviewComment {
    pub id: String,
    pub body: String,
}

/// The complete, agent-agnostic input to a primary review.
#[derive(Debug, Clone)]
pub struct ReviewRequest {
    pub target_url: String,
    pub head_sha: String,
    pub diff: String,
    pub system_prompt: String,
    pub comment_language: CommentLanguage,
}

/// Output language for review comments.
#[derive(Debug, Clone, Copy, PartialEq, Eq, Structural)]
pub enum CommentLanguage {
    Korean,
    English,
}

/// The language a raw configuration string selects: `en`/`english` (after
/// trimming and ASCII case folding) select English; everything else,
/// including an absent value, selects Korean.
pub open spec fn spec_language_of(value: Option<Seq<char>>) -> CommentLanguage {
    match value {
        None => CommentLanguage::Korean,
        Some(raw) => {
            let folded = lower_seq(spec_trim(raw));
            if folded == "en"@ || folded == "english"@ {
                CommentLanguage::English
            } else {
                CommentLanguage::Korean
            }
        },
    }
}

/// The instruction line that pins the output language of a prompt.
pub open spec fn spec_language_instruction(language: CommentLanguage) -> Seq<char> {
    match language {
        CommentLanguage::Korean => {
            "Write the final answer in Korean only. Do not use English headings or body text."@
        },
        CommentLanguage::English => {
            "Write the final answer in English only. Do not use Korean headings or body text."@
        },
    }
}

impl CommentLanguage {
    /// Reads a configured language string; unknown and absent values fall
    /// back to Korean.
    pub fn from_config(value: Option<&str>) -> (r: CommentLanguage)
        ensures
            r == spec_language_of(match value {
                Some(v) => Some(v@),
                None => None,
            }),
    {
        let raw = match value {
            Some(v) => v,
            None => { return CommentLanguage::Korean },
        };
        let folded = to_ascii_lower(trim_str(raw));
        if str_eq(folded.as_str(), "en") || str_eq(folded.as_str(), "english") {
            CommentLanguage::English
        } else {
            CommentLanguage::Korean
        }
    }

    /// The instruction line embedded in every prompt.
    pub fn prompt_instruction(self) -> (r: &'static str)
        ensures
            r@ == spec_language_instruction(self),
    {
        match self {
            CommentLanguage::Korean => {
                "Write the final answer in Korean only. Do not use English headings or body text."
            },
            CommentLanguage::English => {
                "Write the final answer in English only. Do not use Korean headings or body text."
            },
        }
    }

    /// The short code used when the configuration is inspected.
    pub fn code(self) -> (r: &'static str)
        ensures
            self is Korean ==> r@ == "ko"@,
            self is English ==> r@ == "en"@,
    {
        match self {
            CommentLanguage::Korean => "ko",
            CommentLanguage::English => "en",
        }
    }
}

/// Best-effort token accounting reported by a provider. Every field is
/// optional: a backend that reports nothing stays absent rather than zero.
#[derive(Debug, Clone, Copy)]
pub struct TokenUsage {
    pub prompt_tokens: Option<u64>,
    pub completion_tokens: Option<u64>,
    pub total_tokens: Option<u64>,
}

/// Additive merge of two optional counters: absent + absent stays absent,
/// absent + present keeps the present value, present + present adds.
pub open spec fn spec_sum_optional(a: Option<u64>, b: Option<u64>) -> Option<u64> {
    match (a, b) {
        (Some(x), Some(y)) => Some((x + y) as u64),
        (Some(x), None) => Some(x),
        (None, Some(y)) => Some(y),
        (None, None) => None,
    }
}

pub fn sum_optional(a: Option<u64>, b: Option<u64>) -> (r: Option<u64>)
    requires
        a is Some && b is Some ==> a->0 + b->0 <= u64::MAX,
    ensures
        r == spec_sum_optional(a, b),
{
    match (a, b) {
        (Some(x), Some(y)) => Some(x + y),
        (Some(x), None) => Some(x),
        (None, Some(y)) => Some(y),
        (None, None) => None,
    }
}

impl TokenUsage {
    /// The all-absent usage, used for failed agents.
    pub fn new() -> (r: TokenUsage)
        ensures
            r.prompt_tokens is None,
            r.completion_tokens is None,
            r.total_tokens is None,
    {
        TokenUsage { prompt_tokens: None, completion_tokens: None, total_tokens: None }
    }

    /// True when adding `other` overflows none of the three counters.
    pub open spec fn spec_can_absorb(self, other: TokenUsage) -> bool {
        &&& (self.prompt_tokens is Some && other.prompt_tokens is Some
            ==> self.prompt_tokens->0 + other.prompt_tokens->0 <= u64::MAX)
        &&& (self.completion_tokens is Some && other.completion_tokens is Some
            ==> self.completion_tokens->0 + other.completion_tokens->0 <= u64::MAX)
        &&& (self.total_tokens is Some && other.total_tokens is Some
            ==> self.total_tokens->0 + other.total_tokens->0 <= u64::MAX)
    }

    /// Whether adding `other` overflows none of the three counters, so that
    /// `add_from` may be called.
    pub fn can_absorb(&self, other: &TokenUsage) -> (r: bool)
        ensures
            r == self.spec_can_absorb(*other),
    {
        let prompt_ok = match (self.prompt_tokens, other.prompt_tokens) {
            (Some(x), Some(y)) => x <= u64::MAX - y,
            _ => true,
        };
        let completion_ok = match (self.completion_tokens, other.completion_tokens) {
            (Some(x), Some(y)) => x <= u64::MAX - y,
            _ => true,
        };
        let total_ok = match (self.total_tokens, other.total_tokens) {
            (Some(x), Some(y)) => x <= u64::MAX - y,
            _ => true,
        };
        prompt_ok && completion_ok && total_ok
    }

    /// The field-wise additive merge of two usages.
    pub open spec fn spec_merged(self, other: TokenUsage) -> TokenUsage {
        TokenUsage {
            prompt_tokens: spec_sum_optional(self.prompt_tokens, other.prompt_tokens),
            completion_tokens: spec_sum_optional(
                self.completion_tokens,
                other.completion_tokens,
            ),
            total_tokens: spec_sum_optional(self.total_tokens, other.total_tokens),
        }
    }

    /// Field-wise additive merge, treating an absent counter as "no data"
    /// rather than zero.
    pub fn add_from(&mut self, other: &TokenUsage)
        requires
            old(self).spec_can_absorb(*other),
        ensures
            *final(self) == old(self).spec_merged(*other),
    {
        self.prompt_tokens = sum_optional(self.prompt_tokens, other.prompt_tokens);
        self.completion_tokens = sum_optional(self.completion_tokens, other.completion_tokens);
        self.total_tokens = sum_optional(self.total_tokens, other.total_tokens);
    }
}

/// What one agent invocation returned: review text plus whatever usage the
/// backend chose to report.
#[derive(Debug, Clone)]
pub struct ProviderResponse {
    pub content: String,
    pub usage: TokenUsage,
}

/// The primary-round result of one provider, failed or not.
#[derive(Debug, Clone)]
pub struct ProviderRun {
    pub id: String,
    pub name: String,
    pub body: String,
    pub usage: TokenUsage,
}

/// What gets published as one per-agent comment.
#[derive(Debug, Clone)]
pub struct AgentComment {
    pub provider_id: String,
    pub provider_name: String,
    pub body: String,
    pub usage: TokenUsage,
}

/// One cross-agent reaction; no usage is tracked for the second round.
#[derive(Debug, Clone)]
pub struct AgentReaction {
    pub provider_name: String,
    pub body: String,
}

/// The two sentinel strings derived from a head commit SHA. They are pasted
/// verbatim into comment bodies and are the only dedup mechanism.
#[derive(Debug, Clone)]
pub struct ReviewMarkers {
    pub final_marker: String,
    pub claim_marker: String,
}

} // verus!

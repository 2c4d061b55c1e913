//! The pure collaborator implementations the pipeline can carry itself: URL
//! resolution, markdown rendering, and the always-yes confirmer used for
//! non-interactive runs.

use vstd::prelude::*;
use crate::render::{
    format_usage, render_agent_markdown, render_claim_markdown, render_final_summary_markdown,
    spec_format_usage, spec_render_agent, spec_render_claim, spec_render_final,
};
use crate::review::{AgentComment, AgentReaction, TokenUsage};
use crate::strutil::spec_digits_value;
use crate::target::{
    spec_dash_index, spec_github_shape, spec_gitlab_shape, spec_join_slash,
    spec_nonempty_segments, url_host_of, url_segments_of, ReviewTarget,
};

verus! {

/// Resolves user input into a review target.
pub trait TargetResolver {
    /// Parses a URL into a review target, exactly as `ReviewTarget::parse`
    /// does: GitHub `/pull/<n>` first, then GitLab `/-/merge_requests/<iid>`,
    /// and an error exactly when the input is no absolute URL with a host or
    /// neither shape matches.
    fn parse(&self, input: &str) -> (r: Result<ReviewTarget, String>)
        ensures
            ({
                let host_opt = url_host_of(input@);
                let segs = spec_nonempty_segments(url_segments_of(input@));
                match r {
                    Ok(t) => {
                        &&& host_opt is Some
                        &&& if spec_github_shape(segs) {
                            t matches ReviewTarget::GitHub { host, owner, repo, number, url }
                                && host@ == host_opt->0 && owner@ == segs[0] && repo@ == segs[1]
                                && number == spec_digits_value(segs[3]) && url@ == input@
                        } else {
                            spec_gitlab_shape(segs) && (t matches ReviewTarget::GitLab {
                                host,
                                project_path,
                                iid,
                                url,
                            } && host@ == host_opt->0 && project_path@ == spec_join_slash(
                                segs.take(spec_dash_index(segs)->0),
                            ) && iid == spec_digits_value(segs[spec_dash_index(segs)->0 + 2])
                                && url@ == input@)
                        }
                    },
                    Err(e) => {
                        &&& (host_opt is None || (!spec_github_shape(segs) && !spec_gitlab_shape(
                            segs,
                        )))
                        &&& (host_opt is None ==> e@ == "invalid target URL: "@ + input@)
                        &&& (host_opt is Some ==> e@ == "unsupported URL format: "@ + input@)
                    },
                }
            }),
    ;
}

/// The URL-based resolver: detection by URL shape alone.
pub struct UrlTargetResolver;

impl TargetResolver for UrlTargetResolver {
    fn parse(&self, input: &str) -> (r: Result<ReviewTarget, String>) {
        ReviewTarget::parse(input)
    }
}

/// Renders the markdown bodies the pipeline publishes. Every method is a
/// pure function of its inputs and embeds the dedup markers the pipeline
/// searches for.
pub trait MarkdownRenderer {
    /// The claim comment body.
    fn render_claim(&self, sha: &str, target_url: &str) -> (r: String)
        ensures
            r@ == spec_render_claim(sha@, target_url@),
    ;

    /// One agent's comment body.
    fn render_agent(&self, sha: &str, target_url: &str, agent: &AgentComment) -> (r: String)
        ensures
            r@ == spec_render_agent(sha@, target_url@, *agent),
    ;

    /// The final summary body.
    fn render_final(
        &self,
        sha: &str,
        target_url: &str,
        reactions: &Vec<AgentReaction>,
        agent_comment_refs: &Vec<(String, String)>,
        usage_rows: &Vec<(String, TokenUsage)>,
    ) -> (r: String)
        ensures
            r@ == spec_render_final(
                sha@,
                target_url@,
                reactions@,
                agent_comment_refs@,
                usage_rows@,
            ),
    ;

    /// A usage triple for display.
    fn format_usage(&self, usage: &TokenUsage) -> (r: String)
        ensures
            r@ == spec_format_usage(*usage),
    ;
}

/// The default renderer.
pub struct MarkdownRendererAdapter;

impl MarkdownRenderer for MarkdownRendererAdapter {
    fn render_claim(&self, sha: &str, target_url: &str) -> (r: String) {
        render_claim_markdown(sha, target_url)
    }

    fn render_agent(&self, sha: &str, target_url: &str, agent: &AgentComment) -> (r: String) {
        render_agent_markdown(sha, target_url, agent)
    }

    fn render_final(
        &self,
        sha: &str,
        target_url: &str,
        reactions: &Vec<AgentReaction>,
        agent_comment_refs: &Vec<(String, String)>,
        usage_rows: &Vec<(String, TokenUsage)>,
    ) -> (r: String) {
        render_final_summary_markdown(sha, target_url, reactions, agent_comment_refs, usage_rows)
    }

    fn format_usage(&self, usage: &TokenUsage) -> (r: String) {
        format_usage(usage)
    }
}

/// The confirmer for non-interactive and library use: every confirmation is
/// answered yes without blocking.
pub struct AutoConfirmer;

impl AutoConfirmer {
    /// Always confirms.
    pub fn confirm(&self, _message: &str) -> (r: bool)
        ensures
            r == true,
    {
        true
    }
}

} // verus!

//! The review pipeline as a state machine. Every decision the orchestrator
//! makes — skip or continue, update or create, write or stay silent — is a
//! function here with a contract; the caller performs the actual VCS and
//! agent calls between steps and feeds the results back in.

use vstd::prelude::*;
use vstd::string::StringExecFns;
use crate::policy::{
    find_comment_with_marker, lemma_find_marker_index_spec, markers_for_sha,
    spec_agent_marker, spec_claim_marker, spec_cross_agent_prompt, spec_final_marker,
    spec_find_marker_index, spec_upserted, upsert_comment_cache, agent_marker,
    build_cross_agent_prompt,
};
use crate::render::{
    render_agent_markdown, render_claim_markdown, render_final_summary_markdown,
    spec_render_agent, spec_render_claim, spec_render_final,
};
use crate::review::{
    AgentComment, AgentReaction, CommentLanguage, ProviderResponse, ProviderRun, ReviewComment,
    ReviewRequest, RunOptions, TokenUsage,
};
use crate::strutil::{
    contains_seq, lemma_contains_extend_left, lemma_contains_extend_right, lemma_prefix_contains,
    spec_u64_digits, u64_to_string,
};
use crate::target::ReviewTarget;

verus! {

/// Where a run stands, mirroring the stages of one invocation.
#[derive(Debug, Clone, Copy, PartialEq, Eq, Structural)]
pub enum RunPhase {
    Claiming,
    PrimaryReview,
    PublishingAgentComments,
    CrossAgentReview,
    PublishingSummary,
    Done,
    Skipped,
}

/// The claim decision at specification level: what the dedup rules dictate
/// for the given flags, SHA and comment list.
pub enum ClaimChoice {
    /// A marker for this SHA already exists and force is off: the run is a
    /// no-op success.
    Skip,
    /// Dry run: continue without any claim comment and without writes.
    DryRun,
    /// Repurpose the listed comment at this position as the claim.
    Reuse { index: int },
    /// No comment to repurpose: a new claim comment is needed.
    Create,
}

/// The dedup/claim rule. Dry runs always continue without a claim; otherwise
/// an existing final or claim marker means Skip unless forced; a continuing
/// run reuses the first claim comment, or — only when forced — the first
/// final comment, and creates a fresh claim comment when neither exists.
pub open spec fn spec_claim_choice(
    dry_run: bool,
    force: bool,
    sha: Seq<char>,
    comments: Seq<ReviewComment>,
) -> ClaimChoice {
    if dry_run {
        ClaimChoice::DryRun
    } else {
        let final_at = spec_find_marker_index(comments, spec_final_marker(sha));
        let claim_at = spec_find_marker_index(comments, spec_claim_marker(sha));
        if !force && (final_at is Some || claim_at is Some) {
            ClaimChoice::Skip
        } else if claim_at is Some {
            ClaimChoice::Reuse { index: claim_at->0 }
        } else if force && final_at is Some {
            ClaimChoice::Reuse { index: final_at->0 }
        } else {
            ClaimChoice::Create
        }
    }
}

/// The claim step as handed to the caller: either nothing to do, or exactly
/// one comment write carrying the rendered claim body.
pub enum ClaimPlan {
    Skip,
    DryRun,
    Update { comment_id: String, body: String },
    Create { body: String },
}

/// One planned write for an agent's comment.
pub enum PublishStep {
    Update { comment_id: String, body: String },
    Create { body: String },
}

/// The final-summary step: render only (dry run), update the claim comment,
/// or report the internal-error condition of a missing claim id.
pub enum SummaryPlan {
    Render { body: String },
    Update { comment_id: String, body: String },
    MissingClaim,
}

/// One review run's pipeline state: the options that govern writes, the
/// target coordinates, the local mirror of the VCS comment thread, and the
/// claim id the final summary must update.
pub struct ReviewRun {
    pub dry_run: bool,
    pub force: bool,
    pub target_url: String,
    pub head_sha: String,
    pub comments: Vec<ReviewComment>,
    pub claim_comment_id: Option<String>,
    pub agent_comment_refs: Vec<(String, String)>,
    pub phase: RunPhase,
}

impl ReviewRun {
    /// Starts a run over a resolved target, its head SHA, and the comments
    /// currently listed by the VCS (empty for a dry run, which lists none).
    pub fn new(
        options: &RunOptions,
        target_url: String,
        head_sha: String,
        existing_comments: Vec<ReviewComment>,
    ) -> (r: ReviewRun)
        ensures
            r.dry_run == options.dry_run,
            r.force == options.force,
            r.target_url == target_url,
            r.head_sha == head_sha,
            r.comments == existing_comments,
            r.claim_comment_id is None,
            r.agent_comment_refs@.len() == 0,
            r.phase is Claiming,
    {
        ReviewRun {
            dry_run: options.dry_run,
            force: options.force,
            target_url,
            head_sha,
            comments: existing_comments,
            claim_comment_id: None,
            agent_comment_refs: Vec::new(),
            phase: RunPhase::Claiming,
        }
    }

    /// The dedup/claim decision for this run, with the claim body already
    /// rendered for the write the caller may have to perform.
    pub fn claim_plan(&self) -> (r: ClaimPlan)
        requires
            self.phase is Claiming,
        ensures
            match spec_claim_choice(self.dry_run, self.force, self.head_sha@, self.comments@) {
                ClaimChoice::Skip => r is Skip,
                ClaimChoice::DryRun => r is DryRun,
                ClaimChoice::Reuse { index } => r matches ClaimPlan::Update {
                    comment_id,
                    body,
                } && comment_id@ == self.comments@[index].id@ && body@ == spec_render_claim(
                    self.head_sha@,
                    self.target_url@,
                ),
                ClaimChoice::Create => r matches ClaimPlan::Create { body } && body@
                    == spec_render_claim(self.head_sha@, self.target_url@),
            },
    {
        if self.dry_run {
            return ClaimPlan::DryRun;
        }
        let markers = markers_for_sha(self.head_sha.as_str());
        let final_comment = find_comment_with_marker(&self.comments, markers.final_marker.as_str());
        let claim_comment = find_comment_with_marker(&self.comments, markers.claim_marker.as_str());
        if !self.force && (final_comment.is_some() || claim_comment.is_some()) {
            return ClaimPlan::Skip;
        }
        let body = render_claim_markdown(self.head_sha.as_str(), self.target_url.as_str());
        match claim_comment {
            Some(c) => ClaimPlan::Update { comment_id: c.id.clone(), body },
            None => {
                if self.force {
                    match final_comment {
                        Some(c) => ClaimPlan::Update { comment_id: c.id.clone(), body },
                        None => ClaimPlan::Create { body },
                    }
                } else {
                    ClaimPlan::Create { body }
                }
            },
        }
    }

    /// Ends the run as a no-op success after a Skip decision.
    pub fn apply_skip(&mut self)
        requires
            old(self).phase is Claiming,
            (spec_claim_choice(
                old(self).dry_run,
                old(self).force,
                old(self).head_sha@,
                old(self).comments@,
            ) is Skip),
        ensures
            *final(self) == (ReviewRun { phase: RunPhase::Skipped, ..*old(self) }),
    {
        self.phase = RunPhase::Skipped;
    }

    /// Continues a dry run past the claim step: no claim id, no write.
    pub fn apply_claim_dry_run(&mut self)
        requires
            old(self).phase is Claiming,
            (spec_claim_choice(
                old(self).dry_run,
                old(self).force,
                old(self).head_sha@,
                old(self).comments@,
            ) is DryRun),
        ensures
            *final(self) == (ReviewRun {
                phase: RunPhase::PrimaryReview,
                claim_comment_id: None,
                ..*old(self)
            }),
    {
        self.claim_comment_id = None;
        self.phase = RunPhase::PrimaryReview;
    }

    /// Records the claim comment the caller created or updated: the cache
    /// mirrors it and its id becomes the claim id the summary will update.
    pub fn apply_claim_posted(&mut self, claim_comment_id: String, posted: ReviewComment)
        requires
            old(self).phase is Claiming,
            match spec_claim_choice(
                old(self).dry_run,
                old(self).force,
                old(self).head_sha@,
                old(self).comments@,
            ) {
                ClaimChoice::Reuse { index } => claim_comment_id@
                    == old(self).comments@[index].id@,
                ClaimChoice::Create => claim_comment_id@ == posted.id@,
                _ => false,
            },
        ensures
            final(self).comments@ == spec_upserted(old(self).comments@, posted),
            final(self).claim_comment_id matches Some(id) && id == claim_comment_id,
            final(self).phase is PrimaryReview,
            final(self).dry_run == old(self).dry_run,
            final(self).force == old(self).force,
            final(self).target_url == old(self).target_url,
            final(self).head_sha == old(self).head_sha,
            final(self).agent_comment_refs == old(self).agent_comment_refs,
    {
        upsert_comment_cache(&mut self.comments, posted);
        self.claim_comment_id = Some(claim_comment_id);
        self.phase = RunPhase::PrimaryReview;
    }

    /// Assembles the one request every agent reviews. Agents receive clones;
    /// the request itself is never mutated.
    pub fn build_review_request(
        &self,
        diff: String,
        system_prompt: String,
        comment_language: CommentLanguage,
    ) -> (r: ReviewRequest)
        ensures
            r.target_url == self.target_url,
            r.head_sha == self.head_sha,
            r.diff == diff,
            r.system_prompt == system_prompt,
            r.comment_language == comment_language,
    {
        ReviewRequest {
            target_url: self.target_url.clone(),
            head_sha: self.head_sha.clone(),
            diff,
            system_prompt,
            comment_language,
        }
    }

    /// Moves from the primary round to publishing the per-agent comments.
    pub fn begin_publishing(&mut self)
        requires
            old(self).phase is PrimaryReview,
        ensures
            *final(self) == (ReviewRun { phase: RunPhase::PublishingAgentComments, ..*old(self) }),
    {
        self.phase = RunPhase::PublishingAgentComments;
    }

    /// The write planned for one agent's comment: none in a dry run;
    /// otherwise an update of the first cached comment already carrying this
    /// agent's marker, or a creation when there is none.
    pub fn plan_agent_publish(&self, agent: &AgentComment) -> (r: Option<PublishStep>)
        requires
            self.phase is PublishingAgentComments,
        ensures
            self.dry_run ==> r is None,
            !self.dry_run ==> (r matches Some(step) && {
                let marker = spec_agent_marker(agent.provider_id@, self.head_sha@);
                let body = spec_render_agent(self.head_sha@, self.target_url@, *agent);
                match spec_find_marker_index(self.comments@, marker) {
                    Some(i) => step matches PublishStep::Update { comment_id, body: b }
                        && comment_id@ == self.comments@[i].id@ && b@ == body,
                    None => step matches PublishStep::Create { body: b } && b@ == body,
                }
            }),
    {
        if self.dry_run {
            return None;
        }
        let marker = agent_marker(agent.provider_id.as_str(), self.head_sha.as_str());
        let body = render_agent_markdown(self.head_sha.as_str(), self.target_url.as_str(), agent);
        match find_comment_with_marker(&self.comments, marker.as_str()) {
            Some(c) => Some(PublishStep::Update { comment_id: c.id.clone(), body }),
            None => Some(PublishStep::Create { body }),
        }
    }

    /// Records one posted agent comment: the cache mirrors it and the
    /// reference list gains `(provider name, posted id)`, in publish order.
    pub fn record_agent_posted(&mut self, provider_name: String, posted: ReviewComment)
        requires
            old(self).phase is PublishingAgentComments,
            !old(self).dry_run,
        ensures
            final(self).comments@ == spec_upserted(old(self).comments@, posted),
            final(self).agent_comment_refs@ == old(self).agent_comment_refs@.push(
                (provider_name, posted.id),
            ),
            final(self).phase is PublishingAgentComments,
            final(self).dry_run == old(self).dry_run,
            final(self).force == old(self).force,
            final(self).target_url == old(self).target_url,
            final(self).head_sha == old(self).head_sha,
            final(self).claim_comment_id == old(self).claim_comment_id,
    {
        let id = posted.id.clone();
        upsert_comment_cache(&mut self.comments, posted);
        self.agent_comment_refs.push((provider_name, id));
    }

    /// Moves from publishing agent comments to the cross-agent round.
    pub fn begin_cross_round(&mut self)
        requires
            old(self).phase is PublishingAgentComments,
        ensures
            *final(self) == (ReviewRun { phase: RunPhase::CrossAgentReview, ..*old(self) }),
    {
        self.phase = RunPhase::CrossAgentReview;
    }

    /// Moves from the cross-agent round to publishing the final summary.
    pub fn begin_summary(&mut self)
        requires
            old(self).phase is CrossAgentReview,
        ensures
            *final(self) == (ReviewRun { phase: RunPhase::PublishingSummary, ..*old(self) }),
    {
        self.phase = RunPhase::PublishingSummary;
    }

    /// The final-summary step. The body is always rendered — a dry run
    /// surfaces it without writing; otherwise it must update the claim
    /// comment established earlier, and a missing claim id is the
    /// internal-error condition, never a fresh comment.
    pub fn plan_final_summary(
        &self,
        reactions: &Vec<AgentReaction>,
        usage_rows: &Vec<(String, TokenUsage)>,
    ) -> (r: SummaryPlan)
        requires
            self.phase is PublishingSummary,
        ensures
            ({
                let body = spec_render_final(
                    self.head_sha@,
                    self.target_url@,
                    reactions@,
                    self.agent_comment_refs@,
                    usage_rows@,
                );
                &&& self.dry_run ==> (r matches SummaryPlan::Render { body: b } && b@ == body)
                &&& (!self.dry_run && self.claim_comment_id is Some) ==> (r
                    matches SummaryPlan::Update { comment_id, body: b } && comment_id
                    == self.claim_comment_id->0 && b@ == body)
                &&& (!self.dry_run && self.claim_comment_id is None) ==> r is MissingClaim
            }),
    {
        let body = render_final_summary_markdown(
            self.head_sha.as_str(),
            self.target_url.as_str(),
            reactions,
            &self.agent_comment_refs,
            usage_rows,
        );
        if self.dry_run {
            return SummaryPlan::Render { body };
        }
        match &self.claim_comment_id {
            Some(id) => SummaryPlan::Update { comment_id: id.clone(), body },
            None => SummaryPlan::MissingClaim,
        }
    }

    /// Ends a dry run after its summary was rendered.
    pub fn finish_rendered(&mut self)
        requires
            old(self).phase is PublishingSummary,
            old(self).dry_run,
        ensures
            *final(self) == (ReviewRun { phase: RunPhase::Done, ..*old(self) }),
    {
        self.phase = RunPhase::Done;
    }

    /// Ends the run after the summary replaced the claim comment, mirroring
    /// the write into the cache.
    pub fn finish_posted(&mut self, posted: ReviewComment)
        requires
            old(self).phase is PublishingSummary,
            !old(self).dry_run,
        ensures
            final(self).comments@ == spec_upserted(old(self).comments@, posted),
            final(self).phase is Done,
            final(self).dry_run == old(self).dry_run,
            final(self).force == old(self).force,
            final(self).target_url == old(self).target_url,
            final(self).head_sha == old(self).head_sha,
            final(self).claim_comment_id == old(self).claim_comment_id,
            final(self).agent_comment_refs == old(self).agent_comment_refs,
    {
        upsert_comment_cache(&mut self.comments, posted);
        self.phase = RunPhase::Done;
    }
}

/// The message shown when a fetched diff exceeds the configured limit.
pub open spec fn spec_oversize_diff_warning(diff_len: int, max_diff_bytes: int) -> Seq<char> {
    "warning: diff size ("@ + spec_u64_digits(diff_len) + " bytes) exceeds max_diff_bytes ("@
        + spec_u64_digits(max_diff_bytes) + " bytes)."@
}

/// Whether the fetched diff exceeds the configured byte limit, in which case
/// the run pauses for an explicit confirmation before proceeding.
pub fn diff_exceeds_limit(diff_len: usize, max_diff_bytes: usize) -> (r: bool)
    ensures
        r == (diff_len > max_diff_bytes),
{
    diff_len > max_diff_bytes
}

/// Renders the warning an oversize diff is confirmed against.
pub fn oversize_diff_warning(diff_len: usize, max_diff_bytes: usize) -> (r: String)
    ensures
        r@ == spec_oversize_diff_warning(diff_len as int, max_diff_bytes as int),
{
    let mut out = String::from_str("warning: diff size (");
    out.append(u64_to_string(diff_len as u64).as_str());
    out.append(" bytes) exceeds max_diff_bytes (");
    out.append(u64_to_string(max_diff_bytes as u64).as_str());
    out.append(" bytes).");
    out
}

/// What the user's answer to the oversize-diff confirmation means: a
/// declined confirmation aborts the run with the fixed cancellation
/// failure, an accepted one lets it proceed.
pub fn diff_confirmation_outcome(confirmed: bool) -> (r: Result<(), String>)
    ensures
        confirmed <==> r is Ok,
        !confirmed ==> (r matches Err(m) && m@ == "cancelled by user"@),
{
    if confirmed {
        Ok(())
    } else {
        Err(String::from_str("cancelled by user"))
    }
}

/// The missing-token failure for a host, with the matching login hint.
pub open spec fn spec_missing_token_message(host: Seq<char>, github: bool) -> Seq<char> {
    "missing VCS token for host '"@ + host + "'. Configure hosts."@ + host + ".token / hosts."@
        + host + ".token_env / hosts."@ + host + ".token_command (OAuth), run `repopilot auth "@
        + (if github {
        "github"@
    } else {
        "gitlab"@
    }) + " --host "@ + host + "`, or use --dry-run"@
}

/// The token gate: a run that will write needs a resolved host token before
/// any VCS call; a dry run proceeds without one. A missing token aborts with
/// a message naming the host, the configuration keys and the login command.
pub fn require_host_token(dry_run: bool, target: &ReviewTarget, token_present: bool) -> (r: Result<
    (),
    String,
>)
    ensures
        (dry_run || token_present) <==> r is Ok,
        !(dry_run || token_present) ==> (r matches Err(m) && m@ == spec_missing_token_message(
            match target {
                ReviewTarget::GitHub { host, .. } => host@,
                ReviewTarget::GitLab { host, .. } => host@,
            },
            target is GitHub,
        )),
{
    if dry_run || token_present {
        return Ok(());
    }
    let host = target.host();
    let mut out = String::from_str("missing VCS token for host '");
    out.append(host);
    out.append("'. Configure hosts.");
    out.append(host);
    out.append(".token / hosts.");
    out.append(host);
    out.append(".token_env / hosts.");
    out.append(host);
    out.append(".token_command (OAuth), run `repopilot auth ");
    match target {
        ReviewTarget::GitHub { .. } => out.append("github"),
        ReviewTarget::GitLab { .. } => out.append("gitlab"),
    }
    out.append(" --host ");
    out.append(host);
    out.append("`, or use --dry-run");
    Err(out)
}

/// Whether the existing comment thread is listed at all: a dry run performs
/// no list call and starts from an empty cache.
pub fn should_list_comments(dry_run: bool) -> (r: bool)
    ensures
        r == !dry_run,
{
    !dry_run
}

/// The provider gate: a run needs at least one enabled provider; none at all
/// aborts before any agent call, with a configuration hint.
pub fn require_enabled_providers(provider_count: usize) -> (r: Result<(), String>)
    ensures
        (provider_count > 0) <==> r is Ok,
        provider_count == 0 ==> (r matches Err(m) && m@
            == "no providers enabled. Configure providers.<name>.command (and optionally args/use_stdin), and ensure commands are installed"@),
{
    if provider_count > 0 {
        Ok(())
    } else {
        Err(
            String::from_str(
                "no providers enabled. Configure providers.<name>.command (and optionally args/use_stdin), and ensure commands are installed",
            ),
        )
    }
}

/// The visible body of a failed agent: the error message set off in italics.
pub open spec fn spec_error_body(message: Seq<char>) -> Seq<char> {
    "_Error: "@ + message + "_"@
}

/// Wraps one primary-round outcome. A failure still yields a run — its body
/// is a readable placeholder and its usage is empty — so a failed agent
/// stays visible instead of vanishing from the output.
pub fn provider_run_from_outcome(
    provider_id: String,
    provider_name: String,
    outcome: Result<ProviderResponse, String>,
) -> (r: ProviderRun)
    ensures
        r.id == provider_id,
        r.name == provider_name,
        match outcome {
            Ok(resp) => r.body == resp.content && r.usage == resp.usage,
            Err(message) => r.body@ == spec_error_body(message@) && r.usage.prompt_tokens is None
                && r.usage.completion_tokens is None && r.usage.total_tokens is None,
        },
{
    match outcome {
        Ok(resp) => ProviderRun {
            id: provider_id,
            name: provider_name,
            body: resp.content,
            usage: resp.usage,
        },
        Err(message) => {
            let mut body = String::from_str("_Error: ");
            body.append(message.as_str());
            body.append("_");
            ProviderRun { id: provider_id, name: provider_name, body, usage: TokenUsage::new() }
        },
    }
}

/// Wraps one cross-round outcome into a reaction, with the same
/// error-placeholder policy as the primary round.
pub fn reaction_from_outcome(
    provider_name: String,
    outcome: Result<ProviderResponse, String>,
) -> (r: AgentReaction)
    ensures
        r.provider_name == provider_name,
        match outcome {
            Ok(resp) => r.body == resp.content,
            Err(message) => r.body@ == spec_error_body(message@),
        },
{
    match outcome {
        Ok(resp) => AgentReaction { provider_name, body: resp.content },
        Err(message) => {
            let mut body = String::from_str("_Error: ");
            body.append(message.as_str());
            body.append("_");
            AgentReaction { provider_name, body }
        },
    }
}

/// Derives the publishable agent comments from the primary results, one to
/// one and in the same order.
pub fn agent_comments_from_runs(runs: &Vec<ProviderRun>) -> (r: Vec<AgentComment>)
    ensures
        r@.len() == runs@.len(),
        forall|i: int|
            0 <= i < runs@.len() ==> {
                &&& (#[trigger] r@[i]).provider_id == runs@[i].id
                &&& r@[i].provider_name == runs@[i].name
                &&& r@[i].body == runs@[i].body
                &&& r@[i].usage == runs@[i].usage
            },
{
    let mut out: Vec<AgentComment> = Vec::new();
    let n = runs.len();
    let mut i: usize = 0;
    while i < n
        invariant
            n == runs@.len(),
            0 <= i <= n,
            out@.len() == i,
            forall|j: int|
                0 <= j < i ==> {
                    &&& (#[trigger] out@[j]).provider_id == runs@[j].id
                    &&& out@[j].provider_name == runs@[j].name
                    &&& out@[j].body == runs@[j].body
                    &&& out@[j].usage == runs@[j].usage
                },
        decreases n - i,
    {
        out.push(
            AgentComment {
                provider_id: runs[i].id.clone(),
                provider_name: runs[i].name.clone(),
                body: runs[i].body.clone(),
                usage: runs[i].usage,
            },
        );
        i += 1;
    }
    out
}

/// The position of the first run produced by the given provider id.
pub open spec fn spec_find_run_index(runs: Seq<ProviderRun>, id: Seq<char>) -> Option<int>
    decreases runs.len(),
{
    if runs.len() == 0 {
        None
    } else if runs[0].id@ == id {
        Some(0int)
    } else {
        match spec_find_run_index(runs.drop_first(), id) {
            Some(i) => Some(i + 1),
            None => None,
        }
    }
}

proof fn lemma_find_run_scan(runs: Seq<ProviderRun>, id: Seq<char>, i: int)
    requires
        0 <= i <= runs.len(),
        forall|j: int| 0 <= j < i ==> (#[trigger] runs[j].id)@ != id,
    ensures
        i < runs.len() && runs[i].id@ == id ==> spec_find_run_index(runs, id) == Some(i),
        i == runs.len() ==> spec_find_run_index(runs, id) is None,
    decreases i,
{
    if i > 0 {
        assert(runs[0].id@ != id);
        lemma_find_run_scan(runs.drop_first(), id, i - 1);
        assert forall|j: int| 1 <= j < runs.len() implies runs.drop_first()[j - 1]
            == runs[j] by {}
    }
}

/// Finds one provider's primary-round result by its id. Results arrive in
/// completion order, while comments are published in provider-list order;
/// this lookup bridges the two.
pub fn find_run_index(runs: &Vec<ProviderRun>, provider_id: &str) -> (r: Option<usize>)
    ensures
        match r {
            Some(i) => spec_find_run_index(runs@, provider_id@) == Some(i as int),
            None => spec_find_run_index(runs@, provider_id@) is None,
        },
{
    let n = runs.len();
    let mut i: usize = 0;
    while i < n
        invariant
            n == runs@.len(),
            0 <= i <= n,
            forall|j: int| 0 <= j < i ==> (#[trigger] runs@[j].id)@ != provider_id@,
        decreases n - i,
    {
        if crate::strutil::str_eq(runs[i].id.as_str(), provider_id) {
            proof {
                lemma_find_run_scan(runs@, provider_id@, i as int);
            }
            return Some(i);
        }
        i += 1;
    }
    proof {
        lemma_find_run_scan(runs@, provider_id@, n as int);
    }
    None
}

/// Whether the cross-agent round runs at all: one agent has nothing to react
/// to, so it needs at least two.
pub fn cross_agent_round_enabled(provider_count: usize) -> (r: bool)
    ensures
        r == (provider_count >= 2),
{
    provider_count >= 2
}

/// Builds the cross-agent prompts, one per provider `(id, name)` pair, each
/// embedding every *other* provider's primary body. Skipped entirely — the
/// result is empty — when fewer than two providers are enabled.
pub fn cross_agent_prompts(
    providers: &Vec<(String, String)>,
    request: &ReviewRequest,
    primary_results: &Vec<ProviderRun>,
) -> (r: Vec<(String, String)>)
    ensures
        providers@.len() < 2 ==> r@.len() == 0,
        providers@.len() >= 2 ==> {
            &&& r@.len() == providers@.len()
            &&& forall|i: int|
                0 <= i < providers@.len() ==> {
                    &&& (#[trigger] r@[i]).0 == providers@[i].1
                    &&& r@[i].1@ == spec_cross_agent_prompt(
                        request.target_url@,
                        request.head_sha@,
                        providers@[i].0@,
                        providers@[i].1@,
                        request.comment_language,
                        primary_results@,
                    )
                }
        },
{
    let mut out: Vec<(String, String)> = Vec::new();
    if providers.len() < 2 {
        return out;
    }
    let n = providers.len();
    let mut i: usize = 0;
    while i < n
        invariant
            n == providers@.len(),
            0 <= i <= n,
            out@.len() == i,
            forall|j: int|
                0 <= j < i ==> {
                    &&& (#[trigger] out@[j]).0 == providers@[j].1
                    &&& out@[j].1@ == spec_cross_agent_prompt(
                        request.target_url@,
                        request.head_sha@,
                        providers@[j].0@,
                        providers@[j].1@,
                        request.comment_language,
                        primary_results@,
                    )
                },
        decreases n - i,
    {
        let prompt = build_cross_agent_prompt(
            request.target_url.as_str(),
            request.head_sha.as_str(),
            providers[i].0.as_str(),
            providers[i].1.as_str(),
            request.comment_language,
            primary_results,
        );
        out.push((providers[i].1.clone(), prompt));
        i += 1;
    }
    out
}

/// The rendered claim body carries the claim marker it will be found by.
pub proof fn lemma_claim_body_carries_marker(sha: Seq<char>, target_url: Seq<char>)
    ensures
        contains_seq(spec_render_claim(sha, target_url), spec_claim_marker(sha)),
{
    let body = spec_render_claim(sha, target_url);
    let marker = spec_claim_marker(sha);
    assert(body.subrange(0, marker.len() as int) =~= marker);
    lemma_prefix_contains(body, marker);
}

/// The rendered final summary carries the final marker it will be found by.
pub proof fn lemma_final_body_carries_marker(
    sha: Seq<char>,
    target_url: Seq<char>,
    reactions: Seq<AgentReaction>,
    agent_comment_refs: Seq<(String, String)>,
    usage_rows: Seq<(String, TokenUsage)>,
)
    ensures
        contains_seq(
            spec_render_final(sha, target_url, reactions, agent_comment_refs, usage_rows),
            spec_final_marker(sha),
        ),
{
    let body = spec_render_final(sha, target_url, reactions, agent_comment_refs, usage_rows);
    let marker = spec_final_marker(sha);
    assert(body.subrange(0, marker.len() as int) =~= marker);
    lemma_prefix_contains(body, marker);
}

/// A rendered agent comment carries that agent's marker.
pub proof fn lemma_agent_body_carries_marker(
    sha: Seq<char>,
    target_url: Seq<char>,
    agent: AgentComment,
)
    ensures
        contains_seq(
            spec_render_agent(sha, target_url, agent),
            spec_agent_marker(agent.provider_id@, sha),
        ),
{
    let body = spec_render_agent(sha, target_url, agent);
    let marker = spec_agent_marker(agent.provider_id@, sha);
    assert(body.subrange(0, marker.len() as int) =~= marker);
    lemma_prefix_contains(body, marker);
}

/// Republishing idempotency: once the cache holds a rendered comment for an
/// agent and this SHA, the publish plan for that agent finds a comment to
/// update, so no second comment is ever created for the same agent and SHA.
pub proof fn lemma_agent_republish_updates(
    sha: Seq<char>,
    target_url: Seq<char>,
    agent: AgentComment,
    comments: Seq<ReviewComment>,
    i: int,
)
    requires
        0 <= i < comments.len(),
        comments[i].body@ == spec_render_agent(sha, target_url, agent),
    ensures
        spec_find_marker_index(comments, spec_agent_marker(agent.provider_id@, sha)) is Some,
{
    lemma_agent_body_carries_marker(sha, target_url, agent);
    lemma_find_marker_index_spec(comments, spec_agent_marker(agent.provider_id@, sha));
}

/// A summary rendered with no reactions says so: the cross-agent section of
/// the final comment states explicitly that no reactions ran.
pub proof fn lemma_summary_notes_skipped_reactions(
    sha: Seq<char>,
    target_url: Seq<char>,
    agent_comment_refs: Seq<(String, String)>,
    usage_rows: Seq<(String, TokenUsage)>,
)
    ensures
        contains_seq(
            spec_render_final(sha, target_url, Seq::empty(), agent_comment_refs, usage_rows),
            "- Not enough agents to run cross-agent reactions.\n\n"@,
        ),
{
    let notice = "- Not enough agents to run cross-agent reactions.\n\n"@;
    let head = spec_final_marker(sha) + "\n\n"@ + "# Multi-Agent Review Summary\n\n"@
        + "- Target: "@ + target_url + "\n"@ + "- Head SHA: `"@ + sha + "`\n\n"@
        + "## Individual Agent Comments\n\n"@ + crate::render::spec_refs_section(
        agent_comment_refs,
    ) + "## Agent-to-Agent Reactions\n\n"@;
    assert(crate::render::spec_reactions_section(Seq::empty()) == notice);
    assert(notice.subrange(0, notice.len() as int) =~= notice);
    lemma_prefix_contains(notice, notice);
    lemma_contains_extend_left(head, notice, notice);
    lemma_contains_extend_right(head + notice, "## Token Usage (Best Effort)\n\n"@, notice);
    lemma_contains_extend_right(
        head + notice + "## Token Usage (Best Effort)\n\n"@,
        "| Agent | Prompt | Completion | Total |\n"@,
        notice,
    );
    lemma_contains_extend_right(
        head + notice + "## Token Usage (Best Effort)\n\n"@
            + "| Agent | Prompt | Completion | Total |\n"@,
        "|---|---:|---:|---:|\n"@,
        notice,
    );
    lemma_contains_extend_right(
        head + notice + "## Token Usage (Best Effort)\n\n"@
            + "| Agent | Prompt | Completion | Total |\n"@ + "|---|---:|---:|---:|\n"@,
        crate::render::spec_usage_rows(usage_rows),
        notice,
    );
    assert(spec_render_final(sha, target_url, Seq::empty(), agent_comment_refs, usage_rows)
        == head + notice + "## Token Usage (Best Effort)\n\n"@
        + "| Agent | Prompt | Completion | Total |\n"@ + "|---|---:|---:|---:|\n"@
        + crate::render::spec_usage_rows(usage_rows));
}

/// Idempotency of the claim step: once any listed comment carries the final
/// or the claim marker for a SHA, a non-forced, non-dry run decides Skip and
/// performs no write.
pub proof fn lemma_marked_sha_skips(sha: Seq<char>, comments: Seq<ReviewComment>, i: int)
    requires
        0 <= i < comments.len(),
        contains_seq(comments[i].body@, spec_final_marker(sha)) || contains_seq(
            comments[i].body@,
            spec_claim_marker(sha),
        ),
    ensures
        spec_claim_choice(false, false, sha, comments) is Skip,
{
    lemma_find_marker_index_spec(comments, spec_final_marker(sha));
    lemma_find_marker_index_spec(comments, spec_claim_marker(sha));
}

/// Idempotency across runs: a comment list holding a final summary posted
/// for `sha` makes the next non-forced, non-dry run against the same SHA a
/// Skip, so a second invocation performs zero additional VCS writes.
pub proof fn lemma_second_run_skips(
    sha: Seq<char>,
    target_url: Seq<char>,
    reactions: Seq<AgentReaction>,
    agent_comment_refs: Seq<(String, String)>,
    usage_rows: Seq<(String, TokenUsage)>,
    comments: Seq<ReviewComment>,
    i: int,
)
    requires
        0 <= i < comments.len(),
        comments[i].body@ == spec_render_final(
            sha,
            target_url,
            reactions,
            agent_comment_refs,
            usage_rows,
        ),
    ensures
        spec_claim_choice(false, false, sha, comments) is Skip,
{
    lemma_final_body_carries_marker(sha, target_url, reactions, agent_comment_refs, usage_rows);
    lemma_marked_sha_skips(sha, comments, i);
}

/// Force override: with force on, an already-reviewed SHA — a final comment
/// listed and no claim comment — has its existing final comment reused in
/// place. The claim step updates that very comment and creates nothing.
pub proof fn lemma_force_reuses_final_comment(sha: Seq<char>, comments: Seq<ReviewComment>)
    requires
        spec_find_marker_index(comments, spec_claim_marker(sha)) is None,
        spec_find_marker_index(comments, spec_final_marker(sha)) is Some,
    ensures
        spec_claim_choice(false, true, sha, comments) matches ClaimChoice::Reuse { index }
            && index == spec_find_marker_index(comments, spec_final_marker(sha))->0,
{
}

/// Dry-run purity at the claim step: whatever is listed and whatever force
/// says, a dry run decides DryRun — never a Skip, an update or a creation.
pub proof fn lemma_dry_run_claims_nothing(
    force: bool,
    sha: Seq<char>,
    comments: Seq<ReviewComment>,
)
    ensures
        spec_claim_choice(true, force, sha, comments) is DryRun,
{
}

} // verus!

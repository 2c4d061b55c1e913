//! End-to-end scenarios over the pipeline state machine.

use prpilot::pipeline::{
    agent_comments_from_runs, cross_agent_prompts, diff_confirmation_outcome, diff_exceeds_limit,
    oversize_diff_warning, provider_run_from_outcome, reaction_from_outcome,
    require_enabled_providers, require_host_token, should_list_comments, ClaimPlan, PublishStep,
    ReviewRun, RunPhase, SummaryPlan,
};
use prpilot::policy::{agent_marker, markers_for_sha};
use prpilot::review::{
    AgentComment, AgentReaction, CommentLanguage, ProviderResponse, ReviewComment, ReviewRequest,
    RunOptions, TokenUsage,
};

fn options(dry_run: bool, force: bool) -> RunOptions {
    RunOptions { url: "https://github.com/o/r/pull/1".to_string(), dry_run, force }
}

fn usage_none() -> TokenUsage {
    TokenUsage { prompt_tokens: None, completion_tokens: None, total_tokens: None }
}

fn request() -> ReviewRequest {
    ReviewRequest {
        target_url: "https://github.com/o/r/pull/1".to_string(),
        head_sha: "abc".to_string(),
        diff: "diff".to_string(),
        system_prompt: "sys".to_string(),
        comment_language: CommentLanguage::English,
    }
}

/// One full non-dry run against an empty thread, then a second run over the
/// resulting thread: the second run must skip without any write.
#[test]
fn idempotency_second_run_skips() {
    let mut run = ReviewRun::new(
        &options(false, false),
        "https://github.com/o/r/pull/1".to_string(),
        "abc".to_string(),
        Vec::new(),
    );

    // First run: no markers listed, so a fresh claim comment is created.
    let plan = run.claim_plan();
    let claim_body = match plan {
        ClaimPlan::Create { body } => body,
        _ => panic!("expected a claim creation on an empty thread"),
    };
    run.apply_claim_posted(
        "c1".to_string(),
        ReviewComment { id: "c1".to_string(), body: claim_body },
    );

    // One agent reviews and its comment is posted.
    let outcome = provider_run_from_outcome(
        "openai".to_string(),
        "OpenAI".to_string(),
        Ok(ProviderResponse { content: "looks fine".to_string(), usage: usage_none() }),
    );
    let agents = agent_comments_from_runs(&vec![outcome]);
    run.begin_publishing();
    let step = run.plan_agent_publish(&agents[0]).expect("non-dry run plans a write");
    let agent_body = match step {
        PublishStep::Create { body } => body,
        PublishStep::Update { .. } => panic!("no agent comment exists yet"),
    };
    run.record_agent_posted(
        "OpenAI".to_string(),
        ReviewComment { id: "a1".to_string(), body: agent_body },
    );

    // The final summary replaces the claim comment in place.
    run.begin_cross_round();
    run.begin_summary();
    let reactions: Vec<AgentReaction> = Vec::new();
    let rows: Vec<(String, TokenUsage)> = Vec::new();
    let summary = run.plan_final_summary(&reactions, &rows);
    let (summary_id, summary_body) = match summary {
        SummaryPlan::Update { comment_id, body } => (comment_id, body),
        _ => panic!("a non-dry run updates the claim comment"),
    };
    assert_eq!(summary_id, "c1");
    run.finish_posted(ReviewComment { id: summary_id, body: summary_body });
    assert_eq!(run.phase, RunPhase::Done);

    // Second run over the same thread: exactly one claim/final pair exists
    // and the dedup check skips without any further write.
    let second = ReviewRun::new(
        &options(false, false),
        "https://github.com/o/r/pull/1".to_string(),
        "abc".to_string(),
        run.comments.clone(),
    );
    assert!(matches!(second.claim_plan(), ClaimPlan::Skip));
}

/// With force on, an already-reviewed SHA has its final comment updated in
/// place under the same id, not duplicated.
#[test]
fn force_override_reuses_final_comment() {
    let markers = markers_for_sha("abc");
    let existing = vec![
        ReviewComment { id: "other".to_string(), body: "hello".to_string() },
        ReviewComment {
            id: "final-9".to_string(),
            body: format!("{}\nreview text", markers.final_marker),
        },
    ];
    let run = ReviewRun::new(
        &options(false, true),
        "https://github.com/o/r/pull/1".to_string(),
        "abc".to_string(),
        existing,
    );
    match run.claim_plan() {
        ClaimPlan::Update { comment_id, .. } => assert_eq!(comment_id, "final-9"),
        _ => panic!("force must repurpose the existing final comment"),
    }
}

/// Without force the same thread is skipped.
#[test]
fn reviewed_sha_skips_without_force() {
    let markers = markers_for_sha("abc");
    let existing = vec![ReviewComment {
        id: "final-9".to_string(),
        body: format!("{}\nreview text", markers.final_marker),
    }];
    let run = ReviewRun::new(
        &options(false, false),
        "u".to_string(),
        "abc".to_string(),
        existing,
    );
    assert!(matches!(run.claim_plan(), ClaimPlan::Skip));
}

/// Agent A succeeds and agent B errors: both stay visible, A with its real
/// content and B with the error placeholder, and both get their own comment.
#[test]
fn failure_isolation_keeps_both_agents() {
    let a = provider_run_from_outcome(
        "openai".to_string(),
        "OpenAI".to_string(),
        Ok(ProviderResponse { content: "A says ok".to_string(), usage: usage_none() }),
    );
    let b = provider_run_from_outcome(
        "anthropic".to_string(),
        "Anthropic".to_string(),
        Err("timed out".to_string()),
    );
    let agents = agent_comments_from_runs(&vec![a, b]);
    assert_eq!(agents.len(), 2);
    assert_eq!(agents[0].body, "A says ok");
    assert_eq!(agents[1].body, "_Error: timed out_");

    let mut run = ReviewRun::new(
        &options(false, false),
        "u".to_string(),
        "abc".to_string(),
        Vec::new(),
    );
    let body = match run.claim_plan() {
        ClaimPlan::Create { body } => body,
        _ => panic!("empty thread"),
    };
    run.apply_claim_posted("c1".to_string(), ReviewComment { id: "c1".to_string(), body });
    run.begin_publishing();
    for (i, agent) in agents.iter().enumerate() {
        let step = run.plan_agent_publish(agent).expect("plans a write");
        let body = match step {
            PublishStep::Create { body } => body,
            PublishStep::Update { .. } => panic!("fresh thread"),
        };
        assert!(body.contains(&agent_marker(&agent.provider_id, "abc")));
        run.record_agent_posted(
            agent.provider_name.clone(),
            ReviewComment { id: format!("a{}", i), body },
        );
    }
    assert_eq!(run.agent_comment_refs.len(), 2);
    assert_eq!(run.agent_comment_refs[0].0, "OpenAI");
    assert_eq!(run.agent_comment_refs[1].0, "Anthropic");
}

/// With exactly one enabled agent the cross-agent round produces nothing and
/// the summary says so explicitly.
#[test]
fn single_agent_skips_cross_round() {
    let providers = vec![("openai".to_string(), "OpenAI".to_string())];
    let runs = vec![provider_run_from_outcome(
        "openai".to_string(),
        "OpenAI".to_string(),
        Ok(ProviderResponse { content: "solo".to_string(), usage: usage_none() }),
    )];
    let prompts = cross_agent_prompts(&providers, &request(), &runs);
    assert!(prompts.is_empty());

    let run = ReviewRun {
        dry_run: false,
        force: false,
        target_url: "u".to_string(),
        head_sha: "abc".to_string(),
        comments: Vec::new(),
        claim_comment_id: Some("c1".to_string()),
        agent_comment_refs: Vec::new(),
        phase: RunPhase::PublishingSummary,
    };
    let reactions: Vec<AgentReaction> = Vec::new();
    let rows: Vec<(String, TokenUsage)> = Vec::new();
    match run.plan_final_summary(&reactions, &rows) {
        SummaryPlan::Update { body, .. } => {
            assert!(body.contains("- Not enough agents to run cross-agent reactions."));
        }
        _ => panic!("expected an update of the claim comment"),
    }
}

/// With two agents each prompt embeds only the other agent's findings.
#[test]
fn cross_round_runs_for_two_agents() {
    let providers = vec![
        ("openai".to_string(), "OpenAI".to_string()),
        ("anthropic".to_string(), "Anthropic".to_string()),
    ];
    let runs = vec![
        provider_run_from_outcome(
            "openai".to_string(),
            "OpenAI".to_string(),
            Ok(ProviderResponse { content: "finding A".to_string(), usage: usage_none() }),
        ),
        provider_run_from_outcome(
            "anthropic".to_string(),
            "Anthropic".to_string(),
            Ok(ProviderResponse { content: "finding B".to_string(), usage: usage_none() }),
        ),
    ];
    let prompts = cross_agent_prompts(&providers, &request(), &runs);
    assert_eq!(prompts.len(), 2);
    assert_eq!(prompts[0].0, "OpenAI");
    assert!(prompts[0].1.contains("finding B"));
    assert!(!prompts[0].1.contains("finding A"));
    assert!(prompts[1].1.contains("finding A"));
    assert!(!prompts[1].1.contains("finding B"));
    assert!(prompts[0].1.contains(
        "Write the final answer in English only. Do not use Korean headings or body text."
    ));

    let reaction = reaction_from_outcome("OpenAI".to_string(), Err("boom".to_string()));
    assert_eq!(reaction.body, "_Error: boom_");
}

/// A dry run never plans a VCS call: the claim step continues without a
/// claim, agent publishing plans nothing, and the summary is render-only.
#[test]
fn dry_run_is_pure() {
    let mut run = ReviewRun::new(
        &options(true, false),
        "u".to_string(),
        "abc".to_string(),
        Vec::new(),
    );
    assert!(matches!(run.claim_plan(), ClaimPlan::DryRun));
    run.apply_claim_dry_run();
    assert!(run.claim_comment_id.is_none());

    run.begin_publishing();
    let agent = AgentComment {
        provider_id: "openai".to_string(),
        provider_name: "OpenAI".to_string(),
        body: "text".to_string(),
        usage: usage_none(),
    };
    assert!(run.plan_agent_publish(&agent).is_none());

    run.begin_cross_round();
    run.begin_summary();
    let reactions: Vec<AgentReaction> = Vec::new();
    let rows: Vec<(String, TokenUsage)> = Vec::new();
    match run.plan_final_summary(&reactions, &rows) {
        SummaryPlan::Render { body } => {
            assert!(body.contains("# Multi-Agent Review Summary"));
        }
        _ => panic!("dry run must be render-only"),
    }
    run.finish_rendered();
    assert_eq!(run.phase, RunPhase::Done);
}

/// The oversize-diff gate: a diff within the budget is never confirmed, a
/// larger one asks, and declining aborts with the fixed cancellation
/// failure.
#[test]
fn oversize_diff_gate() {
    assert!(!diff_exceeds_limit(100, 100));
    assert!(diff_exceeds_limit(101, 100));
    assert_eq!(
        oversize_diff_warning(130000, 120000),
        "warning: diff size (130000 bytes) exceeds max_diff_bytes (120000 bytes)."
    );
    assert!(diff_confirmation_outcome(true).is_ok());
    assert_eq!(diff_confirmation_outcome(false).unwrap_err(), "cancelled by user");
}

/// The token, listing and provider gates that precede the fan-out.
#[test]
fn pre_flight_gates() {
    let target = prpilot::target::ReviewTarget::parse("https://github.com/o/r/pull/1").unwrap();
    assert!(require_host_token(false, &target, true).is_ok());
    assert!(require_host_token(true, &target, false).is_ok());
    assert_eq!(
        require_host_token(false, &target, false).unwrap_err(),
        "missing VCS token for host 'github.com'. Configure hosts.github.com.token / \
         hosts.github.com.token_env / hosts.github.com.token_command (OAuth), run \
         `repopilot auth github --host github.com`, or use --dry-run"
    );
    let gitlab = prpilot::target::ReviewTarget::parse(
        "https://gitlab.com/g/p/-/merge_requests/2",
    )
    .unwrap();
    assert!(require_host_token(false, &gitlab, false)
        .unwrap_err()
        .contains("`repopilot auth gitlab --host gitlab.com`"));

    assert!(should_list_comments(false));
    assert!(!should_list_comments(true));

    assert!(require_enabled_providers(1).is_ok());
    assert_eq!(
        require_enabled_providers(0).unwrap_err(),
        "no providers enabled. Configure providers.<name>.command (and optionally \
         args/use_stdin), and ensure commands are installed"
    );
}

/// A non-dry run that somehow lost its claim id reports the internal-error
/// condition instead of creating a new comment.
#[test]
fn missing_claim_id_is_an_internal_error() {
    let run = ReviewRun {
        dry_run: false,
        force: false,
        target_url: "u".to_string(),
        head_sha: "abc".to_string(),
        comments: Vec::new(),
        claim_comment_id: None,
        agent_comment_refs: Vec::new(),
        phase: RunPhase::PublishingSummary,
    };
    let reactions: Vec<AgentReaction> = Vec::new();
    let rows: Vec<(String, TokenUsage)> = Vec::new();
    assert!(matches!(run.plan_final_summary(&reactions, &rows), SummaryPlan::MissingClaim));
}

/// Republishing against a thread that already holds the agent's comment
/// updates it in place.
#[test]
fn agent_republish_updates_in_place() {
    let marker = agent_marker("openai", "abc");
    let run = ReviewRun {
        dry_run: false,
        force: false,
        target_url: "u".to_string(),
        head_sha: "abc".to_string(),
        comments: vec![ReviewComment {
            id: "a7".to_string(),
            body: format!("{}\nolder text", marker),
        }],
        claim_comment_id: Some("c1".to_string()),
        agent_comment_refs: Vec::new(),
        phase: RunPhase::PublishingAgentComments,
    };
    let agent = AgentComment {
        provider_id: "openai".to_string(),
        provider_name: "OpenAI".to_string(),
        body: "newer text".to_string(),
        usage: usage_none(),
    };
    match run.plan_agent_publish(&agent) {
        Some(PublishStep::Update { comment_id, body }) => {
            assert_eq!(comment_id, "a7");
            assert!(body.contains("newer text"));
        }
        _ => panic!("expected an in-place update"),
    }
}

//! Unit tests over markers, rendering, parsing and the string toolkit.

use prpilot::console::{colorize_status, fit_box_line, join_with, pad_right, paint};
use prpilot::policy::{
    agent_marker, build_cross_agent_prompt, find_comment_with_marker, markers_for_sha,
    add_usage_total, UsageTotals, upsert_comment_cache,
};
use prpilot::render::{
    format_usage, opt_num, render_agent_markdown, render_claim_markdown,
    render_final_summary_markdown,
};
use prpilot::review::{
    sum_optional, AgentComment, AgentReaction, CommentLanguage, ProviderRun, ReviewComment,
    TokenUsage,
};
use prpilot::strutil::{parse_u64, str_contains, str_eq, trim_str, to_ascii_lower, u64_to_string};
use prpilot::target::ReviewTarget;
use prpilot::usage::{extract_metric, first_number, parse_usage, str_find};
use prpilot::vcs::truncate_diff;
use prpilot::version::{is_newer_version, parse_plain_payload, parse_version_parts};

fn usage(p: Option<u64>, c: Option<u64>, t: Option<u64>) -> TokenUsage {
    TokenUsage { prompt_tokens: p, completion_tokens: c, total_tokens: t }
}

#[test]
fn markers_have_exact_shape() {
    let m = markers_for_sha("abc");
    assert_eq!(m.final_marker, "<!-- repopilot-bot sha=abc -->");
    assert_eq!(m.claim_marker, "<!-- repopilot-bot claim sha=abc -->");
    assert_eq!(agent_marker("openai", "abc"), "<!-- repopilot-bot agent=openai sha=abc -->");
}

#[test]
fn markers_never_collide() {
    let a = markers_for_sha("abc");
    let b = markers_for_sha("def");
    assert_ne!(a.final_marker, b.final_marker);
    assert_ne!(a.claim_marker, b.claim_marker);
    assert_ne!(a.final_marker, a.claim_marker);
    assert_ne!(a.final_marker, b.claim_marker);
    assert_ne!(agent_marker("openai", "abc"), agent_marker("anthropic", "abc"));
}

#[test]
fn find_marker_takes_first_listed_match() {
    let comments = vec![
        ReviewComment { id: "1".to_string(), body: "nothing".to_string() },
        ReviewComment { id: "2".to_string(), body: "xx MARK yy".to_string() },
        ReviewComment { id: "3".to_string(), body: "MARK".to_string() },
    ];
    let hit = find_comment_with_marker(&comments, "MARK").expect("present");
    assert_eq!(hit.id, "2");
    assert!(find_comment_with_marker(&comments, "absent").is_none());
}

#[test]
fn upsert_replaces_by_id_or_appends() {
    let mut cache = vec![
        ReviewComment { id: "1".to_string(), body: "old".to_string() },
        ReviewComment { id: "2".to_string(), body: "keep".to_string() },
    ];
    upsert_comment_cache(&mut cache, ReviewComment { id: "1".to_string(), body: "new".to_string() });
    assert_eq!(cache.len(), 2);
    assert_eq!(cache[0].body, "new");
    upsert_comment_cache(&mut cache, ReviewComment { id: "3".to_string(), body: "tail".to_string() });
    assert_eq!(cache.len(), 3);
    assert_eq!(cache[2].id, "3");
}

#[test]
fn usage_merge_treats_absent_as_absent() {
    let mut left = usage(Some(10), None, None);
    let right = usage(Some(5), Some(2), None);
    left.add_from(&right);
    assert_eq!(left.prompt_tokens, Some(15));
    assert_eq!(left.completion_tokens, Some(2));
    assert_eq!(left.total_tokens, None);
    assert_eq!(sum_optional(None, None), None);
    assert_eq!(sum_optional(Some(1), None), Some(1));
    assert_eq!(sum_optional(None, Some(2)), Some(2));
}

#[test]
fn usage_overflow_is_detectable_before_merging() {
    let full = usage(Some(u64::MAX), None, None);
    let one_more = usage(Some(1), None, None);
    assert!(!full.can_absorb(&one_more));
    assert!(full.can_absorb(&usage(None, Some(5), None)));
    assert!(usage(None, None, None).can_absorb(&usage(Some(1), Some(2), Some(3))));

    let mut totals = UsageTotals::new();
    assert!(totals.can_absorb("openai", &full));
    add_usage_total(&mut totals, "openai", "OpenAI", &full);
    assert!(!totals.can_absorb("openai", &one_more));
    assert!(totals.can_absorb("gemini", &one_more));
}

#[test]
fn usage_totals_aggregate_per_provider() {
    let mut totals = UsageTotals::new();
    add_usage_total(&mut totals, "openai", "OpenAI", &usage(Some(3), None, None));
    add_usage_total(&mut totals, "openai", "OpenAI", &usage(Some(4), Some(1), None));
    add_usage_total(&mut totals, "gemini", "Gemini", &usage(None, None, Some(9)));
    assert_eq!(totals.entries.len(), 2);
    assert_eq!(totals.entries[0].provider_id, "openai");
    assert_eq!(totals.entries[0].usage.prompt_tokens, Some(7));
    assert_eq!(totals.entries[0].usage.completion_tokens, Some(1));
    assert_eq!(totals.entries[1].provider_name, "Gemini");
    assert_eq!(totals.entries[1].usage.total_tokens, Some(9));
}

#[test]
fn cross_agent_prompt_excludes_self() {
    let runs = vec![
        ProviderRun {
            id: "openai".to_string(),
            name: "OpenAI".to_string(),
            body: " my own finding ".to_string(),
            usage: usage(None, None, None),
        },
        ProviderRun {
            id: "anthropic".to_string(),
            name: "Anthropic".to_string(),
            body: " their finding ".to_string(),
            usage: usage(None, None, None),
        },
    ];
    let prompt = build_cross_agent_prompt(
        "https://x/pr/1",
        "abc",
        "openai",
        "OpenAI",
        CommentLanguage::Korean,
        &runs,
    );
    assert!(prompt.contains("## Anthropic\ntheir finding\n\n"));
    assert!(!prompt.contains("my own finding"));
    assert!(prompt.contains("Target URL: https://x/pr/1\n"));
    assert!(prompt.contains("Head SHA: abc\n"));
    assert!(prompt.contains("Now write OpenAI's reaction to other agents.\n"));
}

#[test]
fn comment_language_from_config() {
    assert_eq!(CommentLanguage::from_config(None), CommentLanguage::Korean);
    assert_eq!(CommentLanguage::from_config(Some(" EN ")), CommentLanguage::English);
    assert_eq!(CommentLanguage::from_config(Some("English")), CommentLanguage::English);
    assert_eq!(CommentLanguage::from_config(Some("ko")), CommentLanguage::Korean);
    assert_eq!(CommentLanguage::from_config(Some("whatever")), CommentLanguage::Korean);
    assert_eq!(CommentLanguage::Korean.code(), "ko");
    assert_eq!(CommentLanguage::English.code(), "en");
}

#[test]
fn render_claim_has_exact_body() {
    let body = render_claim_markdown("abc", "https://x/pr/1");
    assert_eq!(
        body,
        "<!-- repopilot-bot claim sha=abc -->\n\n# Multi-Agent Code Review\n\n- Target: https://x/pr/1\n- Head SHA: `abc`\n\nReview in progress..."
    );
}

#[test]
fn render_agent_embeds_marker_and_usage() {
    let agent = AgentComment {
        provider_id: "openai".to_string(),
        provider_name: "OpenAI".to_string(),
        body: "  body text  ".to_string(),
        usage: usage(Some(1), Some(2), Some(3)),
    };
    let body = render_agent_markdown("abc", "https://x/pr/1", &agent);
    assert!(body.starts_with("<!-- repopilot-bot agent=openai sha=abc -->\n\n"));
    assert!(body.contains("# Agent Review: OpenAI\n"));
    assert!(body.contains("- Token Usage: prompt=1, completion=2, total=3\n"));
    assert!(body.ends_with("body text\n"));
}

#[test]
fn render_final_summary_sections() {
    let reactions = vec![AgentReaction {
        provider_name: "OpenAI".to_string(),
        body: "reaction".to_string(),
    }];
    let refs = vec![("OpenAI".to_string(), "77".to_string())];
    let rows = vec![("OpenAI".to_string(), usage(Some(10), None, Some(10)))];
    let body = render_final_summary_markdown("abc", "https://x/pr/1", &reactions, &refs, &rows);
    assert!(body.starts_with("<!-- repopilot-bot sha=abc -->\n\n"));
    assert!(body.contains("- OpenAI: comment id `77`\n"));
    assert!(body.contains("### OpenAI on Other Agents\n\nreaction\n\n"));
    assert!(body.contains("| OpenAI | 10 | n/a | 10 |\n"));
    assert!(!body.contains("Not enough agents"));

    let empty_reactions: Vec<AgentReaction> = Vec::new();
    let empty_refs: Vec<(String, String)> = Vec::new();
    let empty_rows: Vec<(String, TokenUsage)> = Vec::new();
    let sparse =
        render_final_summary_markdown("abc", "u", &empty_reactions, &empty_refs, &empty_rows);
    assert!(sparse.contains("- No individual agent comments were posted.\n"));
    assert!(sparse.contains("- Not enough agents to run cross-agent reactions.\n"));
}

#[test]
fn usage_formatting() {
    assert_eq!(format_usage(&usage(None, Some(7), None)), "prompt=n/a, completion=7, total=n/a");
    assert_eq!(opt_num(Some(120000)), "120000");
    assert_eq!(opt_num(None), "n/a");
    assert_eq!(u64_to_string(0), "0");
    assert_eq!(u64_to_string(18446744073709551615), "18446744073709551615");
}

#[test]
fn string_toolkit_basics() {
    assert!(str_eq("abc", "abc"));
    assert!(!str_eq("abc", "abd"));
    assert!(str_contains("hello world", "lo wo"));
    assert!(!str_contains("hello", "world"));
    assert_eq!(trim_str("  a b \n"), "a b");
    assert_eq!(trim_str("\u{A0}\u{3000}wide\u{2028}"), "wide");
    assert_eq!(to_ascii_lower("AbC1é"), "abc1é");
    assert_eq!(parse_u64("42"), Some(42));
    assert_eq!(parse_u64(""), None);
    assert_eq!(parse_u64("4x2"), None);
    assert_eq!(parse_u64("99999999999999999999999"), None);
    assert_eq!(str_find("banana", "na"), Some(2));
    assert_eq!(str_find("banana", "xy"), None);
}

#[test]
fn diff_truncation_respects_utf8() {
    assert_eq!(truncate_diff("short".to_string(), 100), "short");
    let cut = truncate_diff("abcdef".to_string(), 3);
    assert_eq!(cut, "abc\n... (diff truncated)\n");
    // The two-byte character may not be split in half.
    let multi = truncate_diff("aéz".to_string(), 2);
    assert_eq!(multi, "a\n... (diff truncated)\n");
}

#[test]
fn github_urls_resolve() {
    match ReviewTarget::parse("https://github.com/octo/repo/pull/42") {
        Ok(ReviewTarget::GitHub { host, owner, repo, number, url }) => {
            assert_eq!(host, "github.com");
            assert_eq!(owner, "octo");
            assert_eq!(repo, "repo");
            assert_eq!(number, 42);
            assert_eq!(url, "https://github.com/octo/repo/pull/42");
        }
        other => panic!("unexpected parse result: {:?}", other),
    }
}

#[test]
fn gitlab_urls_resolve() {
    match ReviewTarget::parse("https://gitlab.example.com/group/sub/proj/-/merge_requests/7") {
        Ok(ReviewTarget::GitLab { host, project_path, iid, url }) => {
            assert_eq!(host, "gitlab.example.com");
            assert_eq!(project_path, "group/sub/proj");
            assert_eq!(iid, 7);
            assert_eq!(url, "https://gitlab.example.com/group/sub/proj/-/merge_requests/7");
        }
        other => panic!("unexpected parse result: {:?}", other),
    }
}

#[test]
fn target_accessors_and_errors() {
    let t = ReviewTarget::parse("https://github.com/o/r/pull/1").unwrap();
    assert_eq!(t.host(), "github.com");
    assert_eq!(t.url(), "https://github.com/o/r/pull/1");
    assert_eq!(
        ReviewTarget::parse("not a url").unwrap_err(),
        "invalid target URL: not a url"
    );
    assert_eq!(
        ReviewTarget::parse("https://github.com/o/r/issues/1").unwrap_err(),
        "unsupported URL format: https://github.com/o/r/issues/1"
    );
}

#[test]
fn version_parsing_and_comparison() {
    assert_eq!(parse_version_parts("v1.2.3"), Some(vec![1, 2, 3]));
    assert_eq!(parse_version_parts("repopilot 2.10"), Some(vec![2, 10]));
    assert_eq!(parse_version_parts("  v0.4  "), Some(vec![0, 4]));
    assert_eq!(parse_version_parts("abc"), None);
    assert!(is_newer_version("1.2.3", "1.3"));
    assert!(!is_newer_version("1.2", "1.2.0"));
    assert!(!is_newer_version("2.0", "1.9.9"));
    assert!(is_newer_version("v1.0", "v1.0.1"));
    assert!(!is_newer_version("junk", "1.0"));
}

#[test]
fn plain_update_payloads() {
    let info = parse_plain_payload("  1.4.0\n").expect("nonempty");
    assert_eq!(info.version, "1.4.0");
    assert!(info.download_url.is_none());
    assert!(parse_plain_payload("   \n").is_none());
}

#[test]
fn usage_parsing_from_provider_output() {
    let parsed = parse_usage("prompt_tokens: 10\ncompletion_tokens: 5", "");
    assert_eq!(parsed.prompt_tokens, Some(10));
    assert_eq!(parsed.completion_tokens, Some(5));
    assert_eq!(parsed.total_tokens, Some(15));

    let direct = parse_usage("Total tokens 30", "input tokens 12");
    assert_eq!(direct.total_tokens, Some(30));
    assert_eq!(direct.prompt_tokens, Some(12));

    let nothing = parse_usage("no numbers here", "");
    assert_eq!(nothing.prompt_tokens, None);
    assert_eq!(nothing.completion_tokens, None);
    assert_eq!(nothing.total_tokens, None);
}

#[test]
fn metric_extraction_falls_back_to_substring_search() {
    assert_eq!(first_number("abc123def456"), Some(123));
    assert_eq!(first_number("no digits"), None);
    let keys = vec!["tokens total"];
    // No line holds both the key and a number, but the key is followed by a
    // number on the next line.
    assert_eq!(extract_metric("tokens total\n42", &keys), Some(42));
    assert_eq!(extract_metric("TOKENS TOTAL 7", &keys), Some(7));
    assert_eq!(extract_metric("nothing relevant", &keys), None);
}

#[test]
fn console_formatting_helpers() {
    assert_eq!(pad_right("ab", 5), "ab   ");
    assert_eq!(pad_right("abcdef", 3), "abcdef");
    let parts = vec!["a".to_string(), "b".to_string(), "c".to_string()];
    assert_eq!(join_with(&parts, " "), "a b c");
    let empty: Vec<String> = Vec::new();
    assert_eq!(join_with(&empty, " "), "");
    assert_eq!(colorize_status("running"), "\u{1b}[33mrunning\u{1b}[0m");
    assert_eq!(colorize_status("odd"), "odd");
    assert_eq!(paint("x", "1;36", true), "\u{1b}[1;36mx\u{1b}[0m");
    assert_eq!(paint("x", "1;36", false), "x");
    assert_eq!(fit_box_line("short", 10), "short");
    assert_eq!(fit_box_line("much too long", 7), "much...");
    assert_eq!(fit_box_line("abcdef", 2), "..");
}

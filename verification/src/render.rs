//! Markdown rendering for the three kinds of VCS comment the pipeline
//! writes: the claim comment, one comment per agent, and the final summary.
//! Every body embeds the dedup marker it will later be found by.

use vstd::prelude::*;
use vstd::string::StringExecFns;
use crate::policy::{agent_marker, markers_for_sha, spec_agent_marker, spec_claim_marker,
    spec_final_marker};
use crate::review::{AgentComment, AgentReaction, TokenUsage};
use crate::strutil::{lemma_take_full, spec_trim, spec_u64_digits, trim_str, u64_to_string};

verus! {

/// A usage counter as printed: its decimal value, or `n/a` when absent.
pub open spec fn spec_opt_num(value: Option<u64>) -> Seq<char> {
    match value {
        Some(v) => spec_u64_digits(v as int),
        None => "n/a"@,
    }
}

/// One usage counter for display.
pub fn opt_num(value: Option<u64>) -> (r: String)
    ensures
        r@ == spec_opt_num(value),
{
    match value {
        Some(v) => u64_to_string(v),
        None => String::from_str("n/a"),
    }
}

/// A usage triple as printed in comments and reports.
pub open spec fn spec_format_usage(usage: TokenUsage) -> Seq<char> {
    "prompt="@ + spec_opt_num(usage.prompt_tokens) + ", completion="@ + spec_opt_num(
        usage.completion_tokens,
    ) + ", total="@ + spec_opt_num(usage.total_tokens)
}

/// Renders a usage triple, printing `n/a` for each absent counter.
pub fn format_usage(usage: &TokenUsage) -> (r: String)
    ensures
        r@ == spec_format_usage(*usage),
{
    let mut out = String::from_str("prompt=");
    out.append(opt_num(usage.prompt_tokens).as_str());
    out.append(", completion=");
    out.append(opt_num(usage.completion_tokens).as_str());
    out.append(", total=");
    out.append(opt_num(usage.total_tokens).as_str());
    out
}

/// The claim comment body: the claim marker, then an in-progress notice.
pub open spec fn spec_render_claim(sha: Seq<char>, target_url: Seq<char>) -> Seq<char> {
    spec_claim_marker(sha) + "\n\n# Multi-Agent Code Review\n\n- Target: "@ + target_url
        + "\n- Head SHA: `"@ + sha + "`\n\nReview in progress..."@
}

/// Renders the claim comment marking a review of `sha` as in progress.
pub fn render_claim_markdown(sha: &str, target_url: &str) -> (r: String)
    ensures
        r@ == spec_render_claim(sha@, target_url@),
{
    let markers = markers_for_sha(sha);
    let mut out = markers.claim_marker;
    out.append("\n\n# Multi-Agent Code Review\n\n- Target: ");
    out.append(target_url);
    out.append("\n- Head SHA: `");
    out.append(sha);
    out.append("`\n\nReview in progress...");
    out
}

/// One agent's comment body: its agent marker, the run coordinates, the
/// usage line, then the agent's own findings.
pub open spec fn spec_render_agent(
    sha: Seq<char>,
    target_url: Seq<char>,
    agent: AgentComment,
) -> Seq<char> {
    spec_agent_marker(agent.provider_id@, sha) + "\n\n"@ + "# Agent Review: "@
        + agent.provider_name@ + "\n\n"@ + "- Target: "@ + target_url + "\n"@ + "- Head SHA: `"@
        + sha + "`\n"@ + "- Token Usage: "@ + spec_format_usage(agent.usage) + "\n\n"@
        + spec_trim(agent.body@) + "\n"@
}

/// Renders one agent's individual comment.
pub fn render_agent_markdown(sha: &str, target_url: &str, agent: &AgentComment) -> (r: String)
    ensures
        r@ == spec_render_agent(sha@, target_url@, *agent),
{
    let mut out = agent_marker(agent.provider_id.as_str(), sha);
    out.append("\n\n");
    out.append("# Agent Review: ");
    out.append(agent.provider_name.as_str());
    out.append("\n\n");
    out.append("- Target: ");
    out.append(target_url);
    out.append("\n");
    out.append("- Head SHA: `");
    out.append(sha);
    out.append("`\n");
    out.append("- Token Usage: ");
    out.append(format_usage(&agent.usage).as_str());
    out.append("\n\n");
    out.append(trim_str(agent.body.as_str()));
    out.append("\n");
    out
}

/// One line of the comment-reference list of the summary.
pub open spec fn spec_ref_line(r: (String, String)) -> Seq<char> {
    "- "@ + r.0@ + ": comment id `"@ + r.1@ + "`\n"@
}

/// The comment-reference lines, in publish order.
pub open spec fn spec_ref_lines(refs: Seq<(String, String)>) -> Seq<char>
    decreases refs.len(),
{
    if refs.len() == 0 {
        Seq::empty()
    } else {
        spec_ref_line(refs[0]) + spec_ref_lines(refs.drop_first())
    }
}

proof fn lemma_ref_lines_take_step(refs: Seq<(String, String)>, i: int)
    requires
        0 <= i < refs.len(),
    ensures
        spec_ref_lines(refs.take(i + 1)) == spec_ref_lines(refs.take(i)) + spec_ref_line(refs[i]),
    decreases i,
{
    if i == 0 {
        assert(refs.take(1) =~= seq![refs[0]]);
        assert(refs.take(1).drop_first() =~= Seq::<(String, String)>::empty());
        assert(refs.take(0) =~= Seq::<(String, String)>::empty());
        assert(refs.take(1)[0] == refs[0]);
        assert(spec_ref_line(refs[0]) + Seq::<char>::empty() =~= spec_ref_line(refs[0]));
        assert(spec_ref_lines(refs.take(0)) + spec_ref_line(refs[0]) =~= spec_ref_line(refs[0]));
    } else {
        lemma_ref_lines_take_step(refs.drop_first(), i - 1);
        assert(refs.take(i + 1).drop_first() =~= refs.drop_first().take(i));
        assert(refs.take(i).drop_first() =~= refs.drop_first().take(i - 1));
        assert(refs.take(i + 1)[0] == refs[0]);
        assert(refs.take(i)[0] == refs[0]);
        assert(refs.drop_first()[i - 1] == refs[i]);
        assert(spec_ref_line(refs[0]) + (spec_ref_lines(refs.drop_first().take(i - 1))
            + spec_ref_line(refs[i])) =~= (spec_ref_line(refs[0]) + spec_ref_lines(
            refs.drop_first().take(i - 1),
        )) + spec_ref_line(refs[i]));
    }
}

/// One reaction block of the summary.
pub open spec fn spec_reaction_block(r: AgentReaction) -> Seq<char> {
    "---\n\n### "@ + r.provider_name@ + " on Other Agents\n\n"@ + spec_trim(r.body@) + "\n\n"@
}

/// The reaction blocks, in collection order.
pub open spec fn spec_reaction_blocks(reactions: Seq<AgentReaction>) -> Seq<char>
    decreases reactions.len(),
{
    if reactions.len() == 0 {
        Seq::empty()
    } else {
        spec_reaction_block(reactions[0]) + spec_reaction_blocks(reactions.drop_first())
    }
}

proof fn lemma_reaction_blocks_take_step(reactions: Seq<AgentReaction>, i: int)
    requires
        0 <= i < reactions.len(),
    ensures
        spec_reaction_blocks(reactions.take(i + 1)) == spec_reaction_blocks(reactions.take(i))
            + spec_reaction_block(reactions[i]),
    decreases i,
{
    if i == 0 {
        assert(reactions.take(1) =~= seq![reactions[0]]);
        assert(reactions.take(1).drop_first() =~= Seq::<AgentReaction>::empty());
        assert(reactions.take(0) =~= Seq::<AgentReaction>::empty());
        assert(reactions.take(1)[0] == reactions[0]);
        assert(spec_reaction_block(reactions[0]) + Seq::<char>::empty() =~= spec_reaction_block(
            reactions[0],
        ));
        assert(spec_reaction_blocks(reactions.take(0)) + spec_reaction_block(reactions[0])
            =~= spec_reaction_block(reactions[0]));
    } else {
        lemma_reaction_blocks_take_step(reactions.drop_first(), i - 1);
        assert(reactions.take(i + 1).drop_first() =~= reactions.drop_first().take(i));
        assert(reactions.take(i).drop_first() =~= reactions.drop_first().take(i - 1));
        assert(reactions.take(i + 1)[0] == reactions[0]);
        assert(reactions.take(i)[0] == reactions[0]);
        assert(reactions.drop_first()[i - 1] == reactions[i]);
        assert(spec_reaction_block(reactions[0]) + (spec_reaction_blocks(
            reactions.drop_first().take(i - 1),
        ) + spec_reaction_block(reactions[i])) =~= (spec_reaction_block(reactions[0])
            + spec_reaction_blocks(reactions.drop_first().take(i - 1))) + spec_reaction_block(
            reactions[i],
        ));
    }
}

/// One row of the usage table.
pub open spec fn spec_usage_row(row: (String, TokenUsage)) -> Seq<char> {
    "| "@ + row.0@ + " | "@ + spec_opt_num(row.1.prompt_tokens) + " | "@ + spec_opt_num(
        row.1.completion_tokens,
    ) + " | "@ + spec_opt_num(row.1.total_tokens) + " |\n"@
}

/// The usage table rows, in aggregation order.
pub open spec fn spec_usage_rows(rows: Seq<(String, TokenUsage)>) -> Seq<char>
    decreases rows.len(),
{
    if rows.len() == 0 {
        Seq::empty()
    } else {
        spec_usage_row(rows[0]) + spec_usage_rows(rows.drop_first())
    }
}

proof fn lemma_usage_rows_take_step(rows: Seq<(String, TokenUsage)>, i: int)
    requires
        0 <= i < rows.len(),
    ensures
        spec_usage_rows(rows.take(i + 1)) == spec_usage_rows(rows.take(i)) + spec_usage_row(
            rows[i],
        ),
    decreases i,
{
    if i == 0 {
        assert(rows.take(1) =~= seq![rows[0]]);
        assert(rows.take(1).drop_first() =~= Seq::<(String, TokenUsage)>::empty());
        assert(rows.take(0) =~= Seq::<(String, TokenUsage)>::empty());
        assert(rows.take(1)[0] == rows[0]);
        assert(spec_usage_row(rows[0]) + Seq::<char>::empty() =~= spec_usage_row(rows[0]));
        assert(spec_usage_rows(rows.take(0)) + spec_usage_row(rows[0]) =~= spec_usage_row(
            rows[0],
        ));
    } else {
        lemma_usage_rows_take_step(rows.drop_first(), i - 1);
        assert(rows.take(i + 1).drop_first() =~= rows.drop_first().take(i));
        assert(rows.take(i).drop_first() =~= rows.drop_first().take(i - 1));
        assert(rows.take(i + 1)[0] == rows[0]);
        assert(rows.take(i)[0] == rows[0]);
        assert(rows.drop_first()[i - 1] == rows[i]);
        assert(spec_usage_row(rows[0]) + (spec_usage_rows(rows.drop_first().take(i - 1))
            + spec_usage_row(rows[i])) =~= (spec_usage_row(rows[0]) + spec_usage_rows(
            rows.drop_first().take(i - 1),
        )) + spec_usage_row(rows[i]));
    }
}

/// The reference section: a notice when nothing was posted, else the lines
/// followed by a blank line.
pub open spec fn spec_refs_section(refs: Seq<(String, String)>) -> Seq<char> {
    if refs.len() == 0 {
        "- No individual agent comments were posted.\n\n"@
    } else {
        spec_ref_lines(refs) + "\n"@
    }
}

/// The reaction section: an explicit notice when the cross-agent round did
/// not run, else the blocks.
pub open spec fn spec_reactions_section(reactions: Seq<AgentReaction>) -> Seq<char> {
    if reactions.len() == 0 {
        "- Not enough agents to run cross-agent reactions.\n\n"@
    } else {
        spec_reaction_blocks(reactions)
    }
}

/// The final summary body: the final marker, the run coordinates, the
/// posted-comment references, the cross-agent reactions (or the notice that
/// none ran), and the usage table.
pub open spec fn spec_render_final(
    sha: Seq<char>,
    target_url: Seq<char>,
    reactions: Seq<AgentReaction>,
    agent_comment_refs: Seq<(String, String)>,
    usage_rows: Seq<(String, TokenUsage)>,
) -> Seq<char> {
    spec_final_marker(sha) + "\n\n"@ + "# Multi-Agent Review Summary\n\n"@ + "- Target: "@
        + target_url + "\n"@ + "- Head SHA: `"@ + sha + "`\n\n"@
        + "## Individual Agent Comments\n\n"@ + spec_refs_section(agent_comment_refs)
        + "## Agent-to-Agent Reactions\n\n"@ + spec_reactions_section(reactions)
        + "## Token Usage (Best Effort)\n\n"@ + "| Agent | Prompt | Completion | Total |\n"@
        + "|---|---:|---:|---:|\n"@ + spec_usage_rows(usage_rows)
}

/// Renders the final summary that replaces the claim comment.
pub fn render_final_summary_markdown(
    sha: &str,
    target_url: &str,
    reactions: &Vec<AgentReaction>,
    agent_comment_refs: &Vec<(String, String)>,
    usage_rows: &Vec<(String, TokenUsage)>,
) -> (r: String)
    ensures
        r@ == spec_render_final(sha@, target_url@, reactions@, agent_comment_refs@, usage_rows@),
{
    let markers = markers_for_sha(sha);
    let mut out = markers.final_marker;
    out.append("\n\n");
    out.append("# Multi-Agent Review Summary\n\n");
    out.append("- Target: ");
    out.append(target_url);
    out.append("\n");
    out.append("- Head SHA: `");
    out.append(sha);
    out.append("`\n\n");
    out.append("## Individual Agent Comments\n\n");
    if agent_comment_refs.len() == 0 {
        out.append("- No individual agent comments were posted.\n\n");
    } else {
        let ghost before_refs = out@;
        let n = agent_comment_refs.len();
        let mut i: usize = 0;
        while i < n
            invariant
                n == agent_comment_refs@.len(),
                0 <= i <= n,
                out@ == before_refs + spec_ref_lines(agent_comment_refs@.take(i as int)),
            decreases n - i,
        {
            let ghost prev = out@;
            out.append("- ");
            out.append(agent_comment_refs[i].0.as_str());
            out.append(": comment id `");
            out.append(agent_comment_refs[i].1.as_str());
            out.append("`\n");
            proof {
                lemma_ref_lines_take_step(agent_comment_refs@, i as int);
                assert(out@ =~= prev + spec_ref_line(agent_comment_refs@[i as int]));
                assert(out@ =~= before_refs + spec_ref_lines(
                    agent_comment_refs@.take(i + 1),
                ));
            }
            i += 1;
        }
        proof {
            lemma_take_full(agent_comment_refs@);
        }
        out.append("\n");
    }
    out.append("## Agent-to-Agent Reactions\n\n");
    if reactions.len() == 0 {
        out.append("- Not enough agents to run cross-agent reactions.\n\n");
    } else {
        let ghost before_blocks = out@;
        let n = reactions.len();
        let mut i: usize = 0;
        while i < n
            invariant
                n == reactions@.len(),
                0 <= i <= n,
                out@ == before_blocks + spec_reaction_blocks(reactions@.take(i as int)),
            decreases n - i,
        {
            let ghost prev = out@;
            out.append("---\n\n### ");
            out.append(reactions[i].provider_name.as_str());
            out.append(" on Other Agents\n\n");
            out.append(trim_str(reactions[i].body.as_str()));
            out.append("\n\n");
            proof {
                lemma_reaction_blocks_take_step(reactions@, i as int);
                assert(out@ =~= prev + spec_reaction_block(reactions@[i as int]));
                assert(out@ =~= before_blocks + spec_reaction_blocks(reactions@.take(i + 1)));
            }
            i += 1;
        }
        proof {
            lemma_take_full(reactions@);
        }
    }
    out.append("## Token Usage (Best Effort)\n\n");
    out.append("| Agent | Prompt | Completion | Total |\n");
    out.append("|---|---:|---:|---:|\n");
    let ghost before_rows = out@;
    let n = usage_rows.len();
    let mut i: usize = 0;
    while i < n
        invariant
            n == usage_rows@.len(),
            0 <= i <= n,
            out@ == before_rows + spec_usage_rows(usage_rows@.take(i as int)),
        decreases n - i,
    {
        let ghost prev = out@;
        out.append("| ");
        out.append(usage_rows[i].0.as_str());
        out.append(" | ");
        out.append(opt_num(usage_rows[i].1.prompt_tokens).as_str());
        out.append(" | ");
        out.append(opt_num(usage_rows[i].1.completion_tokens).as_str());
        out.append(" | ");
        out.append(opt_num(usage_rows[i].1.total_tokens).as_str());
        out.append(" |\n");
        proof {
            lemma_usage_rows_take_step(usage_rows@, i as int);
            assert(out@ =~= prev + spec_usage_row(usage_rows@[i as int]));
            assert(out@ =~= before_rows + spec_usage_rows(usage_rows@.take(i + 1)));
        }
        i += 1;
    }
    proof {
        lemma_take_full(usage_rows@);
    }
    out
}

} // verus!

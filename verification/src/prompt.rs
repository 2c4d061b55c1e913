//! The prompts handed to provider agents for the primary review round.

use vstd::prelude::*;
use vstd::string::StringExecFns;
use crate::review::{ReviewRequest, spec_language_instruction};

verus! {

/// The user prompt: target coordinates, the required output structure, and
/// the diff fenced as a code block.
pub open spec fn spec_user_prompt(request: ReviewRequest) -> Seq<char> {
    "Target URL: "@ + request.target_url@ + "\n"@ + "Head SHA: "@ + request.head_sha@ + "\n\n"@
        + "Review the diff and report key issues in concise Markdown.\n"@
        + "Use sections in this order: Critical, Major, Minor, Suggestions.\n\n"@ + "```diff\n"@
        + request.diff@ + "\n```"@
}

/// The combined prompt for a primary review: system instructions, the
/// output-language rule, then the user prompt.
pub open spec fn spec_primary_prompt(request: ReviewRequest) -> Seq<char> {
    "System instructions:\n"@ + request.system_prompt@ + "\n\n"@
        + "Output language requirement:\n"@ + spec_language_instruction(request.comment_language)
        + "\n\n"@ + spec_user_prompt(request)
}

/// Builds the user prompt of a primary review.
pub fn build_user_prompt(request: &ReviewRequest) -> (r: String)
    ensures
        r@ == spec_user_prompt(*request),
{
    let mut out = String::from_str("Target URL: ");
    out.append(request.target_url.as_str());
    out.append("\n");
    out.append("Head SHA: ");
    out.append(request.head_sha.as_str());
    out.append("\n\n");
    out.append("Review the diff and report key issues in concise Markdown.\n");
    out.append("Use sections in this order: Critical, Major, Minor, Suggestions.\n\n");
    out.append("```diff\n");
    out.append(request.diff.as_str());
    out.append("\n```");
    out
}

/// Builds the combined system and user prompt of a primary review.
pub fn build_primary_prompt(request: &ReviewRequest) -> (r: String)
    ensures
        r@ == spec_primary_prompt(*request),
{
    let mut out = String::from_str("System instructions:\n");
    out.append(request.system_prompt.as_str());
    out.append("\n\n");
    out.append("Output language requirement:\n");
    out.append(request.comment_language.prompt_instruction());
    out.append("\n\n");
    out.append(build_user_prompt(request).as_str());
    out
}

} // verus!

//! Dedup markers, the comment cache, usage aggregation and the cross-agent
//! prompt: the pure rules the pipeline stages share.

use vstd::prelude::*;
use vstd::string::StringExecFns;
use crate::review::{
    CommentLanguage, ProviderRun, ReviewComment, ReviewMarkers, TokenUsage,
    spec_language_instruction,
};
use crate::strutil::{
    concat3, contains_seq, lemma_take_full, spec_trim, str_contains, str_eq, trim_str,
};

verus! {

/// The sentinel marking a head commit as fully reviewed.
pub open spec fn spec_final_marker(sha: Seq<char>) -> Seq<char> {
    "<!-- repopilot-bot sha="@ + sha + " -->"@
}

/// The sentinel marking a review of a head commit as in progress.
pub open spec fn spec_claim_marker(sha: Seq<char>) -> Seq<char> {
    "<!-- repopilot-bot claim sha="@ + sha + " -->"@
}

/// The sentinel tying one agent's comment to a head commit.
pub open spec fn spec_agent_marker(provider_id: Seq<char>, sha: Seq<char>) -> Seq<char> {
    "<!-- repopilot-bot agent="@ + provider_id + " sha="@ + sha + " -->"@
}

/// Derives the final and claim sentinels for a head commit SHA.
pub fn markers_for_sha(sha: &str) -> (r: ReviewMarkers)
    ensures
        r.final_marker@ == spec_final_marker(sha@),
        r.claim_marker@ == spec_claim_marker(sha@),
{
    ReviewMarkers {
        final_marker: concat3("<!-- repopilot-bot sha=", sha, " -->"),
        claim_marker: concat3("<!-- repopilot-bot claim sha=", sha, " -->"),
    }
}

/// Derives the per-agent sentinel for a provider and a head commit SHA.
pub fn agent_marker(provider_id: &str, sha: &str) -> (r: String)
    ensures
        r@ == spec_agent_marker(provider_id@, sha@),
{
    let mut out = String::from_str("<!-- repopilot-bot agent=");
    out.append(provider_id);
    out.append(" sha=");
    out.append(sha);
    out.append(" -->");
    out
}

/// Two equal wrappings around differing cores cannot produce equal strings.
proof fn lemma_wrap_injective(p: Seq<char>, s: Seq<char>, a: Seq<char>, b: Seq<char>)
    requires
        p + a + s == p + b + s,
    ensures
        a == b,
{
    assert((p + a + s).len() == p.len() + a.len() + s.len());
    assert((p + b + s).len() == p.len() + b.len() + s.len());
    assert(a.len() == b.len());
    assert forall|k: int| 0 <= k < a.len() implies a[k] == b[k] by {
        assert((p + a + s)[p.len() + k] == a[k]);
        assert((p + b + s)[p.len() + k] == b[k]);
    }
    assert(a =~= b);
}

/// Distinct SHAs give distinct final markers.
pub proof fn lemma_final_marker_injective(a: Seq<char>, b: Seq<char>)
    requires
        a != b,
    ensures
        spec_final_marker(a) != spec_final_marker(b),
{
    if spec_final_marker(a) == spec_final_marker(b) {
        lemma_wrap_injective("<!-- repopilot-bot sha="@, " -->"@, a, b);
    }
}

/// Distinct SHAs give distinct claim markers.
pub proof fn lemma_claim_marker_injective(a: Seq<char>, b: Seq<char>)
    requires
        a != b,
    ensures
        spec_claim_marker(a) != spec_claim_marker(b),
{
    if spec_claim_marker(a) == spec_claim_marker(b) {
        lemma_wrap_injective("<!-- repopilot-bot claim sha="@, " -->"@, a, b);
    }
}

/// A final marker never equals a claim marker, whatever the two SHAs.
pub proof fn lemma_final_claim_markers_disjoint(a: Seq<char>, b: Seq<char>)
    ensures
        spec_final_marker(a) != spec_claim_marker(b),
{
    reveal_strlit("<!-- repopilot-bot sha=");
    reveal_strlit("<!-- repopilot-bot claim sha=");
    if spec_final_marker(a) == spec_claim_marker(b) {
        assert(spec_final_marker(a)[19] == 's');
        assert(spec_claim_marker(b)[19] == 'c');
    }
}

/// For one SHA, distinct providers give distinct agent markers.
pub proof fn lemma_agent_marker_injective(id_a: Seq<char>, id_b: Seq<char>, sha: Seq<char>)
    requires
        id_a != id_b,
    ensures
        spec_agent_marker(id_a, sha) != spec_agent_marker(id_b, sha),
{
    if spec_agent_marker(id_a, sha) == spec_agent_marker(id_b, sha) {
        assert("<!-- repopilot-bot agent="@ + id_a + " sha="@ + sha + " -->"@
            =~= "<!-- repopilot-bot agent="@ + id_a + (" sha="@ + sha + " -->"@));
        assert("<!-- repopilot-bot agent="@ + id_b + " sha="@ + sha + " -->"@
            =~= "<!-- repopilot-bot agent="@ + id_b + (" sha="@ + sha + " -->"@));
        lemma_wrap_injective(
            "<!-- repopilot-bot agent="@,
            " sha="@ + sha + " -->"@,
            id_a,
            id_b,
        );
    }
}

/// The position of the first cached comment whose body holds `marker`.
pub open spec fn spec_find_marker_index(comments: Seq<ReviewComment>, marker: Seq<char>) -> Option<
    int,
>
    decreases comments.len(),
{
    if comments.len() == 0 {
        None
    } else if contains_seq(comments[0].body@, marker) {
        Some(0int)
    } else {
        match spec_find_marker_index(comments.drop_first(), marker) {
            Some(i) => Some(i + 1),
            None => None,
        }
    }
}

/// What `spec_find_marker_index` finds is a match, is first, and is in range.
pub proof fn lemma_find_marker_index_spec(comments: Seq<ReviewComment>, marker: Seq<char>)
    ensures
        match spec_find_marker_index(comments, marker) {
            Some(i) => 0 <= i < comments.len() && contains_seq(comments[i].body@, marker)
                && forall|j: int| 0 <= j < i ==> !contains_seq(#[trigger] comments[j].body@, marker),
            None => forall|j: int|
                0 <= j < comments.len() ==> !contains_seq(#[trigger] comments[j].body@, marker),
        },
    decreases comments.len(),
{
    if comments.len() > 0 {
        lemma_find_marker_index_spec(comments.drop_first(), marker);
        assert forall|j: int| 1 <= j < comments.len() implies comments[j]
            == comments.drop_first()[j - 1] by {}
    }
}

/// A scan that saw no match through position `i` pins the spec index down.
proof fn lemma_find_marker_scan(comments: Seq<ReviewComment>, marker: Seq<char>, i: int)
    requires
        0 <= i <= comments.len(),
        forall|j: int| 0 <= j < i ==> !contains_seq(#[trigger] comments[j].body@, marker),
    ensures
        i < comments.len() && contains_seq(comments[i].body@, marker) ==> spec_find_marker_index(
            comments,
            marker,
        ) == Some(i),
        i == comments.len() ==> spec_find_marker_index(comments, marker) is None,
    decreases i,
{
    if i == 0 {
    } else {
        assert(!contains_seq(comments[0].body@, marker));
        lemma_find_marker_scan(comments.drop_first(), marker, i - 1);
        assert forall|j: int| 1 <= j < comments.len() implies comments.drop_first()[j - 1]
            == comments[j] by {}
    }
}

/// The first listed comment whose body holds `marker`, in list order.
pub fn find_comment_with_marker<'a>(comments: &'a Vec<ReviewComment>, marker: &str) -> (r: Option<
    &'a ReviewComment,
>)
    ensures
        match r {
            Some(c) => {
                &&& spec_find_marker_index(comments@, marker@) matches Some(i)
                &&& *c == comments@[spec_find_marker_index(comments@, marker@)->0]
            },
            None => spec_find_marker_index(comments@, marker@) is None,
        },
{
    let n = comments.len();
    let mut i: usize = 0;
    while i < n
        invariant
            n == comments@.len(),
            0 <= i <= n,
            forall|j: int| 0 <= j < i ==> !contains_seq(#[trigger] comments@[j].body@, marker@),
        decreases n - i,
    {
        if str_contains(comments[i].body.as_str(), marker) {
            proof {
                lemma_find_marker_scan(comments@, marker@, i as int);
            }
            return Some(&comments[i]);
        }
        i += 1;
    }
    proof {
        lemma_find_marker_scan(comments@, marker@, n as int);
    }
    None
}

/// The position of the first cached comment with the given id.
pub open spec fn spec_find_id_index(comments: Seq<ReviewComment>, id: Seq<char>) -> Option<int>
    decreases comments.len(),
{
    if comments.len() == 0 {
        None
    } else if comments[0].id@ == id {
        Some(0int)
    } else {
        match spec_find_id_index(comments.drop_first(), id) {
            Some(i) => Some(i + 1),
            None => None,
        }
    }
}

/// A scan that saw no matching id through position `i` pins the spec index.
proof fn lemma_find_id_scan(comments: Seq<ReviewComment>, id: Seq<char>, i: int)
    requires
        0 <= i <= comments.len(),
        forall|j: int| 0 <= j < i ==> (#[trigger] comments[j].id)@ != id,
    ensures
        i < comments.len() && comments[i].id@ == id ==> spec_find_id_index(comments, id) == Some(
            i,
        ),
        i == comments.len() ==> spec_find_id_index(comments, id) is None,
    decreases i,
{
    if i > 0 {
        assert(comments[0].id@ != id);
        lemma_find_id_scan(comments.drop_first(), id, i - 1);
        assert forall|j: int| 1 <= j < comments.len() implies comments.drop_first()[j - 1]
            == comments[j] by {}
    }
}

/// The cache after an upsert: replaced in place at the first id match, else
/// appended.
pub open spec fn spec_upserted(
    comments: Seq<ReviewComment>,
    comment: ReviewComment,
) -> Seq<ReviewComment> {
    match spec_find_id_index(comments, comment.id@) {
        Some(i) => comments.update(i, comment),
        None => comments.push(comment),
    }
}

/// Mirrors a freshly created or updated VCS comment into the local cache so
/// later stages of the same run see it without re-fetching.
pub fn upsert_comment_cache(comments: &mut Vec<ReviewComment>, comment: ReviewComment)
    ensures
        final(comments)@ == spec_upserted(old(comments)@, comment),
{
    let n = comments.len();
    let mut i: usize = 0;
    while i < n
        invariant
            n == comments@.len(),
            comments@ == old(comments)@,
            0 <= i <= n,
            forall|j: int| 0 <= j < i ==> (#[trigger] comments@[j].id)@ != comment.id@,
        decreases n - i,
    {
        if str_eq(comments[i].id.as_str(), comment.id.as_str()) {
            proof {
                lemma_find_id_scan(comments@, comment.id@, i as int);
            }
            comments.set(i, comment);
            return ;
        }
        i += 1;
    }
    proof {
        lemma_find_id_scan(comments@, comment.id@, n as int);
    }
    comments.push(comment);
}

/// One provider's aggregated usage, keyed by provider id.
#[derive(Debug, Clone)]
pub struct UsageEntry {
    pub provider_id: String,
    pub provider_name: String,
    pub usage: TokenUsage,
}

/// Per-provider usage totals, in first-contribution order, one entry per
/// provider id.
#[derive(Debug, Clone)]
pub struct UsageTotals {
    pub entries: Vec<UsageEntry>,
}

/// The position of the first totals entry for a provider id.
pub open spec fn spec_find_usage_index(entries: Seq<UsageEntry>, id: Seq<char>) -> Option<int>
    decreases entries.len(),
{
    if entries.len() == 0 {
        None
    } else if entries[0].provider_id@ == id {
        Some(0int)
    } else {
        match spec_find_usage_index(entries.drop_first(), id) {
            Some(i) => Some(i + 1),
            None => None,
        }
    }
}

proof fn lemma_find_usage_scan(entries: Seq<UsageEntry>, id: Seq<char>, i: int)
    requires
        0 <= i <= entries.len(),
        forall|j: int| 0 <= j < i ==> (#[trigger] entries[j].provider_id)@ != id,
    ensures
        i < entries.len() && entries[i].provider_id@ == id ==> spec_find_usage_index(entries, id)
            == Some(i),
        i == entries.len() ==> spec_find_usage_index(entries, id) is None,
    decreases i,
{
    if i > 0 {
        assert(entries[0].provider_id@ != id);
        lemma_find_usage_scan(entries.drop_first(), id, i - 1);
        assert forall|j: int| 1 <= j < entries.len() implies entries.drop_first()[j - 1]
            == entries[j] by {}
    }
}

impl UsageTotals {
    /// An empty aggregate.
    pub fn new() -> (r: UsageTotals)
        ensures
            r.entries@.len() == 0,
    {
        UsageTotals { entries: Vec::new() }
    }

    /// The existing total for `id` can absorb `usage` without overflow; a
    /// provider not seen yet can always absorb.
    pub open spec fn spec_can_absorb(self, id: Seq<char>, usage: TokenUsage) -> bool {
        match spec_find_usage_index(self.entries@, id) {
            Some(i) => self.entries@[i].usage.spec_can_absorb(usage),
            None => true,
        }
    }

    /// Whether `usage` can be folded into the totals for `provider_id`
    /// without overflow, so that `add_usage_total` may be called.
    pub fn can_absorb(&self, provider_id: &str, usage: &TokenUsage) -> (r: bool)
        ensures
            r == self.spec_can_absorb(provider_id@, *usage),
    {
        let n = self.entries.len();
        let mut i: usize = 0;
        while i < n
            invariant
                n == self.entries@.len(),
                0 <= i <= n,
                forall|j: int|
                    0 <= j < i ==> (#[trigger] self.entries@[j].provider_id)@ != provider_id@,
            decreases n - i,
        {
            if str_eq(self.entries[i].provider_id.as_str(), provider_id) {
                proof {
                    lemma_find_usage_scan(self.entries@, provider_id@, i as int);
                }
                return self.entries[i].usage.can_absorb(usage);
            }
            i += 1;
        }
        proof {
            lemma_find_usage_scan(self.entries@, provider_id@, n as int);
        }
        true
    }
}

/// Folds one provider's usage into the totals: the first entry with the same
/// provider id absorbs it, otherwise a fresh entry is appended.
pub fn add_usage_total(
    usage_totals: &mut UsageTotals,
    provider_id: &str,
    provider_name: &str,
    usage: &TokenUsage,
)
    requires
        old(usage_totals).spec_can_absorb(provider_id@, *usage),
    ensures
        match spec_find_usage_index(old(usage_totals).entries@, provider_id@) {
            Some(i) => final(usage_totals).entries@ == old(usage_totals).entries@.update(
                i,
                UsageEntry {
                    provider_id: old(usage_totals).entries@[i].provider_id,
                    provider_name: old(usage_totals).entries@[i].provider_name,
                    usage: old(usage_totals).entries@[i].usage.spec_merged(*usage),
                },
            ),
            None => {
                &&& final(usage_totals).entries@.len() == old(usage_totals).entries@.len() + 1
                &&& final(usage_totals).entries@.subrange(
                    0,
                    old(usage_totals).entries@.len() as int,
                ) == old(usage_totals).entries@
                &&& final(usage_totals).entries@.last().provider_id@ == provider_id@
                &&& final(usage_totals).entries@.last().provider_name@ == provider_name@
                &&& final(usage_totals).entries@.last().usage == *usage
            },
        },
{
    let n = usage_totals.entries.len();
    let mut i: usize = 0;
    while i < n
        invariant
            n == usage_totals.entries@.len(),
            0 <= i <= n,
            *usage_totals == *old(usage_totals),
            old(usage_totals).spec_can_absorb(provider_id@, *usage),
            forall|j: int|
                0 <= j < i ==> (#[trigger] usage_totals.entries@[j].provider_id)@ != provider_id@,
        decreases n - i,
    {
        if str_eq(usage_totals.entries[i].provider_id.as_str(), provider_id) {
            proof {
                lemma_find_usage_scan(usage_totals.entries@, provider_id@, i as int);
            }
            proof {
                assert(spec_find_usage_index(old(usage_totals).entries@, provider_id@)
                    == Some(i as int));
                assert(old(usage_totals).entries@[i as int].usage.spec_can_absorb(*usage));
            }
            let entry_id = usage_totals.entries[i].provider_id.clone();
            let entry_name = usage_totals.entries[i].provider_name.clone();
            let mut merged = usage_totals.entries[i].usage;
            merged.add_from(usage);
            usage_totals.entries.set(
                i,
                UsageEntry { provider_id: entry_id, provider_name: entry_name, usage: merged },
            );
            return ;
        }
        i += 1;
    }
    proof {
        lemma_find_usage_scan(usage_totals.entries@, provider_id@, n as int);
    }
    usage_totals.entries.push(
        UsageEntry {
            provider_id: String::from_str(provider_id),
            provider_name: String::from_str(provider_name),
            usage: *usage,
        },
    );
    proof {
        assert(usage_totals.entries@.subrange(0, n as int) =~= old(usage_totals).entries@);
    }
}

/// One "## name" section of the cross-agent prompt, or nothing for the
/// invoking agent's own run.
pub open spec fn spec_cross_section(run: ProviderRun, self_id: Seq<char>) -> Seq<char> {
    if run.id@ == self_id {
        Seq::empty()
    } else {
        "## "@ + run.name@ + "\n"@ + spec_trim(run.body@) + "\n\n"@
    }
}

/// Every other agent's section, in primary-result order.
pub open spec fn spec_cross_sections(runs: Seq<ProviderRun>, self_id: Seq<char>) -> Seq<char>
    decreases runs.len(),
{
    if runs.len() == 0 {
        Seq::empty()
    } else {
        spec_cross_section(runs[0], self_id) + spec_cross_sections(runs.drop_first(), self_id)
    }
}

/// Extending the prefix of sections by one run appends that run's section.
proof fn lemma_cross_sections_take_step(runs: Seq<ProviderRun>, self_id: Seq<char>, i: int)
    requires
        0 <= i < runs.len(),
    ensures
        spec_cross_sections(runs.take(i + 1), self_id) == spec_cross_sections(
            runs.take(i),
            self_id,
        ) + spec_cross_section(runs[i], self_id),
    decreases i,
{
    if i == 0 {
        assert(runs.take(1) =~= seq![runs[0]]);
        assert(runs.take(1).drop_first() =~= Seq::<ProviderRun>::empty());
        assert(runs.take(0) =~= Seq::<ProviderRun>::empty());
        assert(runs.take(1)[0] == runs[0]);
        assert(spec_cross_section(runs[0], self_id) + Seq::<char>::empty() =~= spec_cross_section(
            runs[0],
            self_id,
        ));
        assert(spec_cross_sections(runs.take(0), self_id) + spec_cross_section(runs[0], self_id)
            =~= spec_cross_section(runs[0], self_id));
    } else {
        lemma_cross_sections_take_step(runs.drop_first(), self_id, i - 1);
        assert(runs.take(i + 1).drop_first() =~= runs.drop_first().take(i));
        assert(runs.take(i).drop_first() =~= runs.drop_first().take(i - 1));
        assert(runs.take(i + 1)[0] == runs[0]);
        assert(runs.take(i)[0] == runs[0]);
        assert(runs.drop_first()[i - 1] == runs[i]);
        assert(spec_cross_section(runs[0], self_id) + (spec_cross_sections(
            runs.drop_first().take(i - 1),
            self_id,
        ) + spec_cross_section(runs[i], self_id)) =~= (spec_cross_section(runs[0], self_id)
            + spec_cross_sections(runs.drop_first().take(i - 1), self_id)) + spec_cross_section(
            runs[i],
            self_id,
        ));
    }
}

/// The whole cross-agent prompt: fixed instructions, the language rule, the
/// target coordinates, every *other* agent's primary finding, and the output
/// structure to follow.
pub open spec fn spec_cross_agent_prompt(
    target_url: Seq<char>,
    head_sha: Seq<char>,
    self_id: Seq<char>,
    self_name: Seq<char>,
    comment_language: CommentLanguage,
    primary_results: Seq<ProviderRun>,
) -> Seq<char> {
    "You are participating in a multi-agent code review.\n"@
        + "Analyze other agents' findings and provide your perspective.\n"@
        + "Output language requirement:\n"@ + spec_language_instruction(comment_language)
        + "\n\n"@ + "Target URL: "@ + target_url + "\n"@ + "Head SHA: "@ + head_sha + "\n\n"@
        + "Other agents' findings:\n\n"@ + spec_cross_sections(primary_results, self_id)
        + "Now write "@ + self_name + "'s reaction to other agents.\n"@
        + "Use Markdown sections in this order: Agreements, Disagreements, Missed Risks, Suggested Resolution.\n"@
}

/// Builds the prompt for one agent's reaction round: every other agent's
/// primary body, the language rule, and the required output sections.
pub fn build_cross_agent_prompt(
    target_url: &str,
    head_sha: &str,
    self_id: &str,
    self_name: &str,
    comment_language: CommentLanguage,
    primary_results: &Vec<ProviderRun>,
) -> (r: String)
    ensures
        r@ == spec_cross_agent_prompt(
            target_url@,
            head_sha@,
            self_id@,
            self_name@,
            comment_language,
            primary_results@,
        ),
{
    let mut out = String::from_str("You are participating in a multi-agent code review.\n");
    out.append("Analyze other agents' findings and provide your perspective.\n");
    out.append("Output language requirement:\n");
    out.append(comment_language.prompt_instruction());
    out.append("\n\n");
    out.append("Target URL: ");
    out.append(target_url);
    out.append("\n");
    out.append("Head SHA: ");
    out.append(head_sha);
    out.append("\n\n");
    out.append("Other agents' findings:\n\n");
    let ghost header = out@;
    let n = primary_results.len();
    let mut i: usize = 0;
    while i < n
        invariant
            n == primary_results@.len(),
            0 <= i <= n,
            out@ == header + spec_cross_sections(primary_results@.take(i as int), self_id@),
        decreases n - i,
    {
        let ghost prev = out@;
        if !str_eq(primary_results[i].id.as_str(), self_id) {
            out.append("## ");
            out.append(primary_results[i].name.as_str());
            out.append("\n");
            out.append(trim_str(primary_results[i].body.as_str()));
            out.append("\n\n");
        }
        proof {
            lemma_cross_sections_take_step(primary_results@, self_id@, i as int);
            let run = primary_results@[i as int];
            assert(out@ =~= prev + spec_cross_section(run, self_id@));
            assert(out@ =~= header + spec_cross_sections(
                primary_results@.take(i + 1),
                self_id@,
            ));
        }
        i += 1;
    }
    proof {
        lemma_take_full(primary_results@);
    }
    out.append("Now write ");
    out.append(self_name);
    out.append("'s reaction to other agents.\n");
    out.append(
        "Use Markdown sections in this order: Agreements, Disagreements, Missed Risks, Suggested Resolution.\n",
    );
    out
}

} // verus!

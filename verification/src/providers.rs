//! The pure halves of running a provider CLI: assembling the invocation,
//! classifying its output, and recognising retryable failures. Spawning the
//! process happens outside.

use vstd::prelude::*;
use vstd::string::{StrSliceExecFns, StringExecFns};
use crate::config::ProviderCommandSpec;
use crate::review::ProviderResponse;
use crate::strutil::{concat2, contains_seq, matches_at, spec_trim, str_contains, trim_str};
use crate::usage::{parse_usage, spec_parse_usage};

verus! {

/// The three providers a login can be run for.
#[derive(Debug, Clone, Copy, PartialEq, Eq, Structural)]
pub enum ProviderAuthKind {
    Codex,
    Anthropic,
    Gemini,
}

/// The CLI program a provider falls back to when none is configured.
pub fn default_program(kind: ProviderAuthKind) -> (r: &'static str)
    ensures
        kind is Codex ==> r@ == "codex"@,
        kind is Anthropic ==> r@ == "anthropic"@,
        kind is Gemini ==> r@ == "gemini"@,
{
    match kind {
        ProviderAuthKind::Codex => "codex",
        ProviderAuthKind::Anthropic => "anthropic",
        ProviderAuthKind::Gemini => "gemini",
    }
}

/// Whether a lowercased failure message looks like a missing or expired
/// login. Deliberately conservative, so unrelated failures never trigger an
/// interactive login.
pub open spec fn spec_seems_auth_failure(m: Seq<char>) -> bool {
    ||| contains_seq(m, "unauthorized"@)
    ||| contains_seq(m, "not authenticated"@)
    ||| contains_seq(m, "authentication required"@)
    ||| contains_seq(m, "not logged in"@)
    ||| contains_seq(m, "please login"@)
    ||| contains_seq(m, "please log in"@)
    ||| (contains_seq(m, "run"@) && contains_seq(m, "login"@))
    ||| contains_seq(m, "sign in"@)
    ||| contains_seq(m, "login required"@)
    ||| contains_seq(m, "oauth"@)
}

/// Classifies a lowercased error message as an authentication failure.
pub fn seems_auth_failure(lower_msg: &str) -> (r: bool)
    ensures
        r == spec_seems_auth_failure(lower_msg@),
{
    str_contains(lower_msg, "unauthorized") || str_contains(lower_msg, "not authenticated")
        || str_contains(lower_msg, "authentication required") || str_contains(
        lower_msg,
        "not logged in",
    ) || str_contains(lower_msg, "please login") || str_contains(lower_msg, "please log in") || (
    str_contains(lower_msg, "run") && str_contains(lower_msg, "login")) || str_contains(
        lower_msg,
        "sign in",
    ) || str_contains(lower_msg, "login required") || str_contains(lower_msg, "oauth")
}

/// Whether a failed invocation should be retried once without piped stdin:
/// only when stdin was used, the retry was not spent, and the CLI said stdin
/// is not a terminal.
pub fn should_retry_without_stdin(use_stdin: bool, already_retried: bool, lower_msg: &str) -> (r:
    bool)
    ensures
        r == (use_stdin && !already_retried && contains_seq(
            lower_msg@,
            "stdin is not a terminal"@,
        )),
{
    use_stdin && !already_retried && str_contains(lower_msg, "stdin is not a terminal")
}

/// `s` with every occurrence of `pat` replaced by `rep`, scanning left to
/// right without overlap.
pub open spec fn spec_replace_all(s: Seq<char>, pat: Seq<char>, rep: Seq<char>) -> Seq<char>
    decreases s.len(),
{
    if pat.len() == 0 || pat.len() > s.len() {
        s
    } else if s.subrange(0, pat.len() as int) == pat {
        rep + spec_replace_all(s.skip(pat.len() as int), pat, rep)
    } else {
        seq![s[0]] + spec_replace_all(s.drop_first(), pat, rep)
    }
}

/// Replaces every occurrence of `pat` in `s` by `rep`.
fn replace_all(s: &str, pat: &str, rep: &str) -> (r: String)
    requires
        pat@.len() > 0,
    ensures
        r@ == spec_replace_all(s@, pat@, rep@),
{
    let s_len = s.unicode_len();
    let pat_len = pat.unicode_len();
    let mut out = String::new();
    proof {
        assert(s@.skip(0) =~= s@);
        assert(Seq::<char>::empty() + spec_replace_all(s@, pat@, rep@) =~= spec_replace_all(
            s@,
            pat@,
            rep@,
        ));
    }
    let mut i: usize = 0;
    while i < s_len
        invariant
            s_len == s@.len(),
            pat_len == pat@.len(),
            pat_len > 0,
            0 <= i <= s_len,
            spec_replace_all(s@, pat@, rep@) == out@ + spec_replace_all(
                s@.skip(i as int),
                pat@,
                rep@,
            ),
        decreases s_len - i,
    {
        let ghost tail = s@.skip(i as int);
        if s_len - i >= pat_len && matches_at(s, i, pat) {
            out.append(rep);
            proof {
                assert(tail.subrange(0, pat@.len() as int) =~= s@.subrange(
                    i as int,
                    i + pat@.len(),
                ));
                assert(tail.skip(pat@.len() as int) =~= s@.skip(i + pat_len));
                assert(spec_replace_all(tail, pat@, rep@) == rep@ + spec_replace_all(
                    s@.skip(i + pat_len),
                    pat@,
                    rep@,
                ));
            }
            i += pat_len;
        } else {
            push_tail_char(&mut out, s, i);
            proof {
                if s_len - i >= pat_len {
                    assert(tail.subrange(0, pat@.len() as int) =~= s@.subrange(
                        i as int,
                        i + pat@.len(),
                    ));
                } else {
                    assert(tail.len() < pat@.len());
                }
                assert(tail[0] == s@[i as int]);
                assert(tail.drop_first() =~= s@.skip(i + 1));
                assert(spec_replace_all(tail, pat@, rep@) == seq![s@[i as int]]
                    + spec_replace_all(s@.skip(i + 1), pat@, rep@));
            }
            i += 1;
        }
        proof {
            lemma_concat_reassoc();
        }
    }
    proof {
        assert(s@.skip(s_len as int) =~= Seq::<char>::empty());
        assert(out@ + Seq::<char>::empty() =~= out@);
    }
    out
}

/// Appends the character of `s` at position `i`.
fn push_tail_char(out: &mut String, s: &str, i: usize)
    requires
        i < s@.len(),
    ensures
        final(out)@ == old(out)@.push(s@[i as int]),
{
    crate::strutil::push_char(out, s.get_char(i));
}

/// Concatenation over character sequences regroups freely; stated once so
/// the replace loop can use it.
proof fn lemma_concat_reassoc()
    ensures
        forall|a: Seq<char>, b: Seq<char>, c: Seq<char>| #[trigger] (a + (b + c)) == (a + b) + c,
{
    assert forall|a: Seq<char>, b: Seq<char>, c: Seq<char>| #[trigger] (a + (b + c)) == (a + b)
        + c by {
        assert(a + (b + c) =~= (a + b) + c);
    }
}

/// The argument list actually handed to a provider CLI: configured arguments
/// with `{prompt}` substituted, and — when stdin is off and no argument
/// carried the prompt — the prompt appended as the last argument.
pub open spec fn spec_prompt_in_args(args: Seq<String>) -> bool {
    exists|i: int|
        0 <= i < args.len() && contains_seq(#[trigger] args[i]@, "{prompt}"@)
}

/// Builds the final CLI argument list for one provider invocation.
pub fn build_provider_args(spec: &ProviderCommandSpec, prompt: &str) -> (r: Vec<String>)
    ensures
        ({
            let substituted = Seq::new(
                spec.args@.len(),
                |i: int| spec_replace_all(spec.args@[i]@, "{prompt}"@, prompt@),
            );
            if spec.use_stdin || spec_prompt_in_args(spec.args@) {
                r@.len() == spec.args@.len() && (forall|i: int|
                    0 <= i < r@.len() ==> (#[trigger] r@[i])@ == substituted[i])
            } else {
                r@.len() == spec.args@.len() + 1 && (forall|i: int|
                    0 <= i < spec.args@.len() ==> (#[trigger] r@[i])@ == substituted[i])
                    && r@.last()@ == prompt@
            }
        }),
{
    proof {
        reveal_strlit("{prompt}");
    }
    let mut out: Vec<String> = Vec::new();
    let mut prompt_in_args = false;
    let n = spec.args.len();
    let mut i: usize = 0;
    while i < n
        invariant
            "{prompt}"@.len() > 0,
            n == spec.args@.len(),
            0 <= i <= n,
            out@.len() == i,
            forall|j: int|
                0 <= j < i ==> (#[trigger] out@[j])@ == spec_replace_all(
                    spec.args@[j]@,
                    "{prompt}"@,
                    prompt@,
                ),
            prompt_in_args == spec_prompt_in_args(spec.args@.take(i as int)),
        decreases n - i,
    {
        let arg = &spec.args[i];
        let ghost before = spec.args@.take(i as int);
        if str_contains(arg.as_str(), "{prompt}") {
            prompt_in_args = true;
            out.push(replace_all(arg.as_str(), "{prompt}", prompt));
        } else {
            out.push(arg.clone());
            proof {
                let a = spec.args@[i as int]@;
                assert(a.len() < "{prompt}"@.len() || a.subrange(0, "{prompt}"@.len() as int)
                    != "{prompt}"@ ==> true);
                lemma_replace_all_absent(a, "{prompt}"@, prompt@);
            }
        }
        proof {
            let t = spec.args@.take(i + 1);
            assert(t.drop_last() =~= before);
            assert(t.last() == spec.args@[i as int]);
            if spec_prompt_in_args(t) {
                let w = choose|w: int|
                    0 <= w < t.len() && contains_seq(#[trigger] t[w]@, "{prompt}"@);
                if w < i {
                    assert(before[w] == t[w]);
                    assert(spec_prompt_in_args(before));
                }
            }
            if spec_prompt_in_args(before) {
                let w = choose|w: int|
                    0 <= w < before.len() && contains_seq(#[trigger] before[w]@, "{prompt}"@);
                assert(t[w] == before[w]);
                assert(spec_prompt_in_args(t));
            }
            if contains_seq(spec.args@[i as int]@, "{prompt}"@) {
                assert(t[i as int] == spec.args@[i as int]);
                assert(spec_prompt_in_args(t));
            }
        }
        i += 1;
    }
    proof {
        assert(spec.args@.take(n as int) =~= spec.args@);
    }
    if !spec.use_stdin && !prompt_in_args {
        out.push(String::from_str(prompt));
    }
    out
}

/// A string without the pattern is left unchanged by replacement.
proof fn lemma_replace_all_absent(s: Seq<char>, pat: Seq<char>, rep: Seq<char>)
    requires
        pat.len() > 0,
        !contains_seq(s, pat),
    ensures
        spec_replace_all(s, pat, rep) == s,
    decreases s.len(),
{
    if pat.len() <= s.len() {
        assert(s.subrange(0, pat.len() as int) != pat) by {
            if s.subrange(0, pat.len() as int) == pat {
                assert(contains_seq(s, pat)) by {
                    let i = 0int;
                    assert(s.subrange(i, i + pat.len() as int) == pat);
                }
            }
        }
        assert forall|j: int|
            0 <= j && j + pat.len() <= s.drop_first().len() implies #[trigger] s.drop_first()
            .subrange(j, j + pat.len() as int) != pat by {
            assert(s.drop_first().subrange(j, j + pat.len() as int) =~= s.subrange(
                j + 1,
                j + 1 + pat.len() as int,
            ));
        }
        lemma_replace_all_absent(s.drop_first(), pat, rep);
        assert(seq![s[0]] + s.drop_first() =~= s);
    }
}

/// What a finished provider process means: a failure message for a non-zero
/// exit, the trimmed stdout as the review text, or the trimmed stderr when
/// stdout stayed empty; token usage is parsed best-effort from both streams.
pub fn provider_response_from_output(
    provider_name: &str,
    status_ok: bool,
    status_label: &str,
    stdout: &str,
    stderr: &str,
) -> (r: Result<ProviderResponse, String>)
    ensures
        ({
            let so = spec_trim(stdout@);
            let se = spec_trim(stderr@);
            match r {
                Ok(resp) => {
                    &&& status_ok
                    &&& resp.usage == spec_parse_usage(so, se)
                    &&& if so.len() > 0 {
                        resp.content@ == so
                    } else {
                        se.len() > 0 && resp.content@ == se
                    }
                },
                Err(message) => {
                    if !status_ok {
                        message@ == provider_name@ + " command failed ("@ + status_label@ + "): "@
                            + (if se.len() == 0 {
                            "no stderr output"@
                        } else {
                            se
                        })
                    } else {
                        so.len() == 0 && se.len() == 0 && message@ == provider_name@
                            + " command returned empty output"@
                    }
                },
            }
        }),
{
    let so = trim_str(stdout);
    let se = trim_str(stderr);
    let usage = parse_usage(so, se);
    if !status_ok {
        let mut message = String::from_str(provider_name);
        message.append(" command failed (");
        message.append(status_label);
        message.append("): ");
        if se.unicode_len() == 0 {
            message.append("no stderr output");
        } else {
            message.append(se);
        }
        return Err(message);
    }
    if so.unicode_len() == 0 {
        if se.unicode_len() == 0 {
            return Err(concat2(provider_name, " command returned empty output"));
        }
        return Ok(ProviderResponse { content: String::from_str(se), usage });
    }
    Ok(ProviderResponse { content: String::from_str(so), usage })
}

} // verus!

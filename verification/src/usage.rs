//! Best-effort extraction of token counts from free-text provider output.
//! Counters this parsing cannot find stay absent; they never fail a review.

use vstd::prelude::*;
use vstd::string::{StrSliceExecFns, StringExecFns};
use crate::review::TokenUsage;
use crate::strutil::{
    contains_seq, is_digit_char, parse_u64, spec_digits_value, spec_is_digit, str_contains,
};
use crate::version::{spec_first_digit_from, spec_run_end};

verus! {

/// What `str::to_lowercase` returns for a string: the Unicode lowercase
/// mapping, a function of the characters alone.
pub uninterp spec fn lower_of(s: Seq<char>) -> Seq<char>;

/// Relies on `str::to_lowercase`: the Unicode lowercase mapping of the
/// string, depending on its characters alone.
#[verifier::external_body]
fn lowercase_str(s: &str) -> (r: String)
    ensures
        r@ == lower_of(s@),
{
    s.to_lowercase()
}

/// The value of the first digit run in `s`: `None` when there is no digit or
/// the run exceeds `u64::MAX`.
pub open spec fn spec_first_number(s: Seq<char>) -> Option<u64> {
    let d = spec_first_digit_from(s, 0);
    if d == s.len() {
        None
    } else {
        let v = spec_digits_value(s.subrange(d, spec_run_end(s, d, s.len() as int)));
        if v > u64::MAX {
            None
        } else {
            Some(v as u64)
        }
    }
}

/// A digit run ends inside `[from, end]` and covers only digits.
proof fn lemma_run_bounds(s: Seq<char>, from: int, end: int)
    requires
        from <= end,
    ensures
        from <= spec_run_end(s, from, end) <= end,
        forall|j: int| from <= j < spec_run_end(s, from, end) ==> spec_is_digit(#[trigger] s[j]),
    decreases end - from,
{
    if from < end && spec_is_digit(s[from]) {
        lemma_run_bounds(s, from + 1, end);
    }
}

/// Reads the first contiguous digit run out of a string.
pub fn first_number(s: &str) -> (r: Option<u64>)
    ensures
        r == spec_first_number(s@),
{
    let len = s.unicode_len();
    let mut d: usize = 0;
    while d < len && !is_digit_char(s.get_char(d))
        invariant
            len == s@.len(),
            0 <= d <= len,
            spec_first_digit_from(s@, 0) == spec_first_digit_from(s@, d as int),
        decreases len - d,
    {
        d += 1;
    }
    if d == len {
        return None;
    }
    let mut run_end: usize = d;
    while run_end < len && is_digit_char(s.get_char(run_end))
        invariant
            len == s@.len(),
            d <= run_end <= len,
            spec_run_end(s@, d as int, len as int) == spec_run_end(
                s@,
                run_end as int,
                len as int,
            ),
        decreases len - run_end,
    {
        run_end += 1;
    }
    proof {
        assert(spec_run_end(s@, run_end as int, len as int) == run_end as int);
        lemma_run_bounds(s@, d as int, len as int);
        assert(run_end > d);
    }
    parse_u64(s.substring_char(d, run_end))
}

/// The character sequences of a list of search keys, in order.
pub open spec fn key_views(keys: Seq<&str>) -> Seq<Seq<char>> {
    Seq::new(keys.len(), |i: int| keys[i]@)
}

/// Whether any of the keys occurs in the line.
pub open spec fn spec_any_key(line: Seq<char>, keys: Seq<Seq<char>>) -> bool
    decreases keys.len(),
{
    if keys.len() == 0 {
        false
    } else {
        contains_seq(line, keys[0]) || spec_any_key(line, keys.drop_first())
    }
}

/// The end of the line starting at `from`: the next newline, or the length.
pub open spec fn spec_line_end(s: Seq<char>, from: int) -> int
    decreases s.len() - from,
{
    if from < s.len() && s[from] != '\n' {
        spec_line_end(s, from + 1)
    } else {
        from
    }
}

proof fn lemma_line_end_bounds(s: Seq<char>, from: int)
    requires
        0 <= from <= s.len(),
    ensures
        from <= spec_line_end(s, from) <= s.len(),
    decreases s.len() - from,
{
    if from < s.len() && s[from] != '\n' {
        lemma_line_end_bounds(s, from + 1);
    }
}

/// Scans the lines of `s` from `from` on: the first line holding any key and
/// a number yields that line's first number.
pub open spec fn spec_scan_lines(s: Seq<char>, from: int, keys: Seq<Seq<char>>) -> Option<u64>
    decreases s.len() - from + 1,
{
    if from < 0 || from > s.len() {
        None
    } else {
        let line_end = spec_line_end(s, from);
        let bounded_end = if from <= line_end <= s.len() {
            line_end
        } else {
            from
        };
        let line = s.subrange(from, bounded_end);
        if spec_any_key(line, keys) && spec_first_number(line) is Some {
            spec_first_number(line)
        } else if bounded_end >= s.len() {
            None
        } else {
            spec_scan_lines(s, bounded_end + 1, keys)
        }
    }
}

/// The position of the first occurrence of `needle` in `hay`.
pub open spec fn spec_find_index(hay: Seq<char>, needle: Seq<char>) -> Option<int> {
    if contains_seq(hay, needle) {
        Some(
            choose|i: int|
                {
                    &&& 0 <= i && i + needle.len() <= hay.len()
                    &&& #[trigger] hay.subrange(i, i + needle.len()) == needle
                    &&& forall|j: int|
                        0 <= j < i ==> #[trigger] hay.subrange(j, j + needle.len()) != needle
                },
        )
    } else {
        None
    }
}

/// Whether `hay` matches `needle` at position `at`.
fn find_matches_at(hay: &str, at: usize, needle: &str) -> (r: bool)
    requires
        at + needle@.len() <= hay@.len(),
        hay@.len() <= usize::MAX,
    ensures
        r == (hay@.subrange(at as int, at + needle@.len()) == needle@),
{
    let n_len = needle.unicode_len();
    let mut k: usize = 0;
    while k < n_len
        invariant
            n_len == needle@.len(),
            at + n_len <= hay@.len(),
            hay@.len() <= usize::MAX,
            0 <= k <= n_len,
            forall|j: int| 0 <= j < k ==> hay@[at + j] == needle@[j],
        decreases n_len - k,
    {
        if hay.get_char(at + k) != needle.get_char(k) {
            proof {
                if hay@.subrange(at as int, at + needle@.len()) == needle@ {
                    assert(hay@.subrange(at as int, at + needle@.len())[k as int]
                        == needle@[k as int]);
                }
            }
            return false;
        }
        k += 1;
    }
    proof {
        assert(hay@.subrange(at as int, at + needle@.len()) =~= needle@);
    }
    true
}

/// The first position where `needle` occurs in `hay`.
pub fn str_find(hay: &str, needle: &str) -> (r: Option<usize>)
    ensures
        match r {
            Some(i) => {
                &&& i + needle@.len() <= hay@.len()
                &&& hay@.subrange(i as int, i + needle@.len()) == needle@
                &&& spec_find_index(hay@, needle@) == Some(i as int)
            },
            None => spec_find_index(hay@, needle@) is None,
        },
{
    let hay_len = hay.unicode_len();
    let needle_len = needle.unicode_len();
    if needle_len > hay_len {
        proof {
            if contains_seq(hay@, needle@) {
                let w = choose|w: int|
                    0 <= w && w + needle@.len() <= hay@.len() && #[trigger] hay@.subrange(
                        w,
                        w + needle@.len(),
                    ) == needle@;
                assert(hay@.subrange(w, w + needle@.len()).len() == needle@.len());
            }
        }
        return None;
    }
    if needle_len == 0 {
        proof {
            let i = 0int;
            assert(hay@.subrange(i, i + needle@.len() as int) =~= needle@);
            let w = choose|w: int|
                {
                    &&& 0 <= w && w + needle@.len() <= hay@.len()
                    &&& #[trigger] hay@.subrange(w, w + needle@.len()) == needle@
                    &&& forall|j: int|
                        0 <= j < w ==> #[trigger] hay@.subrange(j, j + needle@.len()) != needle@
                };
            assert(w == 0) by {
                if w > 0 {
                    assert(hay@.subrange(0int, 0int + needle@.len()) != needle@);
                }
            }
        }
        return Some(0);
    }
    let mut i: usize = 0;
    while i <= hay_len - needle_len
        invariant
            hay_len == hay@.len(),
            needle_len == needle@.len(),
            hay@.len() <= usize::MAX,
            0 < needle_len <= hay_len,
            0 <= i <= hay_len - needle_len + 1,
            forall|j: int|
                0 <= j < i ==> #[trigger] hay@.subrange(j, j + needle@.len()) != needle@,
        decreases hay_len - i,
    {
        if find_matches_at(hay, i, needle) {
            proof {
                let w = choose|w: int|
                    {
                        &&& 0 <= w && w + needle@.len() <= hay@.len()
                        &&& #[trigger] hay@.subrange(w, w + needle@.len()) == needle@
                        &&& forall|j: int|
                            0 <= j < w ==> #[trigger] hay@.subrange(j, j + needle@.len())
                                != needle@
                    };
                assert(spec_find_index(hay@, needle@) == Some(i as int)) by {
                    assert(contains_seq(hay@, needle@));
                    if w < i {
                        assert(hay@.subrange(w, w + needle@.len()) != needle@);
                    }
                    if w > i {
                        assert(hay@.subrange(i as int, i + needle@.len()) != needle@);
                    }
                }
            }
            return Some(i);
        }
        i += 1;
    }
    proof {
        if contains_seq(hay@, needle@) {
            let w = choose|w: int|
                0 <= w && w + needle@.len() <= hay@.len() && #[trigger] hay@.subrange(
                    w,
                    w + needle@.len(),
                ) == needle@;
            assert(hay@.subrange(w, w + needle@.len()) != needle@);
        }
    }
    None
}

/// The fallback search: the first key found anywhere in `s` and followed by
/// a digit run yields that run's value.
pub open spec fn spec_key_fallback(s: Seq<char>, keys: Seq<Seq<char>>) -> Option<u64>
    decreases keys.len(),
{
    if keys.len() == 0 {
        None
    } else {
        match spec_find_index(s, keys[0]) {
            Some(i) => match spec_first_number(s.skip(i + keys[0].len())) {
                Some(v) => Some(v),
                None => spec_key_fallback(s, keys.drop_first()),
            },
            None => spec_key_fallback(s, keys.drop_first()),
        }
    }
}

/// The metric a free-form text reports under any of the given keys: first by
/// whole lines (a line holding a key and a number), then by searching for a
/// key anywhere and reading the number after it. All matching is done on the
/// lowercased text.
pub open spec fn spec_extract_metric(text: Seq<char>, keys: Seq<Seq<char>>) -> Option<u64> {
    let lower = lower_of(text);
    match spec_scan_lines(lower, 0, keys) {
        Some(v) => Some(v),
        None => spec_key_fallback(lower, keys),
    }
}

/// The fallback pass: the first key found anywhere, followed by a number.
#[verifier::rlimit(30)]
fn key_fallback(lower: &str, keys: &Vec<&str>) -> (r: Option<u64>)
    ensures
        r == spec_key_fallback(lower@, key_views(keys@)),
{
    let ghost ls = lower@;
    let ghost kvs = key_views(keys@);
    let len = lower.unicode_len();
    let key_count = keys.len();
    proof {
        assert(kvs.skip(0) =~= kvs);
    }
    let mut ki: usize = 0;
    while ki < key_count
        invariant
            lower@ == ls,
            len == ls.len(),
            key_count == keys@.len(),
            kvs == key_views(keys@),
            0 <= ki <= key_count,
            spec_key_fallback(ls, kvs) == spec_key_fallback(ls, kvs.skip(ki as int)),
        decreases key_count - ki,
    {
        proof {
            lemma_key_fallback_step(ls, kvs, ki as int);
        }
        match str_find(lower, keys[ki]) {
            Some(at) => {
                let tail_start = at + keys[ki].unicode_len();
                let tail = lower.substring_char(tail_start, len);
                proof {
                    assert(tail@ =~= ls.skip(at + kvs[ki as int].len()));
                }
                match first_number(tail) {
                    Some(v) => { return Some(v) },
                    None => {},
                }
            },
            None => {},
        }
        ki += 1;
    }
    proof {
        assert(kvs.skip(key_count as int) =~= Seq::<Seq<char>>::empty());
    }
    None
}

/// Extracts one metric from provider output, trying line matches first and
/// then a plain substring search, case-insensitively.
#[verifier::rlimit(60)]
pub fn extract_metric(text: &str, keys: &Vec<&str>) -> (r: Option<u64>)
    ensures
        r == spec_extract_metric(text@, key_views(keys@)),
{
    let lower_string = lowercase_str(text);
    let lower = lower_string.as_str();
    let ghost ls = lower_of(text@);
    let ghost kvs = key_views(keys@);
    let len = lower.unicode_len();
    let mut from: usize = 0;
    let mut scan_result: Option<u64> = None;
    let mut scanning = true;
    while scanning
        invariant
            lower@ == ls,
            len == ls.len(),
            kvs == key_views(keys@),
            0 <= from <= len,
            scanning ==> scan_result is None,
            scanning ==> spec_scan_lines(ls, 0, kvs) == spec_scan_lines(ls, from as int, kvs),
            !scanning ==> spec_scan_lines(ls, 0, kvs) == scan_result,
        decreases len - from + 1, (if scanning { 1int } else { 0int }),
    {
        let mut line_end: usize = from;
        while line_end < len && lower.get_char(line_end) != '\n'
            invariant
                lower@ == ls,
                len == ls.len(),
                from <= line_end <= len,
                spec_line_end(ls, from as int) == spec_line_end(ls, line_end as int),
            decreases len - line_end,
        {
            line_end += 1;
        }
        proof {
            assert(spec_line_end(ls, line_end as int) == line_end as int);
        }
        let line = lower.substring_char(from, line_end);
        let mut hit = false;
        let mut ki: usize = 0;
        let key_count = keys.len();
        while ki < key_count && !hit
            invariant
                lower@ == ls,
                line@ == ls.subrange(from as int, line_end as int),
                key_count == keys@.len(),
                kvs == key_views(keys@),
                0 <= ki <= key_count,
                hit ==> spec_any_key(line@, kvs),
                !hit ==> !spec_any_key(line@, kvs.take(ki as int)),
            decreases key_count - ki,
        {
            if str_contains(line, keys[ki]) {
                hit = true;
                proof {
                    lemma_any_key_member(line@, kvs, ki as int);
                }
            } else {
                proof {
                    lemma_any_key_take_step(line@, kvs, ki as int);
                }
            }
            ki += 1;
        }
        proof {
            if !hit {
                assert(kvs.take(key_count as int) =~= kvs);
            }
        }
        if hit {
            match first_number(line) {
                Some(v) => {
                    scan_result = Some(v);
                    scanning = false;
                },
                None => {
                    if line_end >= len {
                        scanning = false;
                    } else {
                        from = line_end + 1;
                    }
                },
            }
        } else {
            if line_end >= len {
                scanning = false;
            } else {
                from = line_end + 1;
            }
        }
    }
    match scan_result {
        Some(v) => { return Some(v) },
        None => {},
    }
    key_fallback(lower, keys)
}

/// A key that occurs in the line makes `spec_any_key` true.
proof fn lemma_any_key_member(line: Seq<char>, keys: Seq<Seq<char>>, i: int)
    requires
        0 <= i < keys.len(),
        contains_seq(line, keys[i]),
    ensures
        spec_any_key(line, keys),
    decreases i,
{
    if i > 0 {
        lemma_any_key_member(line, keys.drop_first(), i - 1);
        assert(keys.drop_first()[i - 1] == keys[i]);
    }
}

/// Checking one more key extends the scanned prefix.
proof fn lemma_any_key_take_step(line: Seq<char>, keys: Seq<Seq<char>>, i: int)
    requires
        0 <= i < keys.len(),
        !spec_any_key(line, keys.take(i)),
        !contains_seq(line, keys[i]),
    ensures
        !spec_any_key(line, keys.take(i + 1)),
    decreases i,
{
    if i == 0 {
        assert(keys.take(1)[0] == keys[0]);
        assert(keys.take(1).drop_first() =~= Seq::<Seq<char>>::empty());
        assert(!spec_any_key(line, Seq::<Seq<char>>::empty()));
    } else {
        assert(keys.take(i + 1)[0] == keys[0]);
        assert(keys.take(i)[0] == keys[0]);
        assert(keys.take(i + 1).drop_first() =~= keys.drop_first().take(i));
        assert(keys.take(i).drop_first() =~= keys.drop_first().take(i - 1));
        assert(keys.drop_first()[i - 1] == keys[i]);
        assert(!contains_seq(line, keys[0]));
        assert(!spec_any_key(line, keys.drop_first().take(i - 1)));
        lemma_any_key_take_step(line, keys.drop_first(), i - 1);
    }
}

/// The fallback over the remaining keys steps one key at a time.
proof fn lemma_key_fallback_step(s: Seq<char>, keys: Seq<Seq<char>>, i: int)
    requires
        0 <= i < keys.len(),
    ensures
        spec_key_fallback(s, keys.skip(i)) == ({
            let tail = keys.skip(i + 1);
            match spec_find_index(s, keys[i]) {
                Some(w) => match spec_first_number(s.skip(w + keys[i].len())) {
                    Some(v) => Some(v),
                    None => spec_key_fallback(s, tail),
                },
                None => spec_key_fallback(s, tail),
            }
        }),
{
    assert(keys.skip(i)[0] == keys[i]);
    assert(keys.skip(i).len() > 0);
    assert(keys.skip(i).drop_first() =~= keys.skip(i + 1));
}

/// Token usage read from a provider's combined output: each counter from its
/// own key set, and the total falling back to prompt + completion when both
/// are known and their sum fits.
pub open spec fn spec_parse_usage(stdout: Seq<char>, stderr: Seq<char>) -> TokenUsage {
    let merged = stdout + "\n"@ + stderr;
    let prompt = spec_extract_metric(merged, prompt_keys());
    let completion = spec_extract_metric(merged, completion_keys());
    let direct_total = spec_extract_metric(merged, total_keys());
    let total = if direct_total is Some {
        direct_total
    } else {
        match (prompt, completion) {
            (Some(p), Some(c)) => if p + c <= u64::MAX {
                Some((p + c) as u64)
            } else {
                None
            },
            _ => None,
        }
    };
    TokenUsage { prompt_tokens: prompt, completion_tokens: completion, total_tokens: total }
}

/// The key sets the three counters are searched under.
pub open spec fn prompt_keys() -> Seq<Seq<char>> {
    seq!["prompt_tokens"@, "prompt tokens"@, "input_tokens"@, "input tokens"@]
}

pub open spec fn completion_keys() -> Seq<Seq<char>> {
    seq!["completion_tokens"@, "completion tokens"@, "output_tokens"@, "output tokens"@]
}

pub open spec fn total_keys() -> Seq<Seq<char>> {
    seq!["total_tokens"@, "total tokens"@, "tokens total"@]
}

/// Parses best-effort token usage out of a provider invocation's output
/// streams. Counters that cannot be read stay absent.
#[verifier::rlimit(80)]
pub fn parse_usage(stdout: &str, stderr: &str) -> (r: TokenUsage)
    ensures
        r == spec_parse_usage(stdout@, stderr@),
{
    let mut merged = String::from_str(stdout);
    merged.append("\n");
    merged.append(stderr);
    let mut prompt_key_list: Vec<&str> = Vec::new();
    prompt_key_list.push("prompt_tokens");
    prompt_key_list.push("prompt tokens");
    prompt_key_list.push("input_tokens");
    prompt_key_list.push("input tokens");
    proof {
        assert(key_views(prompt_key_list@)[0] == "prompt_tokens"@);
        assert(key_views(prompt_key_list@)[1] == "prompt tokens"@);
        assert(key_views(prompt_key_list@)[2] == "input_tokens"@);
        assert(key_views(prompt_key_list@)[3] == "input tokens"@);
        assert(key_views(prompt_key_list@) =~~= prompt_keys());
    }
    let prompt = extract_metric(merged.as_str(), &prompt_key_list);
    let mut completion_key_list: Vec<&str> = Vec::new();
    completion_key_list.push("completion_tokens");
    completion_key_list.push("completion tokens");
    completion_key_list.push("output_tokens");
    completion_key_list.push("output tokens");
    proof {
        assert(key_views(completion_key_list@)[0] == "completion_tokens"@);
        assert(key_views(completion_key_list@)[1] == "completion tokens"@);
        assert(key_views(completion_key_list@)[2] == "output_tokens"@);
        assert(key_views(completion_key_list@)[3] == "output tokens"@);
        assert(key_views(completion_key_list@) =~~= completion_keys());
    }
    let completion = extract_metric(merged.as_str(), &completion_key_list);
    let mut total_key_list: Vec<&str> = Vec::new();
    total_key_list.push("total_tokens");
    total_key_list.push("total tokens");
    total_key_list.push("tokens total");
    proof {
        assert(key_views(total_key_list@)[0] == "total_tokens"@);
        assert(key_views(total_key_list@)[1] == "total tokens"@);
        assert(key_views(total_key_list@)[2] == "tokens total"@);
        assert(key_views(total_key_list@) =~~= total_keys());
    }
    let mut total = extract_metric(merged.as_str(), &total_key_list);
    if total.is_none() {
        total = match (prompt, completion) {
            (Some(p), Some(c)) => {
                if p <= u64::MAX - c {
                    Some(p + c)
                } else {
                    None
                }
            },
            _ => None,
        };
    }
    TokenUsage { prompt_tokens: prompt, completion_tokens: completion, total_tokens: total }
}

} // verus!

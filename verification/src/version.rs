//! Best-effort version parsing and comparison for the update check.

use vstd::prelude::*;
use vstd::string::{StrSliceExecFns, StringExecFns};
use crate::strutil::{
    is_digit_char, parse_u64, spec_digits_value, spec_is_digit, spec_trim, trim_str,
};

verus! {

/// What an update endpoint reported: the latest version string and, when it
/// gave one, where to download it.
#[derive(Debug, Clone)]
pub struct LatestVersionInfo {
    pub version: String,
    pub download_url: Option<String>,
}

/// What the user is told when a newer version exists.
#[derive(Debug, Clone)]
pub struct UpdateNotice {
    pub current_version: String,
    pub latest_version: String,
    pub download_url: Option<String>,
}

/// Reads a plain-text update payload: the trimmed body is the version, and
/// a blank body means no usable answer.
pub fn parse_plain_payload(raw: &str) -> (r: Option<LatestVersionInfo>)
    ensures
        match r {
            Some(info) => spec_trim(raw@).len() > 0 && info.version@ == spec_trim(raw@)
                && info.download_url is None,
            None => spec_trim(raw@).len() == 0,
        },
{
    let version = trim_str(raw);
    if version.unicode_len() == 0 {
        return None;
    }
    Some(LatestVersionInfo { version: String::from_str(version), download_url: None })
}

/// A version chunk character: a digit or a dot.
pub open spec fn spec_is_verchar(c: char) -> bool {
    spec_is_digit(c) || c == '.'
}

/// The first position at or after `from` holding a digit; the length when
/// none does.
pub open spec fn spec_first_digit_from(s: Seq<char>, from: int) -> int
    decreases s.len() - from,
{
    if from < s.len() && !spec_is_digit(s[from]) {
        spec_first_digit_from(s, from + 1)
    } else {
        from
    }
}

/// The end of the digits-and-dots region starting at `from`.
pub open spec fn spec_ver_end(s: Seq<char>, from: int) -> int
    decreases s.len() - from,
{
    if from < s.len() && spec_is_verchar(s[from]) {
        spec_ver_end(s, from + 1)
    } else {
        from
    }
}

/// The end of the digit run starting at `from`, bounded by `end`.
pub open spec fn spec_run_end(s: Seq<char>, from: int, end: int) -> int
    decreases end - from,
{
    if from < end && spec_is_digit(s[from]) {
        spec_run_end(s, from + 1, end)
    } else {
        from
    }
}

/// The numeric components of the digits-and-dots region `[from, end)` of
/// `s`, in order, empty chunks skipped; `None` when a component exceeds
/// `u64::MAX`.
pub open spec fn spec_parts_from(s: Seq<char>, from: int, end: int) -> Option<Seq<u64>>
    decreases end - from,
{
    if from < 0 || from >= end {
        Some(Seq::empty())
    } else if s[from] == '.' {
        spec_parts_from(s, from + 1, end)
    } else if !spec_is_digit(s[from]) {
        Some(Seq::empty())
    } else {
        let run_end = spec_run_end(s, from, end);
        let next = if from < run_end && run_end <= end {
            run_end
        } else {
            from + 1
        };
        let v = spec_digits_value(s.subrange(from, run_end));
        if v > u64::MAX {
            None
        } else {
            match spec_parts_from(s, next, end) {
                Some(rest) => Some((seq![v as u64]) + rest),
                None => None,
            }
        }
    }
}

/// A digit run ends inside `[from, end]` and covers only digits.
proof fn lemma_run_end_bounds(s: Seq<char>, from: int, end: int)
    requires
        from <= end,
    ensures
        from <= spec_run_end(s, from, end) <= end,
        forall|j: int| from <= j < spec_run_end(s, from, end) ==> spec_is_digit(#[trigger] s[j]),
    decreases end - from,
{
    if from < end && spec_is_digit(s[from]) {
        lemma_run_end_bounds(s, from + 1, end);
    }
}

/// The digits-and-dots region covers only digits and dots.
proof fn lemma_ver_region(s: Seq<char>, from: int)
    requires
        0 <= from,
    ensures
        forall|j: int| from <= j < spec_ver_end(s, from) ==> spec_is_verchar(#[trigger] s[j]),
        from <= s.len() ==> from <= spec_ver_end(s, from) <= s.len(),
    decreases s.len() - from,
{
    if from < s.len() && spec_is_verchar(s[from]) {
        lemma_ver_region(s, from + 1);
    }
}

/// The version components a raw string denotes: the digits-and-dots region
/// starting at its first digit (after trimming), split on dots. `None` when
/// no digit occurs or a component overflows.
pub open spec fn spec_version_parts_of(raw: Seq<char>) -> Option<Seq<u64>> {
    let t = spec_trim(raw);
    let d = spec_first_digit_from(t, 0);
    if d == t.len() {
        None
    } else {
        spec_parts_from(t, d, spec_ver_end(t, d))
    }
}

/// Glues already-parsed components onto a partial parse.
spec fn spec_glue(acc: Seq<u64>, rest: Option<Seq<u64>>) -> Option<Seq<u64>> {
    match rest {
        Some(r) => Some(acc + r),
        None => None,
    }
}

/// Reads the numeric components out of a version string such as `v1.2.3`:
/// everything before the first digit is ignored, the digits-and-dots region
/// from there is split on dots, and each nonempty chunk becomes one
/// component. `None` when there is no digit or a chunk exceeds `u64::MAX`.
pub fn parse_version_parts(raw: &str) -> (r: Option<Vec<u64>>)
    ensures
        match spec_version_parts_of(raw@) {
            Some(vals) => r matches Some(parts) && parts@ == vals,
            None => r is None,
        },
{
    let t = trim_str(raw);
    let len = t.unicode_len();
    let mut d: usize = 0;
    while d < len && !is_digit_char(t.get_char(d))
        invariant
            len == t@.len(),
            0 <= d <= len,
            spec_first_digit_from(t@, 0) == spec_first_digit_from(t@, d as int),
        decreases len - d,
    {
        d += 1;
    }
    if d == len {
        return None;
    }
    let mut e: usize = d;
    while e < len && (is_digit_char(t.get_char(e)) || t.get_char(e) == '.')
        invariant
            len == t@.len(),
            d <= e <= len,
            spec_ver_end(t@, d as int) == spec_ver_end(t@, e as int),
        decreases len - e,
    {
        e += 1;
    }
    let ghost end = e as int;
    proof {
        assert(spec_ver_end(t@, e as int) == e as int);
        lemma_ver_region(t@, d as int);
    }
    let mut out: Vec<u64> = Vec::new();
    let mut i: usize = d;
    while i < e
        invariant
            len == t@.len(),
            t@ == spec_trim(raw@),
            d <= i <= e <= len,
            d < len,
            spec_first_digit_from(t@, 0) == d as int,
            end == e as int,
            spec_ver_end(t@, d as int) == e as int,
            forall|j: int| d <= j < e ==> spec_is_verchar(#[trigger] t@[j]),
            spec_parts_from(t@, d as int, end) == spec_glue(
                out@,
                spec_parts_from(t@, i as int, end),
            ),
        decreases e - i,
    {
        if t.get_char(i) == '.' {
            i += 1;
        } else {
            let mut run_end: usize = i;
            while run_end < e && is_digit_char(t.get_char(run_end))
                invariant
                    len == t@.len(),
                    i <= run_end <= e <= len,
                    forall|j: int| i <= j < run_end ==> spec_is_digit(#[trigger] t@[j]),
                    spec_run_end(t@, i as int, e as int) == spec_run_end(
                        t@,
                        run_end as int,
                        e as int,
                    ),
                decreases e - run_end,
            {
                run_end += 1;
            }
            proof {
                assert(spec_run_end(t@, run_end as int, e as int) == run_end as int);
                assert(spec_is_verchar(t@[i as int]));
                assert(spec_is_digit(t@[i as int]));
                lemma_run_end_bounds(t@, i + 1, e as int);
                assert(run_end > i);
            }
            let chunk = t.substring_char(i, run_end);
            match parse_u64(chunk) {
                Some(v) => {
                    let ghost prev = out@;
                    out.push(v);
                    proof {
                        let rest = spec_parts_from(t@, run_end as int, end);
                        assert(spec_parts_from(t@, i as int, end) == spec_glue(
                            seq![v],
                            rest,
                        ));
                        if rest is Some {
                            assert(prev + ((seq![v]) + rest->0) =~= (prev.push(v)) + rest->0);
                        }
                    }
                },
                None => {
                    proof {
                        assert(chunk@.len() > 0);
                        assert(spec_parts_from(t@, i as int, end) is None);
                    }
                    return None;
                },
            }
            i = run_end;
        }
    }
    proof {
        assert(spec_parts_from(t@, e as int, end) =~= Some(Seq::<u64>::empty()));
        assert(out@ + Seq::<u64>::empty() =~= out@);
    }
    Some(out)
}

/// Lexicographic comparison of version components, the shorter side padded
/// with zeros: true exactly when `latest` is strictly newer than `current`.
pub open spec fn spec_version_newer(current: Seq<u64>, latest: Seq<u64>) -> bool
    decreases current.len() + latest.len(),
{
    if current.len() == 0 && latest.len() == 0 {
        false
    } else {
        let c: u64 = if current.len() > 0 {
            current[0]
        } else {
            0
        };
        let l: u64 = if latest.len() > 0 {
            latest[0]
        } else {
            0
        };
        if l > c {
            true
        } else if l < c {
            false
        } else {
            spec_version_newer(
                if current.len() > 0 {
                    current.drop_first()
                } else {
                    current
                },
                if latest.len() > 0 {
                    latest.drop_first()
                } else {
                    latest
                },
            )
        }
    }
}

/// Whether `latest` denotes a strictly newer version than `current`:
/// component-wise, missing components read as zero. False whenever either
/// string has no parsable version.
pub fn is_newer_version(current: &str, latest: &str) -> (r: bool)
    ensures
        match (spec_version_parts_of(current@), spec_version_parts_of(latest@)) {
            (Some(c), Some(l)) => r == spec_version_newer(c, l),
            _ => r == false,
        },
{
    let current_parts = match parse_version_parts(current) {
        Some(p) => p,
        None => { return false },
    };
    let latest_parts = match parse_version_parts(latest) {
        Some(p) => p,
        None => { return false },
    };
    let c_len = current_parts.len();
    let l_len = latest_parts.len();
    let n = if c_len > l_len {
        c_len
    } else {
        l_len
    };
    proof {
        assert(current_parts@.skip(0) =~= current_parts@);
        assert(latest_parts@.skip(0) =~= latest_parts@);
    }
    let mut idx: usize = 0;
    while idx < n
        invariant
            c_len == current_parts@.len(),
            l_len == latest_parts@.len(),
            spec_version_parts_of(current@) == Some(current_parts@),
            spec_version_parts_of(latest@) == Some(latest_parts@),
            n == if c_len > l_len {
                c_len as int
            } else {
                l_len as int
            },
            0 <= idx <= n,
            spec_version_newer(current_parts@, latest_parts@) == spec_version_newer(
                current_parts@.skip(if idx < c_len {
                    idx as int
                } else {
                    c_len as int
                }),
                latest_parts@.skip(if idx < l_len {
                    idx as int
                } else {
                    l_len as int
                }),
            ),
        decreases n - idx,
    {
        let left: u64 = if idx < c_len {
            current_parts[idx]
        } else {
            0
        };
        let right: u64 = if idx < l_len {
            latest_parts[idx]
        } else {
            0
        };
        let ghost cs = current_parts@.skip(if idx < c_len { idx as int } else { c_len as int });
        let ghost ls = latest_parts@.skip(if idx < l_len { idx as int } else { l_len as int });
        proof {
            assert(cs.len() > 0 ==> cs[0] == current_parts@[idx as int]);
            assert(ls.len() > 0 ==> ls[0] == latest_parts@[idx as int]);
            if cs.len() > 0 {
                assert(cs.drop_first() =~= current_parts@.skip(idx + 1));
            }
            if ls.len() > 0 {
                assert(ls.drop_first() =~= latest_parts@.skip(idx + 1));
            }
            if idx + 1 >= c_len {
                assert(current_parts@.skip(c_len as int) =~= Seq::<u64>::empty());
                if cs.len() > 0 {
                    assert(current_parts@.skip(idx + 1) =~= Seq::<u64>::empty());
                }
            }
            if idx + 1 >= l_len {
                assert(latest_parts@.skip(l_len as int) =~= Seq::<u64>::empty());
                if ls.len() > 0 {
                    assert(latest_parts@.skip(idx + 1) =~= Seq::<u64>::empty());
                }
            }
        }
        if right > left {
            proof {
                assert(spec_version_newer(cs, ls));
            }
            return true;
        }
        if right < left {
            proof {
                assert(!spec_version_newer(cs, ls));
            }
            return false;
        }
        idx += 1;
    }
    proof {
        assert(current_parts@.skip(c_len as int) =~= Seq::<u64>::empty());
        assert(latest_parts@.skip(l_len as int) =~= Seq::<u64>::empty());
    }
    false
}

} // verus!

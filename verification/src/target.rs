//! Resolving a user-supplied URL into a structured repository-change
//! identifier: a GitHub pull request or a GitLab merge request.

use vstd::prelude::*;
use vstd::string::StrSliceExecFns;
use vstd::string::StringExecFns;
use crate::strutil::{all_digits, concat2, parse_u64, spec_digits_value, str_eq};

verus! {

/// Identifies one reviewable change, as parsed from user input. Immutable
/// once parsed.
#[derive(Debug, Clone)]
pub enum ReviewTarget {
    GitHub { host: String, owner: String, repo: String, number: u64, url: String },
    GitLab { host: String, project_path: String, iid: u64, url: String },
}

/// The host of an absolute URL, as the url crate reports it: `None` when the
/// input does not parse as an absolute URL or has no host.
pub uninterp spec fn url_host_of(input: Seq<char>) -> Option<Seq<char>>;

/// The raw path segments of an absolute URL, as the url crate reports them,
/// empty segments included; empty when the URL cannot be a base.
pub uninterp spec fn url_segments_of(input: Seq<char>) -> Seq<Seq<char>>;

/// The character sequences of a list of strings, in order.
pub open spec fn seq_views(v: Seq<String>) -> Seq<Seq<char>> {
    Seq::new(v.len(), |i: int| v[i]@)
}

/// Relies on url::Url::parse, url::Url::host_str and url::Url::path_segments:
/// each depends on the input string alone. `None` exactly when the input is
/// not an absolute URL or has no host; otherwise the host and the raw path
/// segments, empty segments included.
#[verifier::external_body]
fn url_parts(input: &str) -> (r: Option<(String, Vec<String>)>)
    ensures
        r is Some <==> url_host_of(input@) is Some,
        (r matches Some((host, segments)) ==> host@ == url_host_of(input@)->0 && seq_views(
            segments@,
        ) == url_segments_of(input@)),
{
    let parsed = match url::Url::parse(input) {
        Ok(u) => u,
        Err(_) => return None,
    };
    let host = match parsed.host_str() {
        Some(h) => h.to_string(),
        None => return None,
    };
    let segments: Vec<String> = match parsed.path_segments() {
        Some(parts) => parts.map(|p| p.to_string()).collect(),
        None => Vec::new(),
    };
    Some((host, segments))
}

/// The segments that remain once empty ones are dropped, order kept.
pub open spec fn spec_nonempty_segments(segs: Seq<Seq<char>>) -> Seq<Seq<char>>
    decreases segs.len(),
{
    if segs.len() == 0 {
        Seq::empty()
    } else {
        spec_nonempty_segments(segs.drop_last()) + (if segs.last().len() == 0 {
            Seq::empty()
        } else {
            seq![segs.last()]
        })
    }
}

/// Drops the empty path segments a URL with doubled or trailing slashes
/// produces.
fn nonempty_segments(segments: Vec<String>) -> (r: Vec<String>)
    ensures
        seq_views(r@) == spec_nonempty_segments(seq_views(segments@)),
{
    let mut out: Vec<String> = Vec::new();
    let n = segments.len();
    let mut i: usize = 0;
    while i < n
        invariant
            n == segments@.len(),
            0 <= i <= n,
            seq_views(out@) == spec_nonempty_segments(seq_views(segments@).take(i as int)),
        decreases n - i,
    {
        let ghost prev = seq_views(out@);
        if segments[i].as_str().unicode_len() > 0 {
            out.push(segments[i].clone());
        }
        proof {
            let views = seq_views(segments@);
            assert(views.take(i + 1).drop_last() =~= views.take(i as int));
            assert(views.take(i + 1).last() == views[i as int]);
            if segments@[i as int]@.len() == 0 {
                assert(seq_views(out@) =~= prev + Seq::<Seq<char>>::empty());
            } else {
                assert(seq_views(out@) =~= prev + seq![views[i as int]]);
            }
        }
        i += 1;
    }
    proof {
        assert(seq_views(segments@).take(n as int) =~= seq_views(segments@));
    }
    out
}

/// A path segment that denotes a change number: all decimal digits, nonempty
/// and within range.
pub open spec fn spec_seg_u64(s: Seq<char>) -> bool {
    s.len() > 0 && all_digits(s) && spec_digits_value(s) <= u64::MAX
}

/// A GitHub change URL path: `/owner/repo/pull/<number>`.
pub open spec fn spec_github_shape(segs: Seq<Seq<char>>) -> bool {
    segs.len() >= 4 && segs[2] == "pull"@ && spec_seg_u64(segs[3])
}

/// Reads `/owner/repo/pull/<number>` out of the nonempty path segments.
pub fn parse_github(host: &str, segments: &Vec<String>, input: &str) -> (r: Option<ReviewTarget>)
    ensures
        match r {
            Some(t) => spec_github_shape(seq_views(segments@)) && (t
                matches ReviewTarget::GitHub { host: h, owner, repo, number, url } && h@ == host@
                && owner@ == seq_views(segments@)[0] && repo@ == seq_views(segments@)[1]
                && number == spec_digits_value(seq_views(segments@)[3]) && url@ == input@),
            None => !spec_github_shape(seq_views(segments@)),
        },
{
    if segments.len() < 4 {
        return None;
    }
    if !str_eq(segments[2].as_str(), "pull") {
        return None;
    }
    let number = match parse_u64(segments[3].as_str()) {
        Some(v) => v,
        None => return None,
    };
    Some(
        ReviewTarget::GitHub {
            host: String::from_str(host),
            owner: segments[0].clone(),
            repo: segments[1].clone(),
            number,
            url: String::from_str(input),
        },
    )
}

/// The position of the first `-` separator segment.
pub open spec fn spec_dash_index(segs: Seq<Seq<char>>) -> Option<int>
    decreases segs.len(),
{
    if segs.len() == 0 {
        None
    } else if segs[0] == "-"@ {
        Some(0int)
    } else {
        match spec_dash_index(segs.drop_first()) {
            Some(i) => Some(i + 1),
            None => None,
        }
    }
}

proof fn lemma_dash_scan(segs: Seq<Seq<char>>, i: int)
    requires
        0 <= i <= segs.len(),
        forall|j: int| 0 <= j < i ==> #[trigger] segs[j] != "-"@,
    ensures
        i < segs.len() && segs[i] == "-"@ ==> spec_dash_index(segs) == Some(i),
        i == segs.len() ==> spec_dash_index(segs) is None,
    decreases i,
{
    if i > 0 {
        assert(segs[0] != "-"@);
        lemma_dash_scan(segs.drop_first(), i - 1);
        assert forall|j: int| 1 <= j < segs.len() implies segs.drop_first()[j - 1] == segs[j] by {}
    }
}

/// The segments joined by `/`.
pub open spec fn spec_join_slash(segs: Seq<Seq<char>>) -> Seq<char>
    decreases segs.len(),
{
    if segs.len() == 0 {
        Seq::empty()
    } else if segs.len() == 1 {
        segs[0]
    } else {
        spec_join_slash(segs.drop_last()) + "/"@ + segs.last()
    }
}

/// A GitLab change URL path: `/group/.../project/-/merge_requests/<iid>`,
/// with at least one segment before the `-` separator.
pub open spec fn spec_gitlab_shape(segs: Seq<Seq<char>>) -> bool {
    match spec_dash_index(segs) {
        Some(sep) => sep > 0 && sep + 2 < segs.len() && segs[sep + 1] == "merge_requests"@
            && spec_seg_u64(segs[sep + 2]),
        None => false,
    }
}

/// Reads `/group/.../project/-/merge_requests/<iid>` out of the nonempty
/// path segments; the project path is everything before the `-` separator,
/// joined by `/`.
pub fn parse_gitlab(host: &str, segments: &Vec<String>, input: &str) -> (r: Option<ReviewTarget>)
    ensures
        match r {
            Some(t) => spec_gitlab_shape(seq_views(segments@)) && (t
                matches ReviewTarget::GitLab { host: h, project_path, iid, url } && h@ == host@
                && project_path@ == spec_join_slash(
                seq_views(segments@).take(spec_dash_index(seq_views(segments@))->0),
            ) && iid == spec_digits_value(
                seq_views(segments@)[spec_dash_index(seq_views(segments@))->0 + 2],
            ) && url@ == input@),
            None => !spec_gitlab_shape(seq_views(segments@)),
        },
{
    let n = segments.len();
    let mut sep: usize = 0;
    while sep < n && !str_eq(segments[sep].as_str(), "-")
        invariant
            n == segments@.len(),
            0 <= sep <= n,
            forall|j: int| 0 <= j < sep ==> #[trigger] seq_views(segments@)[j] != "-"@,
        decreases n - sep,
    {
        sep += 1;
    }
    proof {
        lemma_dash_scan(seq_views(segments@), sep as int);
    }
    if sep == n {
        return None;
    }
    if n - sep <= 2 {
        return None;
    }
    if !str_eq(segments[sep + 1].as_str(), "merge_requests") {
        return None;
    }
    let iid = match parse_u64(segments[sep + 2].as_str()) {
        Some(v) => v,
        None => return None,
    };
    if sep == 0 {
        return None;
    }
    let mut project_path = String::new();
    let mut k: usize = 0;
    while k < sep
        invariant
            n == segments@.len(),
            0 < sep <= n,
            0 <= k <= sep,
            project_path@ == spec_join_slash(seq_views(segments@).take(k as int)),
        decreases sep - k,
    {
        let ghost views = seq_views(segments@);
        let ghost prev = project_path@;
        if k > 0 {
            project_path.append("/");
        }
        project_path.append(segments[k].as_str());
        proof {
            assert(views.take(k + 1).drop_last() =~= views.take(k as int));
            assert(views.take(k + 1).last() == views[k as int]);
            if k == 0 {
                assert(views.take(1).len() == 1);
                assert(project_path@ =~= views[0]);
            } else {
                assert(project_path@ =~= spec_join_slash(views.take(k as int)) + "/"@
                    + views[k as int]);
            }
        }
        k += 1;
    }
    Some(
        ReviewTarget::GitLab {
            host: String::from_str(host),
            project_path,
            iid,
            url: String::from_str(input),
        },
    )
}

impl ReviewTarget {
    /// Detects the target kind from the URL shape: GitHub `/pull/<n>` first,
    /// then GitLab `/-/merge_requests/<iid>`. `Err` exactly when the input
    /// is no absolute URL with a host, or neither shape matches.
    pub fn parse(input: &str) -> (r: Result<ReviewTarget, String>)
        ensures
            ({
                let host_opt = url_host_of(input@);
                let segs = spec_nonempty_segments(url_segments_of(input@));
                match r {
                    Ok(t) => {
                        &&& host_opt is Some
                        &&& if spec_github_shape(segs) {
                            t matches ReviewTarget::GitHub { host, owner, repo, number, url }
                                && host@ == host_opt->0 && owner@ == segs[0] && repo@ == segs[1]
                                && number == spec_digits_value(segs[3]) && url@ == input@
                        } else {
                            spec_gitlab_shape(segs) && (t matches ReviewTarget::GitLab {
                                host,
                                project_path,
                                iid,
                                url,
                            } && host@ == host_opt->0 && project_path@ == spec_join_slash(
                                segs.take(spec_dash_index(segs)->0),
                            ) && iid == spec_digits_value(segs[spec_dash_index(segs)->0 + 2])
                                && url@ == input@)
                        }
                    },
                    Err(e) => {
                        &&& (host_opt is None || (!spec_github_shape(segs) && !spec_gitlab_shape(
                            segs,
                        )))
                        &&& (host_opt is None ==> e@ == "invalid target URL: "@ + input@)
                        &&& (host_opt is Some ==> e@ == "unsupported URL format: "@ + input@)
                    },
                }
            }),
    {
        let parts = url_parts(input);
        let (host, raw_segments) = match parts {
            Some(p) => p,
            None => { return Err(concat2("invalid target URL: ", input)) },
        };
        let segments = nonempty_segments(raw_segments);
        match parse_github(host.as_str(), &segments, input) {
            Some(t) => { return Ok(t) },
            None => {},
        }
        match parse_gitlab(host.as_str(), &segments, input) {
            Some(t) => { return Ok(t) },
            None => {},
        }
        Err(concat2("unsupported URL format: ", input))
    }

    /// The target's host.
    pub fn host(&self) -> (r: &str)
        ensures
            match self {
                ReviewTarget::GitHub { host, .. } => r@ == host@,
                ReviewTarget::GitLab { host, .. } => r@ == host@,
            },
    {
        match self {
            ReviewTarget::GitHub { host, .. } => host.as_str(),
            ReviewTarget::GitLab { host, .. } => host.as_str(),
        }
    }

    /// The original URL the target was parsed from.
    pub fn url(&self) -> (r: &str)
        ensures
            match self {
                ReviewTarget::GitHub { url, .. } => r@ == url@,
                ReviewTarget::GitLab { url, .. } => r@ == url@,
            },
    {
        match self {
            ReviewTarget::GitHub { url, .. } => url.as_str(),
            ReviewTarget::GitLab { url, .. } => url.as_str(),
        }
    }
}

} // verus!

//! Byte-budget truncation of fetched diffs, preserving UTF-8 boundaries.

use vstd::prelude::*;
use vstd::string::{StrSliceExecFns, StringExecFns, StringSliceAdditionalSpecFns};
use vstd::utf8::{encode_utf8, decode_utf8, is_char_boundary};

verus! {

/// The largest byte index at or below `max` that falls on a character
/// boundary of `bytes`.
pub open spec fn spec_boundary_at_or_below(bytes: Seq<u8>, max: int) -> int
    decreases max,
{
    if max <= 0 {
        0
    } else if is_char_boundary(bytes, max) {
        max
    } else {
        spec_boundary_at_or_below(bytes, max - 1)
    }
}

/// A diff truncated to at most `max` encoded bytes: unchanged when it fits;
/// otherwise cut at the last character boundary within the budget, with a
/// truncation notice appended.
pub open spec fn spec_truncate_diff(diff: Seq<char>, max: int) -> Seq<char> {
    let bytes = encode_utf8(diff);
    if bytes.len() <= max {
        diff
    } else {
        decode_utf8(bytes.subrange(0, spec_boundary_at_or_below(bytes, max)))
            + "\n... (diff truncated)\n"@
    }
}

/// Truncates a diff to the configured byte budget without splitting a UTF-8
/// character, appending a truncation notice when anything was cut.
pub fn truncate_diff(diff: String, max_bytes: usize) -> (r: String)
    ensures
        r@ == spec_truncate_diff(diff@, max_bytes as int),
{
    proof {
        vstd::utf8::encode_utf8_valid_utf8(diff@);
    }
    let byte_len = diff.as_str().as_bytes_vec().len();
    if byte_len <= max_bytes {
        return diff;
    }
    let s = diff.as_str();
    let ghost bytes = s.spec_bytes();
    let mut cutoff: usize = max_bytes;
    while cutoff > 0 && !s.is_char_boundary(cutoff)
        invariant
            s@ == diff@,
            bytes == encode_utf8(diff@),
            vstd::utf8::valid_utf8(bytes),
            0 <= cutoff <= max_bytes,
            spec_boundary_at_or_below(bytes, max_bytes as int) == spec_boundary_at_or_below(
                bytes,
                cutoff as int,
            ),
        decreases cutoff,
    {
        cutoff -= 1;
    }
    proof {
        assert(spec_boundary_at_or_below(bytes, cutoff as int) == cutoff as int);
        assert(is_char_boundary(bytes, cutoff as int));
    }
    let (head, _) = s.split_at(cutoff);
    let mut out = head.to_owned();
    out.append("\n... (diff truncated)\n");
    proof {
        vstd::utf8::encode_utf8_decode_utf8(head@);
        assert(encode_utf8(head@) == bytes.subrange(0, cutoff as int));
        assert(head@ == decode_utf8(bytes.subrange(0, cutoff as int)));
    }
    out
}

} // verus!

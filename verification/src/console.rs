//! Plain-text formatting helpers for console reporting: padding, joining,
//! width-aware clipping and ANSI colouring. Printing happens outside.

use vstd::prelude::*;
use vstd::string::{StrSliceExecFns, StringExecFns};
use crate::strutil::{push_char, str_eq};
use crate::target::seq_views;

verus! {

/// `n` spaces.
pub open spec fn spec_spaces(n: int) -> Seq<char> {
    Seq::new(n as nat, |i: int| ' ')
}

/// `s` padded with spaces on the right to at least `width` characters.
pub open spec fn spec_pad_right(s: Seq<char>, width: int) -> Seq<char> {
    if s.len() >= width {
        s
    } else {
        s + spec_spaces(width - s.len())
    }
}

/// Pads a string with trailing spaces to at least `width` characters.
pub fn pad_right(s: &str, width: usize) -> (r: String)
    ensures
        r@ == spec_pad_right(s@, width as int),
{
    let mut out = String::from_str(s);
    let len = s.unicode_len();
    if len >= width {
        proof {
            assert(out@ =~= spec_pad_right(s@, width as int));
        }
        return out;
    }
    let mut k: usize = 0;
    while k < width - len
        invariant
            len == s@.len(),
            len < width,
            0 <= k <= width - len,
            out@ == s@ + spec_spaces(k as int),
        decreases width - len - k,
    {
        push_char(&mut out, ' ');
        proof {
            assert(s@ + spec_spaces(k + 1) =~= (s@ + spec_spaces(k as int)).push(' '));
        }
        k += 1;
    }
    out
}

/// The parts joined by the separator, in order.
pub open spec fn spec_join(parts: Seq<Seq<char>>, sep: Seq<char>) -> Seq<char>
    decreases parts.len(),
{
    if parts.len() == 0 {
        Seq::empty()
    } else if parts.len() == 1 {
        parts[0]
    } else {
        spec_join(parts.drop_last(), sep) + sep + parts.last()
    }
}

/// Joins strings with a separator.
pub fn join_with(parts: &Vec<String>, sep: &str) -> (r: String)
    ensures
        r@ == spec_join(seq_views(parts@), sep@),
{
    let mut out = String::new();
    let n = parts.len();
    let mut i: usize = 0;
    while i < n
        invariant
            n == parts@.len(),
            0 <= i <= n,
            out@ == spec_join(seq_views(parts@).take(i as int), sep@),
        decreases n - i,
    {
        let ghost views = seq_views(parts@);
        if i > 0 {
            out.append(sep);
        }
        out.append(parts[i].as_str());
        proof {
            assert(views.take(i + 1).drop_last() =~= views.take(i as int));
            assert(views.take(i + 1).last() == views[i as int]);
            if i == 0 {
                assert(views.take(1).len() == 1);
                assert(out@ =~= views[0]);
            } else {
                assert(out@ =~= spec_join(views.take(i as int), sep@) + sep@ + views[i as int]);
            }
        }
        i += 1;
    }
    proof {
        assert(seq_views(parts@).take(n as int) =~= seq_views(parts@));
    }
    out
}

/// A status word wrapped in its console colour: yellow while running, green
/// when done, red on error, and unchanged otherwise.
pub open spec fn spec_colorize_status(status: Seq<char>) -> Seq<char> {
    if status == "running"@ {
        "\u{1b}[33m"@ + status + "\u{1b}[0m"@
    } else if status == "done"@ {
        "\u{1b}[32m"@ + status + "\u{1b}[0m"@
    } else if status == "error"@ {
        "\u{1b}[31m"@ + status + "\u{1b}[0m"@
    } else {
        status
    }
}

/// Colours a provider status word for console output.
pub fn colorize_status(status: &str) -> (r: String)
    ensures
        r@ == spec_colorize_status(status@),
{
    if str_eq(status, "running") {
        let mut out = String::from_str("\u{1b}[33m");
        out.append(status);
        out.append("\u{1b}[0m");
        out
    } else if str_eq(status, "done") {
        let mut out = String::from_str("\u{1b}[32m");
        out.append(status);
        out.append("\u{1b}[0m");
        out
    } else if str_eq(status, "error") {
        let mut out = String::from_str("\u{1b}[31m");
        out.append(status);
        out.append("\u{1b}[0m");
        out
    } else {
        String::from_str(status)
    }
}

/// Text wrapped in an ANSI style when the console is interactive, and left
/// bare otherwise.
pub open spec fn spec_paint(text: Seq<char>, ansi: Seq<char>, interactive: bool) -> Seq<char> {
    if interactive {
        "\u{1b}["@ + ansi + "m"@ + text + "\u{1b}[0m"@
    } else {
        text
    }
}

/// Applies an ANSI style to a piece of text for interactive consoles.
pub fn paint(text: &str, ansi: &str, interactive: bool) -> (r: String)
    ensures
        r@ == spec_paint(text@, ansi@, interactive),
{
    if interactive {
        let mut out = String::from_str("\u{1b}[");
        out.append(ansi);
        out.append("m");
        out.append(text);
        out.append("\u{1b}[0m");
        out
    } else {
        String::from_str(text)
    }
}

/// `n` dots.
pub open spec fn spec_dots(n: int) -> Seq<char> {
    Seq::new(n as nat, |i: int| '.')
}

/// A line cut to fit a box of `width` characters: unchanged when it fits,
/// all dots for tiny widths, else a prefix with a three-dot ellipsis.
pub open spec fn spec_fit_box_line(text: Seq<char>, width: int) -> Seq<char> {
    if text.len() <= width {
        text
    } else if width <= 3 {
        spec_dots(width)
    } else {
        text.take(width - 3) + "..."@
    }
}

/// Fits one dashboard line into a fixed-width box.
pub fn fit_box_line(text: &str, width: usize) -> (r: String)
    ensures
        r@ == spec_fit_box_line(text@, width as int),
{
    let len = text.unicode_len();
    if len <= width {
        return String::from_str(text);
    }
    if width <= 3 {
        let mut out = String::new();
        let mut k: usize = 0;
        while k < width
            invariant
                0 <= k <= width,
                out@ == spec_dots(k as int),
            decreases width - k,
        {
            push_char(&mut out, '.');
            proof {
                assert(spec_dots(k + 1) =~= spec_dots(k as int).push('.'));
            }
            k += 1;
        }
        return out;
    }
    let head = text.substring_char(0, width - 3);
    let mut out = String::from_str(head);
    out.append("...");
    proof {
        assert(text@.subrange(0, width - 3) =~= text@.take(width - 3));
    }
    out
}

} // verus!

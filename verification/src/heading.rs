//! Recognition of a structural heading in one line of text.

use crate::lines::Span;
use crate::text::{
    chars_of, leading_end, leading_run, lemma_leading_run_bounds, lemma_leading_run_is, string_of,
    trailing_run, trailing_start, trim, trim_bounds, CharClass,
};
use vstd::prelude::*;

verus! {

/// The deepest heading level: a heading has at most this many markers.
pub const MAX_HEADING_LEVEL: usize = 6;

/// `s` without the heading markers at its end.
pub open spec fn without_trailing_markers(s: Seq<char>) -> Seq<char> {
    s.take(s.len() - trailing_run(s, CharClass::Marker))
}

/// The title that is left of `rest`, the part of a heading line that follows
/// its leading markers: the surrounding white space goes, then the markers at
/// the end, then the white space that stood before them.
pub open spec fn heading_title(rest: Seq<char>) -> Seq<char> {
    trim(without_trailing_markers(trim(rest)))
}

/// The heading that `line` is, if it is one: its level and its title.
///
/// A line is a heading when, with the white space at either end gone, it
/// begins with one to six markers and these are followed by a space or by
/// nothing at all. The level is the number of markers.
pub open spec fn heading_of(line: Seq<char>) -> Option<(u8, Seq<char>)> {
    let trimmed = trim(line);
    let count = leading_run(trimmed, CharClass::Marker);
    let rest = trimmed.skip(count as int);
    if 1 <= count <= MAX_HEADING_LEVEL && (rest.len() == 0 || rest[0] == ' ') {
        Some((count as u8, heading_title(rest)))
    } else {
        None
    }
}

/// Looks for a heading in the line `cs[lo..hi]`. The title comes back as the
/// span of `cs` that holds it.
pub fn heading_in(cs: &Vec<char>, lo: usize, hi: usize) -> (r: Option<(u8, Span)>)
    requires
        lo <= hi <= cs.len(),
    ensures
        match r {
            Some((level, title)) => {
                &&& title.fits(cs@.len())
                &&& heading_of(cs@.subrange(lo as int, hi as int)) == Some(
                    (level, title.of(cs@)),
                )
            },
            None => heading_of(cs@.subrange(lo as int, hi as int)) is None,
        },
{
    let (a, b) = trim_bounds(cs, lo, hi);
    let m = leading_end(cs, a, b, CharClass::Marker);
    let count = m - a;
    proof {
        let trimmed = trim(cs@.subrange(lo as int, hi as int));
        assert(trimmed.skip(count as int) =~= cs@.subrange(m as int, b as int));
    }
    if count < 1 || count > MAX_HEADING_LEVEL {
        return None;
    }
    if m < b && cs[m] != ' ' {
        return None;
    }
    let (c, d) = trim_bounds(cs, m, b);
    let e = trailing_start(cs, c, d, CharClass::Marker);
    proof {
        assert(without_trailing_markers(cs@.subrange(c as int, d as int)) =~= cs@.subrange(
            c as int,
            e as int,
        ));
    }
    let (f, g) = trim_bounds(cs, c, e);
    Some((count as u8, Span { start: f, end: g }))
}

/// Decides whether `line` is a heading and, if it is, gives its level and
/// its title.
pub fn parse_heading(line: &str) -> (r: Option<(u8, String)>)
    ensures
        match r {
            Some((level, title)) => heading_of(line@) == Some((level, title@)),
            None => heading_of(line@) is None,
        },
{
    let cs = chars_of(line);
    proof {
        assert(cs@.subrange(0, cs@.len() as int) =~= cs@);
    }
    match heading_in(&cs, 0, cs.len()) {
        Some((level, title)) => Some((level, string_of(&cs, title.start, title.end))),
        None => None,
    }
}

/// Whether `s` begins with exactly `n` markers where a heading needs them:
/// the first `n` characters are markers, and what follows is a space or the
/// end of `s`.
pub open spec fn begins_with_markers(s: Seq<char>, n: int) -> bool {
    &&& 0 <= n <= s.len()
    &&& forall|i: int| 0 <= i < n ==> s[i] == '#'
    &&& (s.len() == n || s[n] == ' ')
}

/// A line is a heading exactly when, with the white space at either end
/// gone, it is one to six markers followed by a space or by nothing. Its
/// level is then that number of markers, and its title is what follows them,
/// trimmed and without the markers at its end.
pub proof fn lemma_heading_pattern(line: Seq<char>)
    ensures
        heading_of(line) is Some <==> exists|n: int|
            1 <= n <= 6 && #[trigger] begins_with_markers(trim(line), n),
        forall|n: int|
            1 <= n <= 6 && #[trigger] begins_with_markers(trim(line), n) ==> heading_of(line)
                == Some((n as u8, heading_title(trim(line).skip(n)))),
{
    let trimmed = trim(line);
    let count = leading_run(trimmed, CharClass::Marker) as int;
    lemma_leading_run_bounds(trimmed, CharClass::Marker);
    assert forall|n: int| 1 <= n <= 6 && #[trigger] begins_with_markers(trimmed, n) implies count
        == n by {
        lemma_leading_run_is(trimmed, CharClass::Marker, n);
    }
    if heading_of(line) is Some {
        assert(begins_with_markers(trimmed, count)) by {
            if count < trimmed.len() {
                assert(trimmed.skip(count)[0] == trimmed[count]);
            }
        }
    }
}

} // verus!

//! Lines of a text: where they start and end, how a text splits into them
//! and how they join back.

use crate::text::{
    append_chars, leading_end, leading_run, lemma_leading_run_bounds, lemma_leading_run_is,
    CharClass,
};
use vstd::prelude::*;

verus! {

/// A stretch of a character vector: from `start` up to, not including, `end`.
#[derive(Clone, Copy, Debug)]
pub struct Span {
    pub start: usize,
    pub end: usize,
}

impl Span {
    /// Whether the span lies within a text of `len` characters.
    pub open spec fn fits(self, len: nat) -> bool {
        self.start <= self.end <= len
    }

    /// The characters of `text` that the span covers.
    pub open spec fn of(self, text: Seq<char>) -> Seq<char> {
        text.subrange(self.start as int, self.end as int)
    }
}

/// Whether every span lies within a text of `len` characters.
pub open spec fn spans_fit(spans: Seq<Span>, len: nat) -> bool {
    forall|i: int| 0 <= i < spans.len() ==> (#[trigger] spans[i]).fits(len)
}

/// The pieces of `text` that the spans cover, in order.
pub open spec fn span_texts(text: Seq<char>, spans: Seq<Span>) -> Seq<Seq<char>> {
    Seq::new(spans.len(), |i: int| spans[i].of(text))
}

/// `line` without the carriage return at its end, if it has one.
pub open spec fn without_carriage_return(line: Seq<char>) -> Seq<char> {
    if line.len() > 0 && line.last() == '\r' {
        line.drop_last()
    } else {
        line
    }
}

/// The lines of `s`. A line ends at a line feed, or at a carriage return
/// followed by a line feed; neither belongs to the line. What follows the
/// last line feed is a line only if it is not empty, and is kept as it is.
pub open spec fn lines_of(s: Seq<char>) -> Seq<Seq<char>>
    decreases s.len(),
{
    if s.len() == 0 {
        Seq::empty()
    } else {
        let k = leading_run(s, CharClass::LineBody) as int;
        if k >= s.len() {
            seq![s]
        } else {
            seq![without_carriage_return(s.take(k))] + lines_of(s.skip(k + 1))
        }
    }
}

/// The lines joined into one text, with a line feed between neighbours.
pub open spec fn join_lines(lines: Seq<Seq<char>>) -> Seq<char>
    decreases lines.len(),
{
    if lines.len() == 0 {
        Seq::empty()
    } else if lines.len() == 1 {
        lines[0]
    } else {
        join_lines(lines.drop_last()) + seq!['\n'] + lines.last()
    }
}

/// Finds the lines of `cs`.
pub fn split_lines(cs: &Vec<char>) -> (spans: Vec<Span>)
    ensures
        spans_fit(spans@, cs@.len()),
        span_texts(cs@, spans@) == lines_of(cs@),
{
    let n = cs.len();
    let mut spans: Vec<Span> = Vec::new();
    let mut pos: usize = 0;
    proof {
        assert(cs@.skip(0) =~= cs@);
        assert(span_texts(cs@, spans@) + lines_of(cs@) =~= lines_of(cs@));
    }
    while pos < n
        invariant
            pos <= n == cs.len(),
            spans_fit(spans@, cs@.len()),
            lines_of(cs@) == span_texts(cs@, spans@) + lines_of(cs@.skip(pos as int)),
        decreases n - pos,
    {
        let ghost rest = cs@.skip(pos as int);
        let ghost before = span_texts(cs@, spans@);
        let k = leading_end(cs, pos, n, CharClass::LineBody);
        proof {
            assert(cs@.subrange(pos as int, n as int) =~= rest);
        }
        if k == n {
            let span = Span { start: pos, end: n };
            spans.push(span);
            proof {
                assert(span.of(cs@) =~= rest);
                assert(lines_of(rest) == seq![rest]);
                assert(span_texts(cs@, spans@) =~= before.push(rest));
                assert(lines_of(cs@.skip(n as int)) =~= Seq::<Seq<char>>::empty());
                assert(before + seq![rest] =~= before.push(rest) + Seq::<Seq<char>>::empty());
            }
            pos = n;
        } else {
            let end = if k > pos && cs[k - 1] == '\r' {
                k - 1
            } else {
                k
            };
            let span = Span { start: pos, end };
            spans.push(span);
            proof {
                let raw = rest.take(k - pos);
                assert(raw =~= cs@.subrange(pos as int, k as int));
                assert(span.of(cs@) =~= without_carriage_return(raw));
                assert(rest.skip(k - pos + 1) =~= cs@.skip(k + 1));
                assert(lines_of(rest) == seq![without_carriage_return(raw)] + lines_of(
                    cs@.skip(k + 1),
                ));
                assert(span_texts(cs@, spans@) =~= before.push(span.of(cs@)));
                assert(before + (seq![span.of(cs@)] + lines_of(cs@.skip(k + 1))) =~= before.push(
                    span.of(cs@),
                ) + lines_of(cs@.skip(k + 1)));
            }
            pos = k + 1;
        }
    }
    proof {
        assert(lines_of(cs@.skip(pos as int)) =~= Seq::<Seq<char>>::empty());
        assert(span_texts(cs@, spans@) + Seq::<Seq<char>>::empty() =~= span_texts(cs@, spans@));
    }
    spans
}

/// Joins the lines `spans[from..to]` of `cs` into one string, with a line
/// feed between neighbours.
pub fn join_spans(cs: &Vec<char>, spans: &Vec<Span>, from: usize, to: usize) -> (r: String)
    requires
        from <= to <= spans.len(),
        spans_fit(spans@, cs@.len()),
    ensures
        r@ == join_lines(span_texts(cs@, spans@).subrange(from as int, to as int)),
{
    let ghost lines = span_texts(cs@, spans@);
    let mut out = String::new();
    let mut i = from;
    proof {
        assert(lines.subrange(from as int, from as int) =~= Seq::<Seq<char>>::empty());
    }
    while i < to
        invariant
            from <= i <= to <= spans.len(),
            spans_fit(spans@, cs@.len()),
            lines == span_texts(cs@, spans@),
            out@ == join_lines(lines.subrange(from as int, i as int)),
        decreases to - i,
    {
        let ghost so_far = lines.subrange(from as int, i as int);
        let ghost next = lines.subrange(from as int, i + 1);
        proof {
            assert(next.drop_last() =~= so_far);
            assert(next.last() == spans@[i as int].of(cs@));
        }
        if i > from {
            let feed = vec!['\n'];
            append_chars(&mut out, &feed, 0, 1);
            proof {
                assert(feed@.subrange(0, 1) =~= seq!['\n']);
            }
        }
        let span = spans[i];
        append_chars(&mut out, cs, span.start, span.end);
        i += 1;
    }
    out
}

/// The pieces of `text` between its line feeds, in order: the lines of a
/// text whose lines are joined by line feeds. There is always at least one.
pub open spec fn pieces_of(text: Seq<char>) -> Seq<Seq<char>>
    decreases text.len(),
{
    let k = leading_run(text, CharClass::LineBody) as int;
    if k >= text.len() {
        seq![text]
    } else {
        seq![text.take(k)] + pieces_of(text.skip(k + 1))
    }
}

/// Whether no line holds a line feed.
pub open spec fn feed_free(lines: Seq<Seq<char>>) -> bool {
    forall|i: int, j: int|
        0 <= i < lines.len() && 0 <= j < lines[i].len() ==> (#[trigger] lines[i][j]) != '\n'
}

/// No line of a text holds a line feed.
pub proof fn lemma_lines_are_feed_free(s: Seq<char>)
    ensures
        feed_free(lines_of(s)),
    decreases s.len(),
{
    if s.len() > 0 {
        lemma_leading_run_bounds(s, CharClass::LineBody);
        let k = leading_run(s, CharClass::LineBody) as int;
        if k < s.len() {
            let rest = s.skip(k + 1);
            lemma_lines_are_feed_free(rest);
            let head = without_carriage_return(s.take(k));
            let all = lines_of(s);
            assert forall|i: int, j: int|
                0 <= i < all.len() && 0 <= j < all[i].len() implies (#[trigger] all[i][j])
                != '\n' by {
                if i == 0 {
                    assert(all[0] == head);
                    assert(head[j] == s[j]);
                } else {
                    assert(all[i] == lines_of(rest)[i - 1]);
                }
            }
        }
    }
}

/// Joining can start at the front as well: the first line, a line feed, and
/// the other lines joined.
pub proof fn lemma_join_from_front(lines: Seq<Seq<char>>)
    requires
        lines.len() >= 2,
    ensures
        join_lines(lines) == lines[0] + seq!['\n'] + join_lines(lines.skip(1)),
    decreases lines.len(),
{
    let front = lines.drop_last();
    if lines.len() == 2 {
        assert(front.len() == 1);
        assert(lines.skip(1).len() == 1);
        assert(join_lines(front) == lines[0]);
        assert(join_lines(lines.skip(1)) == lines[1]);
    } else {
        lemma_join_from_front(front);
        assert(front.skip(1) =~= lines.skip(1).drop_last());
        assert(lines.skip(1).last() == lines.last());
        assert(join_lines(lines.skip(1)) == join_lines(front.skip(1)) + seq!['\n'] + lines.last());
        assert(join_lines(lines) =~= lines[0] + seq!['\n'] + join_lines(lines.skip(1)));
    }
}

/// Splitting at the line feeds undoes joining, where there is at least one
/// line and no line holds a line feed.
pub proof fn lemma_pieces_of_join(lines: Seq<Seq<char>>)
    requires
        lines.len() >= 1,
        feed_free(lines),
    ensures
        pieces_of(join_lines(lines)) == lines,
    decreases lines.len(),
{
    let first = lines[0];
    if lines.len() == 1 {
        assert forall|j: int| 0 <= j < first.len() implies CharClass::LineBody.has(
            #[trigger] first[j],
        ) by {
            assert(lines[0][j] != '\n');
        }
        lemma_leading_run_is(first, CharClass::LineBody, first.len() as int);
        assert(pieces_of(first) =~= lines);
    } else {
        let rest = lines.skip(1);
        let text = join_lines(lines);
        lemma_join_from_front(lines);
        assert forall|j: int| 0 <= j < first.len() implies CharClass::LineBody.has(
            #[trigger] text[j],
        ) by {
            assert(text[j] == lines[0][j]);
        }
        assert(text[first.len() as int] == '\n');
        lemma_leading_run_is(text, CharClass::LineBody, first.len() as int);
        assert(text.take(first.len() as int) =~= first);
        assert(text.skip(first.len() as int + 1) =~= join_lines(rest));
        assert forall|i: int, j: int|
            0 <= i < rest.len() && 0 <= j < rest[i].len() implies (#[trigger] rest[i][j])
            != '\n' by {
            assert(rest[i][j] == lines[i + 1][j]);
        }
        lemma_pieces_of_join(rest);
        assert(seq![first] + rest =~= lines);
    }
}

} // verus!

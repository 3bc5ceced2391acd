//! Splitting a document into sections, one for each heading that stands
//! outside a fenced code block.

use crate::heading::{heading_in, heading_of};
use crate::lines::{
    feed_free, join_lines, join_spans, lemma_lines_are_feed_free, lemma_pieces_of_join, lines_of,
    pieces_of, span_texts, spans_fit, split_lines, Span,
};
use crate::text::{chars_of, is_blank, is_blank_text, string_of, trim, trim_bounds};
use vstd::prelude::*;

verus! {

/// One structural unit of a sectioned document.
#[derive(Clone, Debug)]
pub struct MarkdownSection {
    /// 0 for a section that no heading opens, else the heading's level, 1 to 6.
    pub level: u8,
    /// The heading's text, without its markers.
    pub title: String,
    /// The lines of the section, its heading included, joined by line feeds.
    pub content: String,
    /// The zero-based number of the section's first line.
    pub start_line: usize,
}

/// What a section is, in mathematical terms.
pub struct SectionModel {
    pub level: u8,
    pub title: Seq<char>,
    pub content: Seq<char>,
    pub start_line: int,
}

impl View for MarkdownSection {
    type V = SectionModel;

    open spec fn view(&self) -> SectionModel {
        SectionModel {
            level: self.level,
            title: self.title@,
            content: self.content@,
            start_line: self.start_line as int,
        }
    }
}

/// The models of `sections`, in order.
pub open spec fn section_models(sections: Seq<MarkdownSection>) -> Seq<SectionModel> {
    Seq::new(sections.len(), |i: int| sections[i]@)
}

/// Whether `line` opens or closes a fenced code block: with the white space
/// at either end gone, it begins with three backticks or with three tildes.
pub open spec fn is_fence(line: Seq<char>) -> bool {
    let t = trim(line);
    t.len() >= 3 && ((t[0] == '`' && t[1] == '`' && t[2] == '`') || (t[0] == '~' && t[1] == '~'
        && t[2] == '~'))
}

/// How many of the first `n` lines are fence lines.
pub open spec fn fences_before(lines: Seq<Seq<char>>, n: int) -> nat
    decreases n,
{
    if n <= 0 {
        0
    } else {
        fences_before(lines, n - 1) + if is_fence(lines[n - 1]) {
            1nat
        } else {
            0nat
        }
    }
}

/// Whether line `i` follows an odd number of fence lines, that is, stands
/// inside a fenced code block or closes one.
pub open spec fn in_fenced_block(lines: Seq<Seq<char>>, i: int) -> bool {
    fences_before(lines, i) % 2 == 1
}

/// Whether line `i` opens a section: it is a heading, it is no fence line,
/// and it does not stand inside a fenced code block.
pub open spec fn opens_section(lines: Seq<Seq<char>>, i: int) -> bool {
    &&& 0 <= i < lines.len()
    &&& !is_fence(lines[i])
    &&& !in_fenced_block(lines, i)
    &&& heading_of(lines[i]) is Some
}

/// The numbers of the lines among the first `n` that open a section, in
/// ascending order.
pub open spec fn starts_before(lines: Seq<Seq<char>>, n: int) -> Seq<int>
    decreases n,
{
    if n <= 0 {
        Seq::empty()
    } else if opens_section(lines, n - 1) {
        starts_before(lines, n - 1).push(n - 1)
    } else {
        starts_before(lines, n - 1)
    }
}

/// The numbers of the lines that open a section, in ascending order.
pub open spec fn section_starts(lines: Seq<Seq<char>>) -> Seq<int> {
    starts_before(lines, lines.len() as int)
}

/// The line at which the section that `starts[k]` opens ends: the next
/// section's first line, or the end of the document.
pub open spec fn section_end(lines: Seq<Seq<char>>, starts: Seq<int>, k: int) -> int {
    if k + 1 < starts.len() {
        starts[k + 1]
    } else {
        lines.len() as int
    }
}

/// The section that the heading in line `starts[k]` opens.
pub open spec fn headed_section(lines: Seq<Seq<char>>, starts: Seq<int>, k: int) -> SectionModel {
    let heading = heading_of(lines[starts[k]])->0;
    SectionModel {
        level: heading.0,
        title: heading.1,
        content: join_lines(lines.subrange(starts[k], section_end(lines, starts, k))),
        start_line: starts[k],
    }
}

/// The section that stands for the first `first` lines, which no heading opens.
pub open spec fn introduction(lines: Seq<Seq<char>>, first: int) -> SectionModel {
    SectionModel {
        level: 0,
        title: "Introduction"@,
        content: join_lines(lines.take(first)),
        start_line: 0,
    }
}

/// Whether the lines before the first heading get a section of their own:
/// there are such lines, and they are not all blank.
pub open spec fn has_introduction(lines: Seq<Seq<char>>, starts: Seq<int>) -> bool {
    starts.len() > 0 && starts[0] > 0 && !is_blank(join_lines(lines.take(starts[0])))
}

/// The one section of a document in which no line opens a section.
pub open spec fn whole_document(doc: Seq<char>) -> SectionModel {
    SectionModel { level: 0, title: "Document"@, content: doc, start_line: 0 }
}

/// The sections of `doc`.
///
/// Each line that opens a section starts one that runs up to the next such
/// line. Lines before the first of them form an introduction, unless they are
/// all blank. A document without any such line is one section.
pub open spec fn sections_of(doc: Seq<char>) -> Seq<SectionModel> {
    let lines = lines_of(doc);
    let starts = section_starts(lines);
    if starts.len() == 0 {
        seq![whole_document(doc)]
    } else {
        let headed = Seq::new(starts.len(), |k: int| headed_section(lines, starts, k));
        if has_introduction(lines, starts) {
            seq![introduction(lines, starts[0])] + headed
        } else {
            headed
        }
    }
}

/// The lines that open a section are lines of the document, each opens a
/// section, and they come in ascending order.
pub proof fn lemma_starts_ascend(lines: Seq<Seq<char>>, n: int)
    requires
        n <= lines.len(),
    ensures
        forall|k: int|
            0 <= k < starts_before(lines, n).len() ==> 0 <= (#[trigger] starts_before(lines, n)[k])
                < n,
        forall|k: int|
            0 <= k < starts_before(lines, n).len() ==> opens_section(
                lines,
                #[trigger] starts_before(lines, n)[k],
            ),
        forall|j: int, k: int|
            0 <= j < k < starts_before(lines, n).len() ==> (#[trigger] starts_before(lines, n)[j])
                < (#[trigger] starts_before(lines, n)[k]),
    decreases n,
{
    if n > 0 {
        lemma_starts_ascend(lines, n - 1);
        let earlier = starts_before(lines, n - 1);
        let all = starts_before(lines, n);
        assert forall|k: int| 0 <= k < all.len() implies 0 <= (#[trigger] all[k]) < n
            && opens_section(lines, all[k]) by {
            if k < earlier.len() {
                assert(all[k] == earlier[k]);
            }
        }
        assert forall|j: int, k: int| 0 <= j < k < all.len() implies (#[trigger] all[j]) < (
        #[trigger] all[k]) by {
            assert(all[j] == earlier[j]);
            if k < earlier.len() {
                assert(all[k] == earlier[k]);
            }
        }
    }
}

/// Decides whether the line `cs[lo..hi]` is a fence line.
pub fn is_fence_in(cs: &Vec<char>, lo: usize, hi: usize) -> (r: bool)
    requires
        lo <= hi <= cs.len(),
    ensures
        r == is_fence(cs@.subrange(lo as int, hi as int)),
{
    let (a, b) = trim_bounds(cs, lo, hi);
    if b - a < 3 {
        return false;
    }
    let c0 = cs[a];
    let c1 = cs[a + 1];
    let c2 = cs[a + 2];
    proof {
        let t = cs@.subrange(a as int, b as int);
        assert(t[0] == c0 && t[1] == c1 && t[2] == c2);
    }
    (c0 == '`' && c1 == '`' && c2 == '`') || (c0 == '~' && c1 == '~' && c2 == '~')
}

/// A heading found during the scan: its line, its level, and where in the
/// text its title stands.
struct Opening {
    line: usize,
    level: u8,
    title: Span,
}

/// Whether `found` lists the headings in the lines `starts`.
spec fn openings_match(
    text: Seq<char>,
    lines: Seq<Seq<char>>,
    found: Seq<Opening>,
    starts: Seq<int>,
) -> bool {
    &&& found.len() == starts.len()
    &&& forall|k: int|
        0 <= k < found.len() ==> {
            &&& (#[trigger] found[k]).line == starts[k]
            &&& found[k].title.fits(text.len())
            &&& heading_of(lines[starts[k]]) == Some((found[k].level, found[k].title.of(text)))
        }
}

/// Finds the headings that open a section.
fn find_openings(cs: &Vec<char>, spans: &Vec<Span>) -> (found: Vec<Opening>)
    requires
        spans_fit(spans@, cs@.len()),
    ensures
        openings_match(
            cs@,
            span_texts(cs@, spans@),
            found@,
            section_starts(span_texts(cs@, spans@)),
        ),
{
    let ghost lines = span_texts(cs@, spans@);
    let mut found: Vec<Opening> = Vec::new();
    let mut in_block = false;
    let mut i: usize = 0;
    while i < spans.len()
        invariant
            i <= spans.len(),
            spans_fit(spans@, cs@.len()),
            lines == span_texts(cs@, spans@),
            in_block == in_fenced_block(lines, i as int),
            openings_match(cs@, lines, found@, starts_before(lines, i as int)),
        decreases spans.len() - i,
    {
        let span = spans[i];
        let ghost before = found@;
        proof {
            assert(lines[i as int] == span.of(cs@));
        }
        if is_fence_in(cs, span.start, span.end) {
            in_block = !in_block;
        } else if !in_block {
            match heading_in(cs, span.start, span.end) {
                Some((level, title)) => {
                    found.push(Opening { line: i, level, title });
                    proof {
                        assert forall|k: int| 0 <= k < found@.len() implies {
                            &&& (#[trigger] found@[k]).line == starts_before(lines, i + 1)[k]
                            &&& found@[k].title.fits(cs@.len())
                            &&& heading_of(lines[starts_before(lines, i + 1)[k]]) == Some(
                                (found@[k].level, found@[k].title.of(cs@)),
                            )
                        } by {
                            if k < before.len() {
                                assert(found@[k] == before[k]);
                            }
                        }
                    }
                },
                None => {},
            }
        }
        i += 1;
    }
    found
}

/// Splits `content` into its sections.
pub fn extract_sections(content: &str) -> (sections: Vec<MarkdownSection>)
    ensures
        section_models(sections@) == sections_of(content@),
{
    let cs = chars_of(content);
    let spans = split_lines(&cs);
    let found = find_openings(&cs, &spans);
    let ghost lines = lines_of(content@);
    let ghost starts = section_starts(lines);
    let mut sections: Vec<MarkdownSection> = Vec::new();
    if found.len() == 0 {
        sections.push(
            MarkdownSection {
                level: 0,
                title: "Document".to_owned(),
                content: content.to_owned(),
                start_line: 0,
            },
        );
        proof {
            assert(section_models(sections@) =~= seq![whole_document(content@)]);
        }
        return sections;
    }
    proof {
        lemma_starts_ascend(lines, lines.len() as int);
    }
    let first = found[0].line;
    if first > 0 {
        proof {
            assert(lines.subrange(0, first as int) =~= lines.take(first as int));
        }
        let text = join_spans(&cs, &spans, 0, first);
        if !is_blank_text(text.as_str()) {
            sections.push(
                MarkdownSection {
                    level: 0,
                    title: "Introduction".to_owned(),
                    content: text,
                    start_line: 0,
                },
            );
        }
    }
    let ghost opening: Seq<SectionModel> = if has_introduction(lines, starts) {
        seq![introduction(lines, starts[0])]
    } else {
        Seq::empty()
    };
    proof {
        assert(section_models(sections@) =~= opening);
    }
    let mut k: usize = 0;
    while k < found.len()
        invariant
            k <= found.len(),
            cs@ == content@,
            spans_fit(spans@, cs@.len()),
            lines == lines_of(content@),
            lines == span_texts(cs@, spans@),
            starts == section_starts(lines),
            openings_match(cs@, lines, found@, starts),
            forall|j: int| 0 <= j < starts.len() ==> 0 <= (#[trigger] starts[j]) < lines.len(),
            forall|i: int, j: int|
                0 <= i < j < starts.len() ==> (#[trigger] starts[i]) < (#[trigger] starts[j]),
            section_models(sections@) == opening + Seq::new(
                k as nat,
                |j: int| headed_section(lines, starts, j),
            ),
        decreases found.len() - k,
    {
        let here = &found[k];
        let end = if k + 1 < found.len() {
            found[k + 1].line
        } else {
            spans.len()
        };
        proof {
            assert(end == section_end(lines, starts, k as int));
            if k + 1 < found.len() {
                assert(starts[k as int] < starts[k + 1]);
            }
        }
        let ghost before = section_models(sections@);
        let section = MarkdownSection {
            level: here.level,
            title: string_of(&cs, here.title.start, here.title.end),
            content: join_spans(&cs, &spans, here.line, end),
            start_line: here.line,
        };
        proof {
            assert(section@ == headed_section(lines, starts, k as int));
        }
        sections.push(section);
        proof {
            assert(section_models(sections@) =~= before.push(
                headed_section(lines, starts, k as int),
            ));
            assert(opening + Seq::new((k + 1) as nat, |j: int| headed_section(lines, starts, j))
                =~= (opening + Seq::new(
                k as nat,
                |j: int| headed_section(lines, starts, j),
            )).push(headed_section(lines, starts, k as int)));
        }
        k += 1;
    }
    proof {
        assert(section_models(sections@) =~= sections_of(content@));
    }
    sections
}

/// The lines of all the bodies, in order, each body split at its line feeds.
pub open spec fn body_lines(sections: Seq<SectionModel>) -> Seq<Seq<char>>
    decreases sections.len(),
{
    if sections.len() == 0 {
        Seq::empty()
    } else {
        body_lines(sections.drop_last()) + pieces_of(sections.last().content)
    }
}

/// Whether the document opens with blank lines that end up in no section:
/// its first heading is not in its first line, and the lines before it are
/// all blank.
pub open spec fn drops_blank_opening(doc: Seq<char>) -> bool {
    let lines = lines_of(doc);
    let starts = section_starts(lines);
    starts.len() > 0 && starts[0] > 0 && is_blank(join_lines(lines.take(starts[0])))
}

/// The line at which the `m`-th headed section starts, or the end of the
/// document if there are fewer.
spec fn boundary(lines: Seq<Seq<char>>, starts: Seq<int>, m: int) -> int {
    if m < starts.len() {
        starts[m]
    } else {
        lines.len() as int
    }
}

/// The first `m` headed sections.
spec fn headed_sections(lines: Seq<Seq<char>>, starts: Seq<int>, m: int) -> Seq<SectionModel> {
    Seq::new(m as nat, |k: int| headed_section(lines, starts, k))
}

proof fn lemma_headed_bodies(
    lines: Seq<Seq<char>>,
    starts: Seq<int>,
    opening: Seq<SectionModel>,
    m: int,
)
    requires
        feed_free(lines),
        starts.len() > 0,
        0 <= m <= starts.len(),
        forall|j: int| 0 <= j < starts.len() ==> 0 <= (#[trigger] starts[j]) < lines.len(),
        forall|i: int, j: int|
            0 <= i < j < starts.len() ==> (#[trigger] starts[i]) < (#[trigger] starts[j]),
        body_lines(opening) == lines.take(starts[0]),
    ensures
        body_lines(opening + headed_sections(lines, starts, m)) == lines.take(
            boundary(lines, starts, m),
        ),
    decreases m,
{
    if m == 0 {
        assert(opening + headed_sections(lines, starts, 0) =~= opening);
    } else {
        lemma_headed_bodies(lines, starts, opening, m - 1);
        let all = opening + headed_sections(lines, starts, m);
        let from = starts[m - 1];
        let to = boundary(lines, starts, m);
        let run = lines.subrange(from, to);
        assert(all.drop_last() =~= opening + headed_sections(lines, starts, m - 1));
        assert(all.last() == headed_section(lines, starts, m - 1));
        assert(to == section_end(lines, starts, m - 1));
        if m < starts.len() {
            assert(starts[m - 1] < starts[m]);
        }
        assert forall|i: int, j: int|
            0 <= i < run.len() && 0 <= j < run[i].len() implies (#[trigger] run[i][j])
            != '\n' by {
            assert(run[i][j] == lines[from + i][j]);
        }
        lemma_pieces_of_join(run);
        assert(lines.take(from) + run =~= lines.take(to));
    }
}

/// The bodies of the sections, taken in order and split at their line feeds,
/// are the lines of the document; and a document in which no line opens a
/// section is the body of its one section, so that both have the same lines.
///
/// This is stated of every document but those whose blank opening lines are
/// left out of the sections.
pub proof fn lemma_bodies_rebuild_lines(doc: Seq<char>)
    requires
        !drops_blank_opening(doc),
    ensures
        section_starts(lines_of(doc)).len() > 0 ==> body_lines(sections_of(doc)) == lines_of(doc),
        section_starts(lines_of(doc)).len() == 0 ==> sections_of(doc).len() == 1 && lines_of(
            sections_of(doc)[0].content,
        ) == lines_of(doc),
{
    let lines = lines_of(doc);
    let starts = section_starts(lines);
    if starts.len() > 0 {
        lemma_starts_ascend(lines, lines.len() as int);
        lemma_lines_are_feed_free(doc);
        let opening: Seq<SectionModel> = if has_introduction(lines, starts) {
            seq![introduction(lines, starts[0])]
        } else {
            Seq::empty()
        };
        if has_introduction(lines, starts) {
            let run = lines.take(starts[0]);
            assert forall|i: int, j: int|
                0 <= i < run.len() && 0 <= j < run[i].len() implies (#[trigger] run[i][j])
                != '\n' by {
                assert(run[i][j] == lines[i][j]);
            }
            lemma_pieces_of_join(run);
            assert(opening.drop_last() =~= Seq::<SectionModel>::empty());
            assert(body_lines(opening.drop_last()) =~= Seq::<Seq<char>>::empty());
            assert(opening.last().content == join_lines(run));
            assert(body_lines(opening) =~= run);
        } else {
            assert(starts[0] == 0);
            assert(body_lines(opening) =~= lines.take(0));
        }
        lemma_headed_bodies(lines, starts, opening, starts.len() as int);
        assert(sections_of(doc) =~= opening + headed_sections(lines, starts, starts.len() as int));
        assert(lines.take(lines.len() as int) =~= lines);
    }
}

/// The line at which section `i` of `doc` ends: the first line of the section
/// that follows it, or the end of the document.
pub open spec fn next_start(doc: Seq<char>, i: int) -> int {
    if i + 1 < sections_of(doc).len() {
        sections_of(doc)[i + 1].start_line
    } else {
        lines_of(doc).len() as int
    }
}

/// In a document with a line that opens a section, each section's body is
/// its own lines and no others: the lines from its first line up to the first
/// line of the next section, joined by line feeds. So no two sections overlap.
pub proof fn lemma_sections_do_not_overlap(doc: Seq<char>)
    requires
        section_starts(lines_of(doc)).len() > 0,
    ensures
        forall|i: int|
            0 <= i < sections_of(doc).len() ==> 0 <= (#[trigger] sections_of(doc)[i]).start_line
                < next_start(doc, i) <= lines_of(doc).len() && sections_of(doc)[i].content
                == join_lines(
                lines_of(doc).subrange(sections_of(doc)[i].start_line, next_start(doc, i)),
            ),
{
    let lines = lines_of(doc);
    let starts = section_starts(lines);
    let all = sections_of(doc);
    lemma_starts_ascend(lines, lines.len() as int);
    let shift: int = if has_introduction(lines, starts) {
        1
    } else {
        0
    };
    assert forall|i: int| 0 <= i < all.len() implies 0 <= (#[trigger] all[i]).start_line
        < next_start(doc, i) <= lines.len() && all[i].content == join_lines(
        lines.subrange(all[i].start_line, next_start(doc, i)),
    ) by {
        if i < shift {
            assert(all[1] == headed_section(lines, starts, 0));
            assert(lines.take(starts[0]) =~= lines.subrange(0, starts[0]));
        } else {
            let k = i - shift;
            assert(all[i] == headed_section(lines, starts, k));
            if k + 1 < starts.len() {
                assert(all[i + 1] == headed_section(lines, starts, k + 1));
                assert(starts[k] < starts[k + 1]);
            }
        }
    }
}

/// A document in which no line opens a section is exactly one section, at
/// level 0, whose body is the document.
pub proof fn lemma_document_without_headings(doc: Seq<char>)
    requires
        section_starts(lines_of(doc)).len() == 0,
    ensures
        sections_of(doc).len() == 1,
        sections_of(doc)[0].level == 0,
        sections_of(doc)[0].content == doc,
        sections_of(doc)[0].start_line == 0,
{
}

/// Sectioning depends on the text alone: whatever two runs on one text
/// return, section by section they agree in level, title, body and first line.
pub proof fn lemma_sectioning_is_repeatable(
    content: Seq<char>,
    first: Seq<MarkdownSection>,
    second: Seq<MarkdownSection>,
)
    requires
        section_models(first) == sections_of(content),
        section_models(second) == sections_of(content),
    ensures
        first.len() == second.len(),
        forall|i: int|
            0 <= i < first.len() ==> {
                &&& (#[trigger] first[i]).level == second[i].level
                &&& first[i].title@ == second[i].title@
                &&& first[i].content@ == second[i].content@
                &&& first[i].start_line == second[i].start_line
            },
{
    assert(first.len() == section_models(first).len());
    assert(second.len() == section_models(second).len());
    assert forall|i: int| 0 <= i < first.len() implies {
        &&& (#[trigger] first[i]).level == second[i].level
        &&& first[i].title@ == second[i].title@
        &&& first[i].content@ == second[i].content@
        &&& first[i].start_line == second[i].start_line
    } by {
        assert(section_models(first)[i] == first[i]@);
        assert(section_models(second)[i] == second[i]@);
    }
}

/// There is always a section; the sections stand in the order of their first
/// lines, no two start at the same line, and the first starts at line 0
/// unless blank opening lines were left out; levels run from 0 to 6, and only
/// the first section can have level 0.
pub proof fn lemma_sections_in_order(doc: Seq<char>)
    ensures
        sections_of(doc).len() >= 1,
        !drops_blank_opening(doc) ==> sections_of(doc)[0].start_line == 0,
        forall|i: int, j: int|
            0 <= i < j < sections_of(doc).len() ==> (#[trigger] sections_of(doc)[i]).start_line < (
            #[trigger] sections_of(doc)[j]).start_line,
        forall|i: int|
            0 <= i < sections_of(doc).len() ==> 0 <= (#[trigger] sections_of(doc)[i]).start_line
                && sections_of(doc)[i].level <= 6,
        forall|i: int|
            1 <= i < sections_of(doc).len() ==> (#[trigger] sections_of(doc)[i]).level >= 1,
{
    let lines = lines_of(doc);
    let starts = section_starts(lines);
    let all = sections_of(doc);
    if starts.len() > 0 {
        lemma_starts_ascend(lines, lines.len() as int);
        let shift: int = if has_introduction(lines, starts) {
            1
        } else {
            0
        };
        assert forall|i: int| shift <= i < all.len() implies (#[trigger] all[i])
            == headed_section(lines, starts, i - shift) by {}
        assert forall|i: int| shift <= i < all.len() implies 1 <= (#[trigger] all[i]).level <= 6
            && all[i].start_line == starts[i - shift] by {
            assert(opens_section(lines, starts[i - shift]));
        }
        assert forall|i: int, j: int| 0 <= i < j < all.len() implies (#[trigger] all[i]).start_line
            < (#[trigger] all[j]).start_line by {
            if i >= shift {
                assert(starts[i - shift] < starts[j - shift]);
            } else {
                assert(0 < starts[0]);
                if j - shift > 0 {
                    assert(starts[0] < starts[j - shift]);
                }
            }
        }
    }
}

} // verus!

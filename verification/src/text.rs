//! Character-level helpers shared by the heading parser and the sectioner:
//! white space, runs of one kind of character, trimming, and the conversion
//! between strings and character vectors.

use vstd::prelude::*;

verus! {

/// The code points that carry the Unicode `White_Space` property.
pub open spec fn is_whitespace(c: char) -> bool {
    ||| ('\u{9}' <= c && c <= '\u{D}')
    ||| c == ' '
    ||| c == '\u{85}'
    ||| c == '\u{A0}'
    ||| c == '\u{1680}'
    ||| ('\u{2000}' <= c && c <= '\u{200A}')
    ||| c == '\u{2028}'
    ||| c == '\u{2029}'
    ||| c == '\u{202F}'
    ||| c == '\u{205F}'
    ||| c == '\u{3000}'
}

/// Decides whether `c` is a white-space character.
pub fn char_is_whitespace(c: char) -> (r: bool)
    ensures
        r == is_whitespace(c),
{
    ('\u{9}' <= c && c <= '\u{D}') || c == ' ' || c == '\u{85}' || c == '\u{A0}' || c == '\u{1680}'
        || ('\u{2000}' <= c && c <= '\u{200A}') || c == '\u{2028}' || c == '\u{2029}' || c
        == '\u{202F}' || c == '\u{205F}' || c == '\u{3000}'
}

/// The kinds of character that the scanners look for.
#[derive(Clone, Copy, Debug)]
pub enum CharClass {
    /// White space.
    Whitespace,
    /// The heading marker `#`.
    Marker,
    /// Anything but a line feed.
    LineBody,
    /// Anything but a dot.
    ExtensionBody,
}

impl CharClass {
    /// Whether `c` belongs to the class.
    pub open spec fn has(self, c: char) -> bool {
        match self {
            CharClass::Whitespace => is_whitespace(c),
            CharClass::Marker => c == '#',
            CharClass::LineBody => c != '\n',
            CharClass::ExtensionBody => c != '.',
        }
    }

    /// Decides whether `c` belongs to the class.
    pub fn contains(self, c: char) -> (r: bool)
        ensures
            r == self.has(c),
    {
        match self {
            CharClass::Whitespace => char_is_whitespace(c),
            CharClass::Marker => c == '#',
            CharClass::LineBody => c != '\n',
            CharClass::ExtensionBody => c != '.',
        }
    }
}

/// How many characters at the front of `s` belong to `class`.
pub open spec fn leading_run(s: Seq<char>, class: CharClass) -> nat
    decreases s.len(),
{
    if s.len() > 0 && class.has(s[0]) {
        1 + leading_run(s.skip(1), class)
    } else {
        0
    }
}

/// How many characters at the back of `s` belong to `class`.
pub open spec fn trailing_run(s: Seq<char>, class: CharClass) -> nat
    decreases s.len(),
{
    if s.len() > 0 && class.has(s.last()) {
        1 + trailing_run(s.drop_last(), class)
    } else {
        0
    }
}

/// `s` without its leading white space.
pub open spec fn trim_start(s: Seq<char>) -> Seq<char> {
    s.skip(leading_run(s, CharClass::Whitespace) as int)
}

/// `s` without its trailing white space.
pub open spec fn trim_end(s: Seq<char>) -> Seq<char> {
    s.take(s.len() - trailing_run(s, CharClass::Whitespace))
}

/// `s` without the white space at either end.
pub open spec fn trim(s: Seq<char>) -> Seq<char> {
    trim_end(trim_start(s))
}

/// Whether `s` holds nothing but white space.
pub open spec fn is_blank(s: Seq<char>) -> bool {
    trim(s).len() == 0
}

/// A leading run is the only prefix of class members that cannot be extended.
pub proof fn lemma_leading_run_is(s: Seq<char>, class: CharClass, k: int)
    requires
        0 <= k <= s.len(),
        forall|i: int| 0 <= i < k ==> class.has(#[trigger] s[i]),
        k == s.len() || !class.has(s[k]),
    ensures
        leading_run(s, class) == k,
    decreases k,
{
    if k > 0 {
        let rest = s.skip(1);
        assert forall|i: int| 0 <= i < k - 1 implies class.has(#[trigger] rest[i]) by {
            assert(rest[i] == s[i + 1]);
        }
        if k < s.len() {
            assert(rest[k - 1] == s[k]);
        }
        lemma_leading_run_is(rest, class, k - 1);
    }
}

/// What a leading run is made of, and where it stops.
pub proof fn lemma_leading_run_bounds(s: Seq<char>, class: CharClass)
    ensures
        leading_run(s, class) <= s.len(),
        forall|i: int| 0 <= i < leading_run(s, class) ==> class.has(#[trigger] s[i]),
        leading_run(s, class) < s.len() ==> !class.has(s[leading_run(s, class) as int]),
    decreases s.len(),
{
    if s.len() > 0 && class.has(s[0]) {
        let rest = s.skip(1);
        lemma_leading_run_bounds(rest, class);
        let n = leading_run(rest, class) as int;
        assert forall|i: int| 0 <= i < n + 1 implies class.has(#[trigger] s[i]) by {
            if i > 0 {
                assert(s[i] == rest[i - 1]);
            }
        }
        if n + 1 < s.len() {
            assert(rest[n] == s[n + 1]);
        }
    }
}

/// A trailing run is the only suffix of class members that cannot be extended.
pub proof fn lemma_trailing_run_is(s: Seq<char>, class: CharClass, k: int)
    requires
        0 <= k <= s.len(),
        forall|i: int| s.len() - k <= i < s.len() ==> class.has(#[trigger] s[i]),
        k == s.len() || !class.has(s[s.len() - k - 1]),
    ensures
        trailing_run(s, class) == k,
    decreases k,
{
    if k > 0 {
        let rest = s.drop_last();
        assert forall|i: int| rest.len() - (k - 1) <= i < rest.len() implies class.has(
            #[trigger] rest[i],
        ) by {
            assert(rest[i] == s[i]);
        }
        if k < s.len() {
            assert(rest[rest.len() - (k - 1) - 1] == s[s.len() - k - 1]);
        }
        lemma_trailing_run_is(rest, class, k - 1);
    }
}

/// What a trailing run is made of, and where it stops.
pub proof fn lemma_trailing_run_bounds(s: Seq<char>, class: CharClass)
    ensures
        trailing_run(s, class) <= s.len(),
        forall|i: int|
            s.len() - trailing_run(s, class) <= i < s.len() ==> class.has(#[trigger] s[i]),
        trailing_run(s, class) < s.len() ==> !class.has(
            s[s.len() - trailing_run(s, class) - 1],
        ),
    decreases s.len(),
{
    if s.len() > 0 && class.has(s.last()) {
        let rest = s.drop_last();
        lemma_trailing_run_bounds(rest, class);
        let n = trailing_run(rest, class) as int;
        assert forall|i: int| s.len() - (n + 1) <= i < s.len() implies class.has(
            #[trigger] s[i],
        ) by {
            if i < s.len() - 1 {
                assert(s[i] == rest[i]);
            }
        }
        if n + 1 < s.len() {
            assert(rest[rest.len() - n - 1] == s[s.len() - (n + 1) - 1]);
        }
    }
}

/// The end of the run of `class` characters that starts at `lo`, looking no
/// further than `hi`.
pub fn leading_end(cs: &Vec<char>, lo: usize, hi: usize, class: CharClass) -> (r: usize)
    requires
        lo <= hi <= cs.len(),
    ensures
        lo <= r <= hi,
        r - lo == leading_run(cs@.subrange(lo as int, hi as int), class),
{
    let mut i = lo;
    while i < hi && class.contains(cs[i])
        invariant
            lo <= i <= hi <= cs.len(),
            forall|j: int| lo <= j < i ==> class.has(#[trigger] cs@[j]),
        decreases hi - i,
    {
        i += 1;
    }
    proof {
        lemma_leading_run_is(cs@.subrange(lo as int, hi as int), class, i - lo);
    }
    i
}

/// The start of the run of `class` characters that ends at `hi`, looking no
/// further back than `lo`.
pub fn trailing_start(cs: &Vec<char>, lo: usize, hi: usize, class: CharClass) -> (r: usize)
    requires
        lo <= hi <= cs.len(),
    ensures
        lo <= r <= hi,
        hi - r == trailing_run(cs@.subrange(lo as int, hi as int), class),
{
    let mut i = hi;
    while i > lo && class.contains(cs[i - 1])
        invariant
            lo <= i <= hi <= cs.len(),
            forall|j: int| i <= j < hi ==> class.has(#[trigger] cs@[j]),
        decreases i - lo,
    {
        i -= 1;
    }
    proof {
        lemma_trailing_run_is(cs@.subrange(lo as int, hi as int), class, hi - i);
    }
    i
}

/// The bounds of what is left of `cs[lo..hi]` once the white space at either
/// end is gone.
pub fn trim_bounds(cs: &Vec<char>, lo: usize, hi: usize) -> (r: (usize, usize))
    requires
        lo <= hi <= cs.len(),
    ensures
        lo <= r.0 <= r.1 <= hi,
        cs@.subrange(r.0 as int, r.1 as int) == trim(cs@.subrange(lo as int, hi as int)),
{
    let a = leading_end(cs, lo, hi, CharClass::Whitespace);
    let b = trailing_start(cs, a, hi, CharClass::Whitespace);
    proof {
        let piece = cs@.subrange(lo as int, hi as int);
        assert(trim_start(piece) =~= cs@.subrange(a as int, hi as int));
        assert(trim_end(cs@.subrange(a as int, hi as int)) =~= cs@.subrange(a as int, b as int));
    }
    (a, b)
}

/// The characters of `s`, in order.
pub fn chars_of(s: &str) -> (cs: Vec<char>)
    ensures
        cs@ == s@,
{
    let mut cs: Vec<char> = Vec::new();
    for c in it: s.chars()
        invariant
            it.seq() == s@,
            cs@ == it.seq().take(it.index()),
    {
        proof {
            assert(it.seq().take(it.index() + 1) =~= it.seq().take(it.index()).push(c));
        }
        cs.push(c);
    }
    proof {
        assert(s@.take(s@.len() as int) =~= s@);
    }
    cs
}

/// `String::push`: the string afterwards is the string before with `c` at
/// its end.
#[verifier::external_body]
fn push_char(s: &mut String, c: char)
    ensures
        final(s)@ == old(s)@.push(c),
{
    s.push(c)
}

/// Appends the characters `cs[lo..hi]` to `out`.
pub fn append_chars(out: &mut String, cs: &Vec<char>, lo: usize, hi: usize)
    requires
        lo <= hi <= cs.len(),
    ensures
        final(out)@ == old(out)@ + cs@.subrange(lo as int, hi as int),
{
    let mut i = lo;
    while i < hi
        invariant
            lo <= i <= hi <= cs.len(),
            out@ == old(out)@ + cs@.subrange(lo as int, i as int),
        decreases hi - i,
    {
        proof {
            assert(cs@.subrange(lo as int, i + 1) =~= cs@.subrange(lo as int, i as int).push(
                cs@[i as int],
            ));
        }
        push_char(out, cs[i]);
        i += 1;
    }
}

/// The characters `cs[lo..hi]` as a string.
pub fn string_of(cs: &Vec<char>, lo: usize, hi: usize) -> (r: String)
    requires
        lo <= hi <= cs.len(),
    ensures
        r@ == cs@.subrange(lo as int, hi as int),
{
    let mut out = String::new();
    append_chars(&mut out, cs, lo, hi);
    out
}

/// Decides whether two texts are the same.
pub fn same_text(a: &str, b: &str) -> (r: bool)
    ensures
        r == (a@ == b@),
{
    a.to_owned() == b.to_owned()
}

/// A text is blank exactly when each of its characters is white space.
pub proof fn lemma_blank_is_all_whitespace(s: Seq<char>)
    ensures
        is_blank(s) <==> forall|i: int| 0 <= i < s.len() ==> is_whitespace(#[trigger] s[i]),
{
    let a = leading_run(s, CharClass::Whitespace) as int;
    lemma_leading_run_bounds(s, CharClass::Whitespace);
    let t = trim_start(s);
    lemma_trailing_run_bounds(t, CharClass::Whitespace);
    if forall|i: int| 0 <= i < s.len() ==> is_whitespace(#[trigger] s[i]) {
        if a < s.len() {
            assert(CharClass::Whitespace.has(s[a]));
        }
    }
    if is_blank(s) {
        assert forall|i: int| 0 <= i < s.len() implies is_whitespace(#[trigger] s[i]) by {
            if i >= a {
                assert(CharClass::Whitespace.has(t[i - a]));
            } else {
                assert(CharClass::Whitespace.has(s[i]));
            }
        }
    }
}

/// Decides whether `s` holds nothing but white space.
pub fn is_blank_text(s: &str) -> (r: bool)
    ensures
        r == is_blank(s@),
{
    for c in it: s.chars()
        invariant
            it.seq() == s@,
            forall|j: int| 0 <= j < it.index() ==> is_whitespace(#[trigger] s@[j]),
    {
        if !char_is_whitespace(c) {
            proof {
                lemma_blank_is_all_whitespace(s@);
                assert(!is_whitespace(s@[it.index()]));
            }
            return false;
        }
    }
    proof {
        lemma_blank_is_all_whitespace(s@);
    }
    true
}

} // verus!

//! Character-level helpers shared by the command parser and the framing code.

use vstd::prelude::*;

verus! {

/// Whether `c` has the Unicode `White_Space` property: tab through carriage
/// return, space, next line, no-break space, ogham space mark, the spaces
/// U+2000 to U+200A, line and paragraph separators, narrow no-break space,
/// medium mathematical space and ideographic space.
pub open spec fn is_space(c: char) -> bool {
    let u = c as u32;
    ||| 9 <= u <= 13
    ||| u == 0x20
    ||| u == 0x85
    ||| u == 0xA0
    ||| u == 0x1680
    ||| 0x2000 <= u <= 0x200A
    ||| u == 0x2028
    ||| u == 0x2029
    ||| u == 0x202F
    ||| u == 0x205F
    ||| u == 0x3000
}

/// Relies on `char::is_whitespace`, which holds exactly for the characters
/// with the Unicode `White_Space` property.
#[verifier::external_body]
pub(crate) fn char_is_space(c: char) -> (r: bool)
    ensures
        r == is_space(c),
{
    c.is_whitespace()
}

/// The characters of `s`, one by one.
pub(crate) fn chars_of(s: &str) -> (r: Vec<char>)
    ensures
        r@ == s@,
{
    let n = s.unicode_len();
    let mut out: Vec<char> = Vec::new();
    let mut i: usize = 0;
    while i < n
        invariant
            n == s@.len(),
            i <= n,
            out@ == s@.take(i as int),
        decreases n - i,
    {
        let c = s.get_char(i);
        out.push(c);
        i += 1;
        assert(out@ =~= s@.take(i as int));
    }
    assert(out@ =~= s@);
    out
}

/// The whitespace-separated words of `s`, in order, as `str::split_whitespace`
/// yields them.
pub open spec fn words(s: Seq<char>) -> Seq<Seq<char>>
    decreases s.len(),
{
    if s.len() == 0 {
        seq![]
    } else {
        let w = words(s.drop_last());
        let c = s.last();
        if is_space(c) {
            w
        } else if s.len() >= 2 && !is_space(s[s.len() - 2]) && w.len() > 0 {
            w.update(w.len() - 1, w.last().push(c))
        } else {
            w.push(seq![c])
        }
    }
}

/// The words of `ws` separated by single spaces.
pub open spec fn join_spaced(ws: Seq<Seq<char>>) -> Seq<char>
    decreases ws.len(),
{
    if ws.len() == 0 {
        seq![]
    } else if ws.len() == 1 {
        ws[0]
    } else {
        join_spaced(ws.drop_last()) + seq![' '] + ws.last()
    }
}

/// `s` without the line feeds at its end (`str::trim_end_matches('\n')`).
pub open spec fn trim_line_feeds(s: Seq<char>) -> Seq<char>
    decreases s.len(),
{
    if s.len() > 0 && s.last() == '\n' {
        trim_line_feeds(s.drop_last())
    } else {
        s
    }
}

/// Spans `(start, end)` of the words of `s`: each is the word `s[start..end]`.
pub open spec fn spans_match(s: Seq<char>, spans: Seq<(usize, usize)>, ws: Seq<Seq<char>>) -> bool {
    &&& spans.len() == ws.len()
    &&& forall|k: int|
        0 <= k < spans.len() ==> {
            &&& #[trigger] spans[k].0 < spans[k].1 <= s.len()
            &&& s.subrange(spans[k].0 as int, spans[k].1 as int) == ws[k]
        }
}

/// The word spans of `cs`, left to right.
pub(crate) fn word_spans(cs: &Vec<char>) -> (r: Vec<(usize, usize)>)
    ensures
        spans_match(cs@, r@, words(cs@)),
{
    let mut out: Vec<(usize, usize)> = Vec::new();
    let mut i: usize = 0;
    while i < cs.len()
        invariant
            i <= cs@.len(),
            spans_match(cs@.take(i as int), out@, words(cs@.take(i as int))),
            forall|k: int| 0 <= k < out@.len() ==> #[trigger] out@[k].1 <= i,
            i > 0 && !is_space(cs@[i - 1]) ==> out@.len() > 0 && out@.last().1 == i,
        decreases cs@.len() - i,
    {
        let ghost before = cs@.take(i as int);
        let ghost after = cs@.take(i + 1);
        assert(after.drop_last() =~= before);
        assert(after.last() == cs@[i as int]);
        let c = cs[i];
        let sp = char_is_space(c);
        if sp {
        } else if i >= 1 && !char_is_space(cs[i - 1]) {
            assert(after[after.len() - 2] == cs@[i - 1]);
            let last = out.len() - 1;
            let (a, _) = out[last];
            out.set(last, (a, i + 1));
            assert(after.subrange(a as int, i + 1) =~= before.subrange(a as int, i as int).push(c));
        } else {
            if i >= 1 {
                assert(after[after.len() - 2] == cs@[i - 1]);
            }
            out.push((i, i + 1));
            assert(after.subrange(i as int, i + 1) =~= seq![c]);
        }
        i += 1;
        assert forall|k: int| 0 <= k < out@.len() && out@[k].1 < i implies
            #[trigger] after.subrange(out@[k].0 as int, out@[k].1 as int)
                == before.subrange(out@[k].0 as int, out@[k].1 as int) by {
            assert(after.subrange(out@[k].0 as int, out@[k].1 as int)
                =~= before.subrange(out@[k].0 as int, out@[k].1 as int));
        }
    }
    assert(cs@.take(cs@.len() as int) =~= cs@);
    out
}

} // verus!

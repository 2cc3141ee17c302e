//! Marking the matched spans of a line.
use vstd::prelude::*;
use vstd::slice::slice_subrange;
use vstd::string::StringSliceAdditionalSpecFns;
use crate::matcher::{Matcher, match_spans, spans_ordered};

verus! {

/// The escape sequence that turns the foreground purple.
pub open spec fn match_open() -> Seq<u8> {
    seq![0x1Bu8, 0x5Bu8, 0x33u8, 0x35u8, 0x6Du8]
}

/// The escape sequence that resets all styles.
pub open spec fn style_reset() -> Seq<u8> {
    seq![0x1Bu8, 0x5Bu8, 0x30u8, 0x6Du8]
}

/// Where the text after the first `n` spans resumes.
pub open spec fn resume_at(spans: Seq<(usize, usize)>, n: int) -> int {
    if n <= 0 {
        0
    } else {
        spans[n - 1].1 as int
    }
}

/// `line` up to the end of its `n`-th span, each of the first `n` spans
/// wrapped between `open` and `close`.
pub open spec fn marked_prefix(
    line: Seq<u8>,
    spans: Seq<(usize, usize)>,
    n: int,
    open: Seq<u8>,
    close: Seq<u8>,
) -> Seq<u8>
    decreases n,
{
    if n <= 0 {
        seq![]
    } else {
        let s = spans[n - 1].0 as int;
        let e = spans[n - 1].1 as int;
        marked_prefix(line, spans, n - 1, open, close) + line.subrange(resume_at(spans, n - 1), s)
            + open + line.subrange(s, e) + close
    }
}

/// `line` with every span wrapped between `open` and `close`.
pub open spec fn marked(line: Seq<u8>, spans: Seq<(usize, usize)>, open: Seq<u8>, close: Seq<u8>) -> Seq<u8> {
    marked_prefix(line, spans, spans.len() as int, open, close) + line.subrange(
        resume_at(spans, spans.len() as int),
        line.len() as int,
    )
}

/// Relies on ansi_term's `Colour::Purple.paint` over bytes and
/// `ANSIByteString::write_to`: the purple prefix, the bytes, the reset
/// suffix; writing into a `Vec` does not fail.
#[verifier::external_body]
fn paint_match(text: &[u8]) -> (r: Vec<u8>)
    ensures
        r@ == match_open() + text@ + style_reset(),
{
    let mut out: Vec<u8> = Vec::new();
    let _ = ansi_term::Colour::Purple.paint(text).write_to(&mut out);
    out
}

/// `line` with the given spans marked; `None` when there are no spans.
pub fn highlight_spans(line: &[u8], spans: &Vec<(usize, usize)>) -> (r: Option<Vec<u8>>)
    requires
        spans_ordered(spans@, line@.len() as int),
    ensures
        spans@.len() == 0 ==> r.is_none(),
        spans@.len() > 0 ==> (r matches Some(v) && v@ == marked(
            line@,
            spans@,
            match_open(),
            style_reset(),
        )),
{
    if spans.len() == 0 {
        return None;
    }
    let mut out: Vec<u8> = Vec::new();
    let mut pos: usize = 0;
    let mut i: usize = 0;
    while i < spans.len()
        invariant
            i <= spans@.len(),
            spans_ordered(spans@, line@.len() as int),
            pos as int == resume_at(spans@, i as int),
            pos <= line@.len(),
            out@ == marked_prefix(line@, spans@, i as int, match_open(), style_reset()),
        decreases spans@.len() - i,
    {
        let (s, e) = spans[i];
        assert(i > 0 ==> spans@[i - 1].1 <= spans@[i as int].0);
        let gap = slice_subrange(line, pos, s);
        out.extend_from_slice(gap);
        let painted = paint_match(slice_subrange(line, s, e));
        out.extend_from_slice(painted.as_slice());
        pos = e;
        i = i + 1;
    }
    let rest = slice_subrange(line, pos, line.len());
    out.extend_from_slice(rest);
    Some(out)
}

/// `line` with every match of `m` marked, or `None` when nothing matches.
pub fn highlight_matches(m: &Matcher, line: &str) -> (r: Option<Vec<u8>>)
    ensures
        match_spans(m.pattern(), m.case_insensitive(), line@).len() == 0 <==> r.is_none(),
        r matches Some(v) ==> v@ == marked(
            line.spec_bytes(),
            match_spans(m.pattern(), m.case_insensitive(), line@),
            match_open(),
            style_reset(),
        ),
{
    let spans = m.find_all(line);
    let bytes = line.as_bytes_vec();
    highlight_spans(bytes.as_slice(), &spans)
}

proof fn lemma_unmarked_prefix(line: Seq<u8>, spans: Seq<(usize, usize)>, n: int)
    requires
        spans_ordered(spans, line.len() as int),
        0 <= n <= spans.len(),
    ensures
        marked_prefix(line, spans, n, seq![], seq![]) =~= line.subrange(0, resume_at(spans, n)),
    decreases n,
{
    if n > 0 {
        lemma_unmarked_prefix(line, spans, n - 1);
        assert(n - 1 > 0 ==> spans[n - 2].1 <= spans[n - 1].0);
    }
}

/// Removing the markup gives the line back: with empty markup, marking any
/// ordered, non-overlapping spans keeps every byte of the line, in order.
pub proof fn lemma_markup_round_trip(line: Seq<u8>, spans: Seq<(usize, usize)>)
    requires
        spans_ordered(spans, line.len() as int),
    ensures
        marked(line, spans, seq![], seq![]) == line,
{
    lemma_unmarked_prefix(line, spans, spans.len() as int);
    assert(marked(line, spans, seq![], seq![]) =~= line);
}

} // verus!

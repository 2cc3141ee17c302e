//! Search mode over a file's text: the numbered, marked lines that match.
use vstd::prelude::*;
use vstd::string::StringSliceAdditionalSpecFns;
use vstd::utf8::encode_utf8;
use crate::matcher::{Matcher, match_spans};
use crate::highlight::{highlight_matches, marked, match_open, style_reset};

verus! {

/// Index of the first `\n` in `s`, or its length when there is none.
pub open spec fn newline_at(s: Seq<char>) -> nat
    decreases s.len(),
{
    if s.len() == 0 || s[0] == '\n' {
        0
    } else {
        1 + newline_at(s.drop_first())
    }
}

/// `line` without one trailing carriage return.
pub open spec fn without_cr(line: Seq<char>) -> Seq<char> {
    if line.len() > 0 && line.last() == '\r' {
        line.drop_last()
    } else {
        line
    }
}

/// The lines of `text`: split at `\n` or `\r\n`, without the endings; the
/// last line needs no ending, and an empty text has no line.
pub open spec fn lines_of(text: Seq<char>) -> Seq<Seq<char>>
    decreases text.len(),
{
    let k = newline_at(text);
    if text.len() == 0 {
        seq![]
    } else if k >= text.len() {
        seq![text]
    } else {
        seq![without_cr(text.subrange(0, k as int))] + lines_of(
            text.subrange((k + 1) as int, text.len() as int),
        )
    }
}

/// Relies on str::lines: lines end at `\n` or `\r\n`, the endings are not
/// part of them, and the final line ending is optional.
#[verifier::external_body]
pub(crate) fn split_lines(text: &str) -> (r: Vec<String>)
    ensures
        r@.len() == lines_of(text@).len(),
        forall|i: int| 0 <= i < r@.len() ==> #[trigger] r@[i]@ == lines_of(text@)[i],
{
    text.lines().map(|l| l.to_owned()).collect()
}

/// A matching line: its 1-based number and its text with the matches marked.
pub struct MatchedLine {
    pub number: usize,
    pub text: Vec<u8>,
}

/// The marked form of `line` under the pattern.
pub open spec fn marked_line(pattern: Seq<char>, case_insensitive: bool, line: Seq<char>) -> Seq<u8> {
    marked(
        encode_utf8(line),
        match_spans(pattern, case_insensitive, line),
        match_open(),
        style_reset(),
    )
}

/// The numbered, marked lines among the first `n` of `lines` that have a
/// match, in order.
pub open spec fn found_lines(
    pattern: Seq<char>,
    case_insensitive: bool,
    lines: Seq<Seq<char>>,
    n: int,
) -> Seq<(int, Seq<u8>)>
    decreases n,
{
    if n <= 0 {
        seq![]
    } else {
        let before = found_lines(pattern, case_insensitive, lines, n - 1);
        if match_spans(pattern, case_insensitive, lines[n - 1]).len() == 0 {
            before
        } else {
            before.push((n, marked_line(pattern, case_insensitive, lines[n - 1])))
        }
    }
}

pub open spec fn matched_view(r: Seq<MatchedLine>) -> Seq<(int, Seq<u8>)> {
    r.map_values(|l: MatchedLine| (l.number as int, l.text@))
}

/// The lines of `lines` that `m` matches, numbered from 1, with their
/// matches marked; lines without a match are left out.
pub fn search_lines(m: &Matcher, lines: &Vec<String>) -> (r: Vec<MatchedLine>)
    ensures
        matched_view(r@) == found_lines(
            m.pattern(),
            m.case_insensitive(),
            lines@.map_values(|l: String| l@),
            lines@.len() as int,
        ),
{
    let ghost views = lines@.map_values(|l: String| l@);
    let mut out: Vec<MatchedLine> = Vec::new();
    let mut i: usize = 0;
    while i < lines.len()
        invariant
            i <= lines@.len(),
            views == lines@.map_values(|l: String| l@),
            matched_view(out@) == found_lines(m.pattern(), m.case_insensitive(), views, i as int),
        decreases lines@.len() - i,
    {
        let line = lines[i].as_str();
        assert(views[i as int] == line@);
        match highlight_matches(m, line) {
            Some(text) => {
                assert(line.spec_bytes() == encode_utf8(line@));
                let ghost prev = out@;
                out.push(MatchedLine { number: i + 1, text });
                assert(matched_view(out@) =~= matched_view(prev).push(
                    ((i + 1) as int, marked_line(m.pattern(), m.case_insensitive(), views[i as int])),
                ));
            },
            None => {},
        }
        i = i + 1;
    }
    out
}

/// The matching lines of a file's whole text.
pub fn search_content(m: &Matcher, content: &str) -> (r: Vec<MatchedLine>)
    ensures
        matched_view(r@) == found_lines(
            m.pattern(),
            m.case_insensitive(),
            lines_of(content@),
            lines_of(content@).len() as int,
        ),
{
    let lines = split_lines(content);
    assert(lines@.map_values(|l: String| l@) =~= lines_of(content@));
    search_lines(m, &lines)
}

} // verus!

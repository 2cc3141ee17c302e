//! The compiled search pattern: finding match spans and replacing matches.
use vstd::prelude::*;
use vstd::string::StringSliceAdditionalSpecFns;

verus! {

#[verifier::external_type_specification]
#[verifier::external_body]
pub struct ExRegex(regex::Regex);

#[verifier::external_type_specification]
#[verifier::external_body]
pub struct ExRegexError(regex::Error);

/// Whether `pattern` compiles, with case folding on or off.
pub uninterp spec fn pattern_compiles(pattern: Seq<char>, case_insensitive: bool) -> bool;

/// The byte spans of the successive non-overlapping leftmost-first matches
/// of `pattern` in `haystack`.
pub uninterp spec fn match_spans(pattern: Seq<char>, case_insensitive: bool, haystack: Seq<char>) -> Seq<(usize, usize)>;

/// `haystack` with every match of `pattern` replaced by the expansion of
/// `template`.
pub uninterp spec fn replaced_all(
    pattern: Seq<char>,
    case_insensitive: bool,
    haystack: Seq<char>,
    template: Seq<char>,
) -> Seq<char>;

/// Spans that lie inside `0..len`, each with `start <= end`, in ascending
/// order and not overlapping.
pub open spec fn spans_ordered(spans: Seq<(usize, usize)>, len: int) -> bool {
    &&& forall|i: int| 0 <= i < spans.len() ==> spans[i].0 <= spans[i].1 && spans[i].1 <= len
    &&& forall|i: int| 0 <= i < spans.len() - 1 ==> spans[i].1 <= spans[i + 1].0
}

/// A pattern that did not compile; holds the pattern text.
pub struct InvalidPattern {
    pub pattern: String,
}

/// A compiled search pattern together with the text and flag it came from.
pub struct Matcher {
    re: regex::Regex,
    pattern: String,
    case_insensitive: bool,
}

/// Relies on RegexBuilder::new, RegexBuilder::case_insensitive and
/// RegexBuilder::build: whether a pattern compiles depends only on the
/// pattern and the flag.
#[verifier::external_body]
fn compile(pattern: &str, case_insensitive: bool) -> (r: Result<regex::Regex, regex::Error>)
    ensures
        r.is_ok() == pattern_compiles(pattern@, case_insensitive),
{
    regex::RegexBuilder::new(pattern).case_insensitive(case_insensitive).build()
}

/// Relies on Regex::find_iter, Match::start and Match::end: successive
/// non-overlapping matches, as byte offsets into the haystack.
#[verifier::external_body]
fn find_spans(m: &Matcher, haystack: &str) -> (r: Vec<(usize, usize)>)
    ensures
        r@ == match_spans(m.pattern(), m.case_insensitive(), haystack@),
        spans_ordered(r@, haystack.spec_bytes().len() as int),
{
    m.re.find_iter(haystack).map(|x| (x.start(), x.end())).collect()
}

/// Relies on Regex::replace_all with a `&str` template: every match
/// replaced, `$name` and `$n` expanded; with no match, the haystack comes
/// back unchanged.
#[verifier::external_body]
fn replace_spans(m: &Matcher, haystack: &str, template: &str) -> (r: String)
    ensures
        r@ == replaced_all(m.pattern(), m.case_insensitive(), haystack@, template@),
        match_spans(m.pattern(), m.case_insensitive(), haystack@).len() == 0 ==> r@ == haystack@,
{
    m.re.replace_all(haystack, template).into_owned()
}

impl Matcher {
    pub closed spec fn pattern(&self) -> Seq<char> {
        self.pattern@
    }

    pub closed spec fn case_insensitive(&self) -> bool {
        self.case_insensitive
    }

    /// Compiles `pattern`, folding case when `case_insensitive` is set.
    pub fn new(pattern: &str, case_insensitive: bool) -> (r: Result<Matcher, InvalidPattern>)
        ensures
            r.is_ok() == pattern_compiles(pattern@, case_insensitive),
            r matches Ok(m) ==> m.pattern() == pattern@ && m.case_insensitive() == case_insensitive,
            r matches Err(e) ==> e.pattern@ == pattern@,
    {
        match compile(pattern, case_insensitive) {
            Ok(re) => Ok(Matcher { re, pattern: pattern.to_string(), case_insensitive }),
            Err(_) => Err(InvalidPattern { pattern: pattern.to_string() }),
        }
    }

    /// The spans of all non-overlapping matches in `line`, left to right.
    pub fn find_all(&self, line: &str) -> (r: Vec<(usize, usize)>)
        ensures
            r@ == match_spans(self.pattern(), self.case_insensitive(), line@),
            spans_ordered(r@, line.spec_bytes().len() as int),
    {
        find_spans(self, line)
    }

    /// `content` with every match replaced by `template`.
    pub fn replace_all(&self, content: &str, template: &str) -> (r: String)
        ensures
            r@ == replaced_all(self.pattern(), self.case_insensitive(), content@, template@),
            match_spans(self.pattern(), self.case_insensitive(), content@).len() == 0 ==> r@
                == content@,
    {
        replace_spans(self, content, template)
    }
}

} // verus!

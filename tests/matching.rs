use findrep::highlight::{highlight_matches, highlight_spans};
use findrep::matcher::Matcher;
use findrep::replace::apply_replacement;
use findrep::output::ChangeCounter;
use findrep::search::search_content;

const OPEN: &[u8] = b"\x1b[35m";
const CLOSE: &[u8] = b"\x1b[0m";

fn painted(parts: &[(&str, bool)]) -> Vec<u8> {
    let mut out = Vec::new();
    for (text, marked) in parts {
        if *marked {
            out.extend_from_slice(OPEN);
        }
        out.extend_from_slice(text.as_bytes());
        if *marked {
            out.extend_from_slice(CLOSE);
        }
    }
    out
}

#[test]
fn invalid_pattern_is_reported_with_its_text() {
    match Matcher::new("(unclosed", false) {
        Err(e) => assert_eq!(e.pattern, "(unclosed"),
        Ok(_) => panic!("pattern should not compile"),
    }
}

#[test]
fn case_insensitive_match_span() {
    let m = Matcher::new("abc", true).ok().unwrap();
    assert_eq!(m.find_all("ABCdef"), vec![(0, 3)]);
    let strict = Matcher::new("abc", false).ok().unwrap();
    assert_eq!(strict.find_all("ABCdef"), vec![]);
}

#[test]
fn spans_are_leftmost_and_disjoint() {
    let m = Matcher::new("aa", false).ok().unwrap();
    assert_eq!(m.find_all("aaaaa"), vec![(0, 2), (2, 4)]);
}

#[test]
fn no_match_gives_none() {
    let m = Matcher::new("zzz", false).ok().unwrap();
    assert_eq!(highlight_matches(&m, "nothing here"), None);
    assert_eq!(highlight_matches(&m, ""), None);
}

#[test]
fn matches_are_marked_in_place() {
    let m = Matcher::new("foo", false).ok().unwrap();
    let r = highlight_matches(&m, "a foo b foo").unwrap();
    assert_eq!(r, painted(&[("a ", false), ("foo", true), (" b ", false), ("foo", true)]));
}

#[test]
fn marking_keeps_multibyte_text() {
    let m = Matcher::new("é", false).ok().unwrap();
    let r = highlight_matches(&m, "caférosé").unwrap();
    assert_eq!(r, painted(&[("caf", false), ("é", true), ("ros", false), ("é", true)]));
}

#[test]
fn stripping_markup_gives_the_line_back() {
    let line = b"one two three";
    let r = highlight_spans(line, &vec![(0, 3), (4, 7)]).unwrap();
    let text = String::from_utf8(r).unwrap();
    let stripped = text.replace("\x1b[35m", "").replace("\x1b[0m", "");
    assert_eq!(stripped.as_bytes(), &line[..]);
    assert_eq!(highlight_spans(line, &vec![]), None);
}

#[test]
fn search_numbers_matching_lines() {
    let m = Matcher::new("x", false).ok().unwrap();
    let found = search_content(&m, "ax\nno\r\nxx\n");
    assert_eq!(found.len(), 2);
    assert_eq!(found[0].number, 1);
    assert_eq!(found[0].text, painted(&[("a", false), ("x", true)]));
    assert_eq!(found[1].number, 3);
    assert_eq!(found[1].text, painted(&[("x", true), ("x", true)]));
}

#[test]
fn replace_foo_with_bar_then_again() {
    let m = Matcher::new("foo", false).ok().unwrap();
    let mut counter = ChangeCounter::new();
    let first = apply_replacement(&m, "foo foo", "bar");
    assert_eq!(first.content, "bar bar");
    assert!(first.changed);
    counter.record(first.changed);
    assert_eq!(counter.count, 1);
    assert_eq!(counter.summary(), "1 files changed");

    let mut again = ChangeCounter::new();
    let second = apply_replacement(&m, &first.content, "bar");
    assert_eq!(second.content, "bar bar");
    assert!(!second.changed);
    again.record(second.changed);
    assert_eq!(again.summary(), "No files changed");
}

#[test]
fn replacement_expands_groups() {
    let m = Matcher::new(r"(\w+)@(\w+)", false).ok().unwrap();
    let r = apply_replacement(&m, "me@home", "$2 at $1");
    assert_eq!(r.content, "home at me");
    assert!(r.changed);
}

#[test]
fn replacement_by_same_text_is_no_change() {
    let m = Matcher::new("foo", false).ok().unwrap();
    let r = apply_replacement(&m, "foo", "foo");
    assert!(!r.changed);
}

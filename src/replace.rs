//! Rewriting a whole file's content and counting the files that changed.
use vstd::prelude::*;
use crate::matcher::{Matcher, match_spans, replaced_all};

verus! {

/// The content after replacement and whether it differs from before.
pub struct Replacement {
    pub content: String,
    pub changed: bool,
}

/// Replaces every match of `m` in `content` by `template`, over the whole
/// content at once. `changed` tells whether the result differs from
/// `content`; content with no match comes back as it was, unchanged, so a
/// second run over content that the first run left without a match changes
/// nothing.
pub fn apply_replacement(m: &Matcher, content: &str, template: &str) -> (r: Replacement)
    ensures
        r.content@ == replaced_all(m.pattern(), m.case_insensitive(), content@, template@),
        r.changed == (r.content@ != content@),
        match_spans(m.pattern(), m.case_insensitive(), content@).len() == 0 ==> !r.changed
            && r.content@ == content@,
{
    let new_content = m.replace_all(content, template);
    let before = content.to_owned();
    let same = new_content == before;
    Replacement { content: new_content, changed: !same }
}

} // verus!

//! Which entries of a directory walk are descended into or visited.
use vstd::prelude::*;

verus! {

/// Index at which the last `/`-separated piece of `p` starts.
pub open spec fn name_start(p: Seq<char>) -> int
    decreases p.len(),
{
    if p.len() == 0 {
        0
    } else if p.last() == '/' {
        p.len() as int
    } else {
        name_start(p.drop_last())
    }
}

/// True when `p` is `..` or ends in `/..`.
pub open spec fn ends_in_parent(p: Seq<char>) -> bool {
    p.len() >= 2 && p[p.len() - 1] == '.' && p[p.len() - 2] == '.' && (p.len() == 2
        || p[p.len() - 3] == '/')
}

/// The final component of a Unix path, as `Path::file_name` gives it:
/// trailing separators and trailing `.` components are ignored, and a path
/// that is empty, a root, `.` or ends in `..` has none.
pub open spec fn file_name(p: Seq<char>) -> Option<Seq<char>>
    decreases p.len(),
{
    if p.len() == 0 {
        None
    } else if p.last() == '/' {
        file_name(p.drop_last())
    } else if p.last() == '.' && p.len() >= 2 && p[p.len() - 2] == '/' {
        file_name(p.drop_last())
    } else if p =~= seq!['.'] || ends_in_parent(p) {
        None
    } else {
        Some(p.subrange(name_start(p), p.len() as int))
    }
}

/// A path is hidden when its final component starts with a dot.
pub open spec fn is_hidden_path(p: Seq<char>) -> bool {
    match file_name(p) {
        Some(n) => n.len() > 0 && n[0] == '.',
        None => false,
    }
}

proof fn lemma_name_start_at_separator(p: Seq<char>, k: int)
    requires
        0 <= k <= p.len(),
        k == 0 || p[k - 1] == '/',
        forall|j: int| k <= j < p.len() ==> p[j] != '/',
    ensures
        name_start(p) == k,
    decreases p.len(),
{
    if p.len() > k {
        assert(p.drop_last().len() == p.len() - 1);
        lemma_name_start_at_separator(p.drop_last(), k);
    } else if k > 0 {
    }
}

/// The final component of `path`, if it has one.
pub fn basename(path: &str) -> (r: Option<String>)
    ensures
        match r {
            Some(n) => file_name(path@) == Some(n@),
            None => file_name(path@).is_none(),
        },
{
    let n: usize = path.unicode_len();
    let mut end: usize = n;
    assert(path@.subrange(0, n as int) =~= path@);
    loop
        invariant
            end <= n,
            n == path@.len(),
            file_name(path@) == file_name(path@.subrange(0, end as int)),
        decreases end,
    {
        let ghost p = path@.subrange(0, end as int);
        if end == 0 {
            return None;
        }
        let last = path.get_char(end - 1);
        if last == '/' {
            assert(p.drop_last() =~= path@.subrange(0, end - 1));
            end = end - 1;
        } else if last == '.' && end >= 2 && path.get_char(end - 2) == '/' {
            assert(p.drop_last() =~= path@.subrange(0, end - 1));
            end = end - 1;
        } else if last == '.' && end == 1 {
            assert(p =~= seq!['.']);
            return None;
        } else if last == '.' && path.get_char(end - 2) == '.' && (end == 2 || path.get_char(
            end - 3,
        ) == '/') {
            assert(ends_in_parent(p));
            return None;
        } else {
            let mut k: usize = end;
            while k > 0 && path.get_char(k - 1) != '/'
                invariant
                    k <= end <= n,
                    n == path@.len(),
                    forall|j: int| k <= j < end ==> path@[j] != '/',
                decreases k,
            {
                k = k - 1;
            }
            assert(!(p =~= seq!['.']));
            proof {
                lemma_name_start_at_separator(p, k as int);
            }
            let name = path.substring_char(k, end);
            assert(p.subrange(k as int, end as int) =~= path@.subrange(k as int, end as int));
            return Some(name.to_string());
        }
    }
}

/// Whether the final component of `path` starts with a dot.
pub fn is_hidden(path: &str) -> (r: bool)
    ensures
        r == is_hidden_path(path@),
{
    match basename(path) {
        Some(name) => {
            let len = name.as_str().unicode_len();
            len > 0 && name.as_str().get_char(0) == '.'
        },
        None => false,
    }
}

/// One entry met during a directory walk.
pub struct Candidate {
    pub path: String,
    pub is_file: bool,
    pub is_dir: bool,
}

/// Whether the walk keeps `c`: regular files always, anything else only
/// when it is not hidden. Hidden directories are therefore pruned, with
/// everything below them.
pub open spec fn entry_included(c: Candidate) -> bool {
    c.is_file || !is_hidden_path(c.path@)
}

/// Decides whether the walk descends into or visits `entry`.
pub fn include_entry(entry: &Candidate) -> (r: bool)
    ensures
        r == entry_included(*entry),
{
    entry.is_file || !is_hidden(entry.path.as_str())
}

/// A hidden regular file is still visited, while a hidden entry that is not
/// a regular file, such as a directory, is pruned.
pub proof fn lemma_hidden_files_kept_hidden_dirs_pruned(c: Candidate)
    ensures
        c.is_file ==> entry_included(c),
        !c.is_file && is_hidden_path(c.path@) ==> !entry_included(c),
{
}

} // verus!

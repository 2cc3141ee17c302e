//! The root paths a run walks: those given, or those the version control
//! system tracks.
use vstd::prelude::*;
use crate::search::{lines_of, split_lines};

verus! {

/// No path was given and the version control system named none.
#[derive(PartialEq, Eq, Structural, Clone, Copy, Debug)]
pub struct NoInputFiles;

pub open spec fn views(v: Seq<String>) -> Seq<Seq<char>> {
    v.map_values(|s: String| s@)
}

/// The paths listed by the version control system, one per line of its
/// output, taken as they are.
pub fn vcs_paths(listing: &str) -> (r: Vec<String>)
    ensures
        views(r@) == lines_of(listing@),
{
    let r = split_lines(listing);
    assert(views(r@) =~= lines_of(listing@));
    r
}

/// The roots to walk: `given` when it is not empty; otherwise what the
/// version control system listed, which must have succeeded and named at
/// least one path.
pub fn list_roots(given: Vec<String>, listed: Option<Vec<String>>) -> (r: Result<
    Vec<String>,
    NoInputFiles,
>)
    ensures
        given@.len() > 0 ==> (r matches Ok(v) && v@ == given@),
        given@.len() == 0 ==> match listed {
            Some(l) => if l@.len() > 0 {
                (r matches Ok(v) && v@ == l@)
            } else {
                r matches Err(_)
            },
            None => r matches Err(_),
        },
{
    if given.len() > 0 {
        return Ok(given);
    }
    match listed {
        Some(l) => if l.len() > 0 {
            Ok(l)
        } else {
            Err(NoInputFiles)
        },
        None => Err(NoInputFiles),
    }
}

} // verus!

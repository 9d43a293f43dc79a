//! Versions of page content.
//!
//! Every edit of a page adds a new content version; the newest version is
//! the one shown.
use vstd::prelude::*;

verus! {

/// The version number for new content of a page whose newest content has
/// version `current` (`None`: the page has no content yet).
pub open spec fn next_version_spec(current: Option<i32>) -> int {
    match current {
        Some(v) => v + 1,
        None => 1,
    }
}

/// The version number to give new content of a page: one more than the
/// newest version, or 1 for the first content.
pub fn next_content_version(current: Option<i32>) -> (r: i32)
    requires
        next_version_spec(current) <= i32::MAX,
    ensures
        r == next_version_spec(current),
        current matches Some(v) ==> r == v + 1,
        current is None ==> r == 1,
{
    let v: i32 = match current {
        Some(v) => v,
        None => 0,
    };
    v + 1
}

/// A new version comes right after the newest one, so the newest content
/// is always the last one added and the versions of a page count 1, 2, 3
/// and so on without gaps.
pub proof fn lemma_next_version_is_newest(current: Option<i32>)
    ensures
        current matches Some(v) ==> next_version_spec(current) > v,
        current matches Some(v) ==> next_version_spec(current) == v + 1,
        current is None ==> next_version_spec(current) == 1,
{
}

/// Consecutive versions give consecutive next versions: the next version
/// grows by exactly one with the newest version, from 1 for a page without
/// content.
pub proof fn lemma_versions_count_up(v: i32)
    requires
        v >= 1,
    ensures
        next_version_spec(Some(v)) - next_version_spec(Some((v - 1) as i32)) == 1,
        next_version_spec(Some((v - 1) as i32)) == v,
        next_version_spec(None) == 1,
{
}

} // verus!

//! Path filtering: decides whether a relative path is part of the file set,
//! given ordered exclude and include glob pattern lists. Excludes dominate;
//! an empty include list accepts everything.

use vstd::prelude::*;

verus! {

/// Whether `globset::Glob::new` accepts `pattern` as a well-formed glob.
/// Validity depends on the pattern text alone.
pub uninterp spec fn glob_valid(pattern: Seq<char>) -> bool;

/// Whether the glob `pattern` matches `path`, as decided by
/// `globset::GlobMatcher::is_match`. The answer depends on the two strings
/// alone.
pub uninterp spec fn glob_matches(pattern: Seq<char>, path: Seq<char>) -> bool;

/// Relies on `globset::Glob::new`, which accepts or rejects a pattern from its
/// text alone, and on `globset::GlobMatcher::is_match` (by way of
/// `Glob::compile_matcher`), which matches a path against the compiled
/// pattern.
#[verifier::external_body]
fn glob_match(pattern: &str, path: &str) -> (r: Option<bool>)
    ensures
        r is Some <==> glob_valid(pattern@),
        r matches Some(m) ==> m == glob_matches(pattern@, path@),
{
    match globset::Glob::new(pattern) {
        Ok(glob) => Some(glob.compile_matcher().is_match(path)),
        Err(_) => None,
    }
}

/// The views of a list of pattern strings.
pub open spec fn views_of(patterns: Seq<&str>) -> Seq<Seq<char>> {
    patterns.map_values(|p: &str| p@)
}

/// Every pattern in the list is a well-formed glob.
pub open spec fn all_patterns_valid(patterns: Seq<Seq<char>>) -> bool {
    forall|i: int| 0 <= i < patterns.len() ==> glob_valid(#[trigger] patterns[i])
}

/// At least one pattern in the list matches `path`.
pub open spec fn matches_any(patterns: Seq<Seq<char>>, path: Seq<char>) -> bool {
    exists|i: int| 0 <= i < patterns.len() && glob_matches(#[trigger] patterns[i], path)
}

/// The filtering rule: a path matching any exclude pattern is out, whatever
/// the includes say; with no include patterns every remaining path is in;
/// otherwise a path is in exactly when some include pattern matches it.
pub open spec fn spec_path_included(
    path: Seq<char>,
    includes: Seq<Seq<char>>,
    excludes: Seq<Seq<char>>,
) -> bool {
    if matches_any(excludes, path) {
        false
    } else if includes.len() == 0 {
        true
    } else {
        matches_any(includes, path)
    }
}

/// Checks that every pattern in the list is a well-formed glob.
pub fn patterns_valid(patterns: &[&str]) -> (r: bool)
    ensures
        r == all_patterns_valid(views_of(patterns@)),
{
    let mut i: usize = 0;
    while i < patterns.len()
        invariant
            0 <= i <= patterns@.len(),
            forall|j: int| 0 <= j < i ==> glob_valid(#[trigger] patterns@[j]@),
        decreases patterns@.len() - i,
    {
        if glob_match(patterns[i], "").is_none() {
            assert(!glob_valid(views_of(patterns@)[i as int]));
            return false;
        }
        i += 1;
    }
    assert forall|i: int| 0 <= i < views_of(patterns@).len() implies glob_valid(
        #[trigger] views_of(patterns@)[i],
    ) by {
        assert(glob_valid(patterns@[i]@));
    }
    true
}

/// Decides inclusion of `rel_path` under the given patterns. An invalid
/// pattern is a configuration error, which this function leaves out by
/// precondition; `try_is_path_included` reports it instead.
pub fn is_path_included(rel_path: &str, includes: &[&str], excludes: &[&str]) -> (r: bool)
    requires
        all_patterns_valid(views_of(includes@)),
        all_patterns_valid(views_of(excludes@)),
    ensures
        r == spec_path_included(rel_path@, views_of(includes@), views_of(excludes@)),
{
    let ghost inc_views = views_of(includes@);
    let ghost exc_views = views_of(excludes@);
    let mut i: usize = 0;
    while i < excludes.len()
        invariant
            0 <= i <= excludes@.len(),
            all_patterns_valid(exc_views),
            exc_views == views_of(excludes@),
            forall|j: int| 0 <= j < i ==> !glob_matches(#[trigger] exc_views[j], rel_path@),
        decreases excludes@.len() - i,
    {
        assert(glob_valid(exc_views[i as int]));
        let m = glob_match(excludes[i], rel_path);
        if m.unwrap() {
            assert(matches_any(exc_views, rel_path@));
            return false;
        }
        i += 1;
    }
    assert(!matches_any(exc_views, rel_path@));
    if includes.len() == 0 {
        return true;
    }
    let mut i: usize = 0;
    while i < includes.len()
        invariant
            0 <= i <= includes@.len(),
            all_patterns_valid(inc_views),
            inc_views == views_of(includes@),
            !matches_any(exc_views, rel_path@),
            exc_views == views_of(excludes@),
            forall|j: int| 0 <= j < i ==> !glob_matches(#[trigger] inc_views[j], rel_path@),
        decreases includes@.len() - i,
    {
        assert(glob_valid(inc_views[i as int]));
        let m = glob_match(includes[i], rel_path);
        if m.unwrap() {
            assert(matches_any(inc_views, rel_path@));
            return true;
        }
        i += 1;
    }
    assert(!matches_any(inc_views, rel_path@));
    false
}

/// Decides inclusion of `rel_path`, reporting an invalid pattern as `None`
/// rather than demanding valid patterns up front.
pub fn try_is_path_included(rel_path: &str, includes: &[&str], excludes: &[&str]) -> (r: Option<
    bool,
>)
    ensures
        r is Some <==> all_patterns_valid(views_of(includes@)) && all_patterns_valid(
            views_of(excludes@),
        ),
        r matches Some(m) ==> m == spec_path_included(
            rel_path@,
            views_of(includes@),
            views_of(excludes@),
        ),
{
    if patterns_valid(includes) && patterns_valid(excludes) {
        Some(is_path_included(rel_path, includes, excludes))
    } else {
        None
    }
}

} // verus!

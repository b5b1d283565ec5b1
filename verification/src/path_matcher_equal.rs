use crate::components::components;
use crate::components::same_path;
use crate::PathMatcher;
use vstd::prelude::*;

verus! {

/// Matches exactly the paths that denote the same path as the stored one.
pub struct PathMatcherEqual(pub String);

impl PathMatcher for PathMatcherEqual {
    open spec fn wf(&self) -> bool {
        true
    }

    open spec fn match_rel(&self, path: &str, r: bool) -> bool {
        r == (components(path@) == components(self.0@))
    }

    fn matches(&self, path: &str) -> (r: bool) {
        same_path(path, self.0.as_str())
    }
}

/// Checks a path for exact match.
pub fn equal(path: &str) -> (m: PathMatcherEqual)
    ensures
        m.wf(),
        m.0@ == path@,
{
    PathMatcherEqual(path.to_owned())
}

/// An equality matcher accepts the very path it was built from.
pub proof fn lemma_equal_matches_self(m: PathMatcherEqual, p: &str, r: bool)
    requires
        m.0@ == p@,
        m.match_rel(p, r),
    ensures
        r,
{
}

/// An equality matcher rejects every path whose components differ from
/// those of the path it was built from.
pub proof fn lemma_equal_rejects_other(m: PathMatcherEqual, q: &str, r: bool)
    requires
        components(m.0@) != components(q@),
        m.match_rel(q, r),
    ensures
        !r,
{
}

} // verus!

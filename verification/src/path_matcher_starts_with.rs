use crate::components::components;
use crate::components::path_has_prefix;
use crate::PathMatcher;
use vstd::prelude::*;

verus! {

/// Matches exactly the paths that the stored path is a component-wise
/// prefix of.
pub struct PathMatcherStartsWith(pub String);

impl PathMatcher for PathMatcherStartsWith {
    open spec fn wf(&self) -> bool {
        true
    }

    open spec fn match_rel(&self, path: &str, r: bool) -> bool {
        r == components(self.0@).is_prefix_of(components(path@))
    }

    fn matches(&self, path: &str) -> (r: bool) {
        path_has_prefix(path, self.0.as_str())
    }
}

/// Checks a path starts with another path, whole component by component:
/// `a/b` starts `a/b/c` but not `a/bc`.
pub fn starts_with(p: &str) -> (m: PathMatcherStartsWith)
    ensures
        m.wf(),
        m.0@ == p@,
{
    PathMatcherStartsWith(p.to_owned())
}

} // verus!

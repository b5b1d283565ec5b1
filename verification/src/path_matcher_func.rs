use crate::PathMatcher;
use vstd::prelude::*;

verus! {

/// Wraps an arbitrary predicate over path strings as a matcher: the escape
/// hatch for conditions the other matchers cannot express. The predicate
/// alone decides the result, so `match_rel` only passes on what is known of
/// the predicate's possible results.
pub struct PathMatcherFunc<F: Fn(&str) -> bool>(pub F);

impl<F: Fn(&str) -> bool> PathMatcher for PathMatcherFunc<F> {
    open spec fn wf(&self) -> bool {
        forall|args: (&str,)| #[trigger] call_requires(self.0, args)
    }

    open spec fn match_rel(&self, path: &str, r: bool) -> bool {
        call_ensures(self.0, (path,), r)
    }

    fn matches(&self, path: &str) -> (r: bool) {
        assert(call_requires(self.0, (path,)));
        (self.0)(path)
    }
}

/// Creates matcher based on function.
pub fn func<F: Fn(&str) -> bool>(f: F) -> (m: PathMatcherFunc<F>)
    ensures
        m.0 == f,
{
    PathMatcherFunc(f)
}

} // verus!

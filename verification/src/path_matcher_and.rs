use crate::PathMatcher;
use vstd::prelude::*;

verus! {

/// Checks both matchers are true.
pub fn and<L: PathMatcher, R: PathMatcher>(left: L, right: R) -> (m: PathMatcherAnd<L, R>)
    ensures
        m.0 == left,
        m.1 == right,
{
    PathMatcherAnd(left, right)
}

/// Conjunction of two matchers; the right one is consulted only when the
/// left one matched.
pub struct PathMatcherAnd<L: PathMatcher, R: PathMatcher>(pub L, pub R);

impl<L: PathMatcher, R: PathMatcher> PathMatcher for PathMatcherAnd<L, R> {
    open spec fn wf(&self) -> bool {
        self.0.wf() && self.1.wf()
    }

    open spec fn match_rel(&self, path: &str, r: bool) -> bool {
        ||| (!r && self.0.match_rel(path, false))
        ||| (self.0.match_rel(path, true) && self.1.match_rel(path, r))
    }

    fn matches(&self, path: &str) -> (r: bool) {
        self.0.matches(path) && self.1.matches(path)
    }
}

/// Truth table of the conjunction: when each child pins its result to one
/// boolean, the conjunction pins its result to their `&&`.
pub proof fn lemma_and_truth_table<L: PathMatcher, R: PathMatcher>(
    m: PathMatcherAnd<L, R>,
    path: &str,
    a: bool,
    b: bool,
    r: bool,
)
    requires
        forall|x: bool| #[trigger] m.0.match_rel(path, x) == (x == a),
        forall|x: bool| #[trigger] m.1.match_rel(path, x) == (x == b),
        m.match_rel(path, r),
    ensures
        r == (a && b),
{
}

} // verus!

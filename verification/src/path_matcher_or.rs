use crate::PathMatcher;
use vstd::prelude::*;

verus! {

/// Checks at least one of two matchers is true.
pub fn or<L: PathMatcher, R: PathMatcher>(left: L, right: R) -> (m: PathMatcherOr<L, R>)
    ensures
        m.0 == left,
        m.1 == right,
{
    PathMatcherOr(left, right)
}

/// Disjunction of two matchers; the right one is consulted only when the
/// left one did not match.
pub struct PathMatcherOr<L: PathMatcher, R: PathMatcher>(pub L, pub R);

impl<L: PathMatcher, R: PathMatcher> PathMatcher for PathMatcherOr<L, R> {
    open spec fn wf(&self) -> bool {
        self.0.wf() && self.1.wf()
    }

    open spec fn match_rel(&self, path: &str, r: bool) -> bool {
        ||| (r && self.0.match_rel(path, true))
        ||| (self.0.match_rel(path, false) && self.1.match_rel(path, r))
    }

    fn matches(&self, path: &str) -> (r: bool) {
        self.0.matches(path) || self.1.matches(path)
    }
}

/// Truth table of the disjunction: when each child pins its result to one
/// boolean, the disjunction pins its result to their `||`.
pub proof fn lemma_or_truth_table<L: PathMatcher, R: PathMatcher>(
    m: PathMatcherOr<L, R>,
    path: &str,
    a: bool,
    b: bool,
    r: bool,
)
    requires
        forall|x: bool| #[trigger] m.0.match_rel(path, x) == (x == a),
        forall|x: bool| #[trigger] m.1.match_rel(path, x) == (x == b),
        m.match_rel(path, r),
    ensures
        r == (a || b),
{
}

} // verus!

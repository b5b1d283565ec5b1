use crate::PathMatcher;
use vstd::prelude::*;

verus! {

/// Negates one inner matcher.
pub struct PathMatcherNot<A: PathMatcher>(pub A);

impl<A: PathMatcher> PathMatcher for PathMatcherNot<A> {
    open spec fn wf(&self) -> bool {
        self.0.wf()
    }

    open spec fn match_rel(&self, path: &str, r: bool) -> bool {
        self.0.match_rel(path, !r)
    }

    fn matches(&self, path: &str) -> (r: bool) {
        !self.0.matches(path)
    }
}

/// Reverts the match condition of the underlying matcher.
pub fn not<A: PathMatcher>(matcher: A) -> (m: PathMatcherNot<A>)
    ensures
        m.0 == matcher,
{
    PathMatcherNot(matcher)
}

/// Double negation returns to the original result: `not(not(m))` relates a
/// path to exactly the results that `m` relates it to. It still evaluates
/// `m` through both negations when matching, so any effect of a
/// function-backed matcher happens as often as without the negations.
pub proof fn lemma_not_involution<A: PathMatcher>(
    m: PathMatcherNot<PathMatcherNot<A>>,
    path: &str,
    r: bool,
)
    ensures
        m.match_rel(path, r) == m.0.0.match_rel(path, r),
{
}

} // verus!

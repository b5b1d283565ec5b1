use crate::path_matcher_and::PathMatcherAnd;
use crate::path_matcher_equal::PathMatcherEqual;
use crate::path_matcher_glob::PathMatcherGlob;
use crate::path_matcher_not::PathMatcherNot;
use crate::path_matcher_or::PathMatcherOr;
use crate::path_matcher_starts_with::PathMatcherStartsWith;
use crate::PathMatcher;
use vstd::prelude::*;

verus! {

/// A matcher in uniformly-typed, owning form, usable where heterogeneous
/// matchers must be stored together, as in [`crate::any_of`]'s collection.
pub enum BoxedPathMatcher {
    /// An exact-equality matcher.
    Equal(PathMatcherEqual),
    /// A component-wise prefix matcher.
    StartsWith(PathMatcherStartsWith),
    /// A glob matcher.
    Glob(PathMatcherGlob),
    /// A negation of one matcher.
    Not(Box<BoxedPathMatcher>),
    /// A short-circuiting conjunction of two matchers.
    And(Box<BoxedPathMatcher>, Box<BoxedPathMatcher>),
    /// A short-circuiting disjunction of two matchers.
    Or(Box<BoxedPathMatcher>, Box<BoxedPathMatcher>),
    /// A short-circuiting disjunction over any number of matchers.
    Any(Vec<BoxedPathMatcher>),
}

/// The structural invariant of a boxed matcher: every matcher in the tree
/// is well formed.
pub open spec fn boxed_wf(m: BoxedPathMatcher) -> bool
    decreases m,
{
    match m {
        BoxedPathMatcher::Equal(e) => e.wf(),
        BoxedPathMatcher::StartsWith(s) => s.wf(),
        BoxedPathMatcher::Glob(g) => g.wf(),
        BoxedPathMatcher::Not(inner) => boxed_wf(*inner),
        BoxedPathMatcher::And(l, r) => boxed_wf(*l) && boxed_wf(*r),
        BoxedPathMatcher::Or(l, r) => boxed_wf(*l) && boxed_wf(*r),
        BoxedPathMatcher::Any(ms) => forall|i: int|
            0 <= i < ms@.len() ==> boxed_wf(#[trigger] ms@[i]),
    }
}

/// Relates a path to the results a boxed matcher may return for it, with
/// the same left-to-right short-circuit reading as the concrete matchers.
pub open spec fn boxed_match_rel(m: BoxedPathMatcher, path: &str, r: bool) -> bool
    decreases m, 0int,
{
    match m {
        BoxedPathMatcher::Equal(e) => e.match_rel(path, r),
        BoxedPathMatcher::StartsWith(s) => s.match_rel(path, r),
        BoxedPathMatcher::Glob(g) => g.match_rel(path, r),
        BoxedPathMatcher::Not(inner) => boxed_match_rel(*inner, path, !r),
        BoxedPathMatcher::And(l, r2) => {
            ||| (!r && boxed_match_rel(*l, path, false))
            ||| (boxed_match_rel(*l, path, true) && boxed_match_rel(*r2, path, r))
        },
        BoxedPathMatcher::Or(l, r2) => {
            ||| (r && boxed_match_rel(*l, path, true))
            ||| (boxed_match_rel(*l, path, false) && boxed_match_rel(*r2, path, r))
        },
        BoxedPathMatcher::Any(ms) => any_seq_rel(ms@, path, r),
    }
}

/// Relates a path to the results of the left-to-right short-circuiting
/// disjunction of a sequence of boxed matchers: the first one to yield true
/// decides, and an empty sequence yields only false.
pub open spec fn any_seq_rel(ms: Seq<BoxedPathMatcher>, path: &str, r: bool) -> bool
    decreases ms, 1int,
{
    if ms.len() == 0 {
        r == false
    } else {
        ||| (r && boxed_match_rel(ms[0], path, true))
        ||| (boxed_match_rel(ms[0], path, false) && any_seq_rel(
            ms.subrange(1, ms.len() as int),
            path,
            r,
        ))
    }
}

/// The invariant of a stored collection of boxed matchers.
pub open spec fn boxed_seq_wf(ms: Seq<BoxedPathMatcher>) -> bool {
    forall|i: int| 0 <= i < ms.len() ==> boxed_wf(#[trigger] ms[i])
}

/// A sequence whose first `i` matchers all yielded false relates a path to
/// a result exactly as the rest of the sequence does.
pub proof fn lemma_any_seq_rel_skip(ms: Seq<BoxedPathMatcher>, path: &str, i: int, r: bool)
    requires
        0 <= i <= ms.len(),
        forall|j: int| 0 <= j < i ==> boxed_match_rel(#[trigger] ms[j], path, false),
        any_seq_rel(ms.skip(i), path, r),
    ensures
        any_seq_rel(ms, path, r),
    decreases i,
{
    if i == 0 {
        assert(ms.skip(0) =~= ms);
    } else {
        let tail = ms.skip(1);
        assert(tail.skip(i - 1) =~= ms.skip(i));
        assert(forall|j: int| 0 <= j < i - 1 ==> boxed_match_rel(#[trigger] tail[j], path, false));
        lemma_any_seq_rel_skip(tail, path, i - 1, r);
        assert(ms.subrange(1, ms.len() as int) =~= tail);
        assert(boxed_match_rel(ms[0], path, false));
        assert(any_seq_rel(ms, path, r));
    }
}

fn boxed_matches(m: &BoxedPathMatcher, path: &str) -> (r: bool)
    requires
        boxed_wf(*m),
    ensures
        boxed_match_rel(*m, path, r),
    decreases *m,
{
    match m {
        BoxedPathMatcher::Equal(e) => e.matches(path),
        BoxedPathMatcher::StartsWith(s) => s.matches(path),
        BoxedPathMatcher::Glob(g) => g.matches(path),
        BoxedPathMatcher::Not(inner) => !boxed_matches(inner, path),
        BoxedPathMatcher::And(l, r2) => boxed_matches(l, path) && boxed_matches(r2, path),
        BoxedPathMatcher::Or(l, r2) => boxed_matches(l, path) || boxed_matches(r2, path),
        BoxedPathMatcher::Any(ms) => {
            let mut i: usize = 0;
            while i < ms.len()
                invariant
                    i <= ms@.len(),
                    boxed_wf(*m),
                    m is Any && m->Any_0 == *ms,
                    forall|j: int| 0 <= j < i ==> boxed_match_rel(#[trigger] ms@[j], path, false),
                decreases ms@.len() - i,
            {
                if boxed_matches(&ms[i], path) {
                    proof {
                        assert(ms@.skip(i as int)[0] == ms@[i as int]);
                        assert(any_seq_rel(ms@.skip(i as int), path, true));
                        lemma_any_seq_rel_skip(ms@, path, i as int, true);
                    }
                    return true;
                }
                i = i + 1;
            }
            proof {
                assert(ms@.skip(ms@.len() as int) =~= Seq::<BoxedPathMatcher>::empty());
                assert(any_seq_rel(ms@.skip(ms@.len() as int), path, false));
                lemma_any_seq_rel_skip(ms@, path, ms@.len() as int, false);
            }
            false
        },
    }
}

impl PathMatcher for BoxedPathMatcher {
    open spec fn wf(&self) -> bool {
        boxed_wf(*self)
    }

    open spec fn match_rel(&self, path: &str, r: bool) -> bool {
        boxed_match_rel(*self, path, r)
    }

    fn matches(&self, path: &str) -> (r: bool) {
        boxed_matches(self, path)
    }
}

/// Conversion of a concrete matcher into the uniformly-typed
/// [`BoxedPathMatcher`] form. The conversion owns the matcher afterwards
/// and preserves its match semantics exactly. A function-backed matcher
/// owns an arbitrary predicate, which no erased form can carry, so it is
/// the one matcher without this conversion.
pub trait Boxable: PathMatcher {
    /// Converts this matcher to boxed representation.
    ///
    /// Can be used for [`crate::any_of`].
    fn boxed(self) -> (r: BoxedPathMatcher)
        ensures
            self.wf() ==> r.wf(),
            forall|path: &str, b: bool| #[trigger] r.match_rel(path, b) == self.match_rel(
                path,
                b,
            ),
    ;
}

impl Boxable for PathMatcherEqual {
    fn boxed(self) -> (r: BoxedPathMatcher) {
        BoxedPathMatcher::Equal(self)
    }
}

impl Boxable for PathMatcherStartsWith {
    fn boxed(self) -> (r: BoxedPathMatcher) {
        BoxedPathMatcher::StartsWith(self)
    }
}

impl Boxable for PathMatcherGlob {
    fn boxed(self) -> (r: BoxedPathMatcher) {
        BoxedPathMatcher::Glob(self)
    }
}

impl<A: Boxable> Boxable for PathMatcherNot<A> {
    fn boxed(self) -> (r: BoxedPathMatcher) {
        let inner = self.0.boxed();
        let r = BoxedPathMatcher::Not(Box::new(inner));
        proof {
            assert forall|path: &str, b: bool| #[trigger] r.match_rel(path, b) == self.match_rel(
                path,
                b,
            ) by {
                assert(inner.match_rel(path, !b) == self.0.match_rel(path, !b));
            }
        }
        r
    }
}

impl<L: Boxable, R: Boxable> Boxable for PathMatcherAnd<L, R> {
    fn boxed(self) -> (r: BoxedPathMatcher) {
        let bl = self.0.boxed();
        let br = self.1.boxed();
        let r = BoxedPathMatcher::And(Box::new(bl), Box::new(br));
        proof {
            assert forall|path: &str, b: bool| #[trigger] r.match_rel(path, b) == self.match_rel(
                path,
                b,
            ) by {
                assert(bl.match_rel(path, true) == self.0.match_rel(path, true));
                assert(bl.match_rel(path, false) == self.0.match_rel(path, false));
                assert(br.match_rel(path, b) == self.1.match_rel(path, b));
            }
        }
        r
    }
}

impl<L: Boxable, R: Boxable> Boxable for PathMatcherOr<L, R> {
    fn boxed(self) -> (r: BoxedPathMatcher) {
        let bl = self.0.boxed();
        let br = self.1.boxed();
        let r = BoxedPathMatcher::Or(Box::new(bl), Box::new(br));
        proof {
            assert forall|path: &str, b: bool| #[trigger] r.match_rel(path, b) == self.match_rel(
                path,
                b,
            ) by {
                assert(bl.match_rel(path, true) == self.0.match_rel(path, true));
                assert(bl.match_rel(path, false) == self.0.match_rel(path, false));
                assert(br.match_rel(path, b) == self.1.match_rel(path, b));
            }
        }
        r
    }
}

impl Boxable for BoxedPathMatcher {
    fn boxed(self) -> (r: BoxedPathMatcher) {
        self
    }
}

} // verus!

use crate::path_matcher_boxed::any_seq_rel;
use crate::path_matcher_boxed::boxed_match_rel;
use crate::path_matcher_boxed::boxed_seq_wf;
use crate::path_matcher_boxed::lemma_any_seq_rel_skip;
use crate::path_matcher_boxed::Boxable;
use crate::path_matcher_boxed::BoxedPathMatcher;
use crate::PathMatcher;
use vstd::prelude::*;

verus! {

/// Checks any of matchers in the collection is true, in the given order.
pub fn any_of(matchers: Vec<BoxedPathMatcher>) -> (m: PathMatcherAny)
    ensures
        m.0@ == matchers@,
{
    PathMatcherAny(matchers)
}

/// Disjunction over a runtime-sized collection of boxed matchers, consulted
/// left to right with short-circuiting; an empty collection matches no
/// path.
pub struct PathMatcherAny(pub Vec<BoxedPathMatcher>);

impl PathMatcher for PathMatcherAny {
    open spec fn wf(&self) -> bool {
        boxed_seq_wf(self.0@)
    }

    open spec fn match_rel(&self, path: &str, r: bool) -> bool {
        any_seq_rel(self.0@, path, r)
    }

    fn matches(&self, path: &str) -> (r: bool) {
        let mut i: usize = 0;
        while i < self.0.len()
            invariant
                i <= self.0@.len(),
                boxed_seq_wf(self.0@),
                forall|j: int| 0 <= j < i ==> boxed_match_rel(#[trigger] self.0@[j], path, false),
            decreases self.0@.len() - i,
        {
            if self.0[i].matches(path) {
                proof {
                    assert(self.0@.skip(i as int)[0] == self.0@[i as int]);
                    assert(any_seq_rel(self.0@.skip(i as int), path, true));
                    lemma_any_seq_rel_skip(self.0@, path, i as int, true);
                }
                return true;
            }
            i = i + 1;
        }
        proof {
            assert(self.0@.skip(self.0@.len() as int) =~= Seq::<BoxedPathMatcher>::empty());
            assert(any_seq_rel(self.0@.skip(self.0@.len() as int), path, false));
            lemma_any_seq_rel_skip(self.0@, path, self.0@.len() as int, false);
        }
        false
    }
}

impl Boxable for PathMatcherAny {
    fn boxed(self) -> (r: BoxedPathMatcher) {
        BoxedPathMatcher::Any(self.0)
    }
}

/// An empty dynamic any-of is a vacuous non-match: none of zero
/// alternatives matched.
pub proof fn lemma_any_of_empty(m: PathMatcherAny, path: &str, r: bool)
    requires
        m.0@.len() == 0,
        m.match_rel(path, r),
    ensures
        !r,
{
}

proof fn lemma_any_seq_disjunction(ms: Seq<BoxedPathMatcher>, path: &str, bs: Seq<bool>, r: bool)
    requires
        bs.len() == ms.len(),
        forall|i: int, x: bool|
            0 <= i < ms.len() ==> (#[trigger] boxed_match_rel(ms[i], path, x) == (x == bs[i])),
        any_seq_rel(ms, path, r),
    ensures
        r == (exists|i: int| 0 <= i < bs.len() && bs[i]),
    decreases ms.len(),
{
    if ms.len() == 0 {
        assert(!(exists|i: int| 0 <= i < bs.len() && bs[i]));
    } else {
        let tail = ms.subrange(1, ms.len() as int);
        let tbs = bs.subrange(1, bs.len() as int);
        assert(boxed_match_rel(ms[0], path, bs[0]));
        if r && boxed_match_rel(ms[0], path, true) {
            assert(bs[0]);
            assert(0 <= 0 < bs.len() && bs[0]);
        } else {
            assert(boxed_match_rel(ms[0], path, false) && any_seq_rel(tail, path, r));
            assert(!bs[0]);
            assert forall|i: int, x: bool|
                0 <= i < tail.len() implies (#[trigger] boxed_match_rel(tail[i], path, x) == (x
                == tbs[i])) by {
                assert(tail[i] == ms[i + 1]);
                assert(tbs[i] == bs[i + 1]);
            }
            lemma_any_seq_disjunction(tail, path, tbs, r);
            if r {
                let wi = choose|i: int| 0 <= i < tbs.len() && tbs[i];
                assert(bs[wi + 1]);
            } else {
                assert forall|i: int| 0 <= i < bs.len() implies !bs[i] by {
                    if i > 0 {
                        assert(tbs[i - 1] == bs[i]);
                    }
                }
            }
        }
    }
}

/// Dynamic disjunction: when every stored matcher pins its result to one
/// boolean of the outcome list, the dynamic any-of pins its result to
/// "some outcome in the list is true"; on an empty list that is false.
pub proof fn lemma_any_of_disjunction(m: PathMatcherAny, path: &str, bs: Seq<bool>, r: bool)
    requires
        bs.len() == m.0@.len(),
        forall|i: int, x: bool|
            0 <= i < bs.len() ==> (#[trigger] boxed_match_rel(m.0@[i], path, x) == (x == bs[i])),
        m.match_rel(path, r),
    ensures
        r == (exists|i: int| 0 <= i < bs.len() && bs[i]),
{
    lemma_any_seq_disjunction(m.0@, path, bs, r);
}

/// Checks the one given matcher is true.
pub fn any1<A1: PathMatcher>(a1: A1) -> (m: Any1<A1>)
    ensures
        m.a1 == a1,
{
    Any1 { a1 }
}

/// Disjunction over one matcher: it decides alone.
pub struct Any1<A1: PathMatcher> {
    /// Matcher number 1, consulted first.
    pub a1: A1,
}

impl<A1: PathMatcher> PathMatcher for Any1<A1> {
    open spec fn wf(&self) -> bool {
        self.a1.wf()
    }

    open spec fn match_rel(&self, path: &str, r: bool) -> bool {
        self.a1.match_rel(path, r)
    }

    fn matches(&self, path: &str) -> (r: bool) {
        self.a1.matches(path)
    }
}

/// Fixed-arity disjunction: when each of the one matcher pins its result,
/// the combination pins its result to the disjunction of those booleans,
/// the same value the dynamic any-of yields for the same outcome list.
pub proof fn lemma_any1_disjunction<A1: PathMatcher>(
    m: Any1<A1>,
    path: &str,
    b1: bool,
    r: bool,
)
    requires
        forall|x: bool| #[trigger] m.a1.match_rel(path, x) == (x == b1),
        m.match_rel(path, r),
    ensures
        r == (b1),
{
}

/// Checks any of two matchers is true, left to right with short-circuiting.
pub fn any2<A1: PathMatcher, A2: PathMatcher>(a1: A1, a2: A2) -> (m: Any2<A1, A2>)
    ensures
        m.a1 == a1,
        m.a2 == a2,
{
    Any2 { a1, a2 }
}

/// Disjunction over two matchers of possibly different kinds, consulted
/// left to right with short-circuiting.
pub struct Any2<A1: PathMatcher, A2: PathMatcher> {
    /// Matcher number 1, consulted first.
    pub a1: A1,
    /// Matcher number 2, consulted after the ones before it.
    pub a2: A2,
}

impl<A1: PathMatcher, A2: PathMatcher> PathMatcher for Any2<A1, A2> {
    open spec fn wf(&self) -> bool {
        self.a1.wf() && self.a2.wf()
    }

    open spec fn match_rel(&self, path: &str, r: bool) -> bool {
        (r && self.a1.match_rel(path, true)) || (self.a1.match_rel(path, false) && (self.a2.match_rel(path, r)))
    }

    fn matches(&self, path: &str) -> (r: bool) {
        self.a1.matches(path) || self.a2.matches(path)
    }
}

/// Fixed-arity disjunction: when each of the two matchers pins its result,
/// the combination pins its result to the disjunction of those booleans,
/// the same value the dynamic any-of yields for the same outcome list.
pub proof fn lemma_any2_disjunction<A1: PathMatcher, A2: PathMatcher>(
    m: Any2<A1, A2>,
    path: &str,
    b1: bool, b2: bool,
    r: bool,
)
    requires
        forall|x: bool| #[trigger] m.a1.match_rel(path, x) == (x == b1),
        forall|x: bool| #[trigger] m.a2.match_rel(path, x) == (x == b2),
        m.match_rel(path, r),
    ensures
        r == (b1 || b2),
{
}

/// Checks any of three matchers is true, left to right with short-circuiting.
pub fn any3<A1: PathMatcher, A2: PathMatcher, A3: PathMatcher>(a1: A1, a2: A2, a3: A3) -> (m: Any3<A1, A2, A3>)
    ensures
        m.a1 == a1,
        m.a2 == a2,
        m.a3 == a3,
{
    Any3 { a1, a2, a3 }
}

/// Disjunction over three matchers of possibly different kinds, consulted
/// left to right with short-circuiting.
pub struct Any3<A1: PathMatcher, A2: PathMatcher, A3: PathMatcher> {
    /// Matcher number 1, consulted first.
    pub a1: A1,
    /// Matcher number 2, consulted after the ones before it.
    pub a2: A2,
    /// Matcher number 3, consulted after the ones before it.
    pub a3: A3,
}

impl<A1: PathMatcher, A2: PathMatcher, A3: PathMatcher> PathMatcher for Any3<A1, A2, A3> {
    open spec fn wf(&self) -> bool {
        self.a1.wf() && self.a2.wf() && self.a3.wf()
    }

    open spec fn match_rel(&self, path: &str, r: bool) -> bool {
        (r && self.a1.match_rel(path, true)) || (self.a1.match_rel(path, false) && ((r && self.a2.match_rel(path, true)) || (self.a2.match_rel(path, false) && (self.a3.match_rel(path, r)))))
    }

    fn matches(&self, path: &str) -> (r: bool) {
        self.a1.matches(path) || self.a2.matches(path) || self.a3.matches(path)
    }
}

/// Fixed-arity disjunction: when each of the three matchers pins its result,
/// the combination pins its result to the disjunction of those booleans,
/// the same value the dynamic any-of yields for the same outcome list.
pub proof fn lemma_any3_disjunction<A1: PathMatcher, A2: PathMatcher, A3: PathMatcher>(
    m: Any3<A1, A2, A3>,
    path: &str,
    b1: bool, b2: bool, b3: bool,
    r: bool,
)
    requires
        forall|x: bool| #[trigger] m.a1.match_rel(path, x) == (x == b1),
        forall|x: bool| #[trigger] m.a2.match_rel(path, x) == (x == b2),
        forall|x: bool| #[trigger] m.a3.match_rel(path, x) == (x == b3),
        m.match_rel(path, r),
    ensures
        r == (b1 || b2 || b3),
{
}

/// Checks any of four matchers is true, left to right with short-circuiting.
pub fn any4<A1: PathMatcher, A2: PathMatcher, A3: PathMatcher, A4: PathMatcher>(a1: A1, a2: A2, a3: A3, a4: A4) -> (m: Any4<A1, A2, A3, A4>)
    ensures
        m.a1 == a1,
        m.a2 == a2,
        m.a3 == a3,
        m.a4 == a4,
{
    Any4 { a1, a2, a3, a4 }
}

/// Disjunction over four matchers of possibly different kinds, consulted
/// left to right with short-circuiting.
pub struct Any4<A1: PathMatcher, A2: PathMatcher, A3: PathMatcher, A4: PathMatcher> {
    /// Matcher number 1, consulted first.
    pub a1: A1,
    /// Matcher number 2, consulted after the ones before it.
    pub a2: A2,
    /// Matcher number 3, consulted after the ones before it.
    pub a3: A3,
    /// Matcher number 4, consulted after the ones before it.
    pub a4: A4,
}

impl<A1: PathMatcher, A2: PathMatcher, A3: PathMatcher, A4: PathMatcher> PathMatcher for Any4<A1, A2, A3, A4> {
    open spec fn wf(&self) -> bool {
        self.a1.wf() && self.a2.wf() && self.a3.wf() && self.a4.wf()
    }

    open spec fn match_rel(&self, path: &str, r: bool) -> bool {
        (r && self.a1.match_rel(path, true)) || (self.a1.match_rel(path, false) && ((r && self.a2.match_rel(path, true)) || (self.a2.match_rel(path, false) && ((r && self.a3.match_rel(path, true)) || (self.a3.match_rel(path, false) && (self.a4.match_rel(path, r)))))))
    }

    fn matches(&self, path: &str) -> (r: bool) {
        self.a1.matches(path) || self.a2.matches(path) || self.a3.matches(path) || self.a4.matches(path)
    }
}

/// Fixed-arity disjunction: when each of the four matchers pins its result,
/// the combination pins its result to the disjunction of those booleans,
/// the same value the dynamic any-of yields for the same outcome list.
pub proof fn lemma_any4_disjunction<A1: PathMatcher, A2: PathMatcher, A3: PathMatcher, A4: PathMatcher>(
    m: Any4<A1, A2, A3, A4>,
    path: &str,
    b1: bool, b2: bool, b3: bool, b4: bool,
    r: bool,
)
    requires
        forall|x: bool| #[trigger] m.a1.match_rel(path, x) == (x == b1),
        forall|x: bool| #[trigger] m.a2.match_rel(path, x) == (x == b2),
        forall|x: bool| #[trigger] m.a3.match_rel(path, x) == (x == b3),
        forall|x: bool| #[trigger] m.a4.match_rel(path, x) == (x == b4),
        m.match_rel(path, r),
    ensures
        r == (b1 || b2 || b3 || b4),
{
}

/// Checks any of five matchers is true, left to right with short-circuiting.
pub fn any5<A1: PathMatcher, A2: PathMatcher, A3: PathMatcher, A4: PathMatcher, A5: PathMatcher>(a1: A1, a2: A2, a3: A3, a4: A4, a5: A5) -> (m: Any5<A1, A2, A3, A4, A5>)
    ensures
        m.a1 == a1,
        m.a2 == a2,
        m.a3 == a3,
        m.a4 == a4,
        m.a5 == a5,
{
    Any5 { a1, a2, a3, a4, a5 }
}

/// Disjunction over five matchers of possibly different kinds, consulted
/// left to right with short-circuiting.
pub struct Any5<A1: PathMatcher, A2: PathMatcher, A3: PathMatcher, A4: PathMatcher, A5: PathMatcher> {
    /// Matcher number 1, consulted first.
    pub a1: A1,
    /// Matcher number 2, consulted after the ones before it.
    pub a2: A2,
    /// Matcher number 3, consulted after the ones before it.
    pub a3: A3,
    /// Matcher number 4, consulted after the ones before it.
    pub a4: A4,
    /// Matcher number 5, consulted after the ones before it.
    pub a5: A5,
}

impl<A1: PathMatcher, A2: PathMatcher, A3: PathMatcher, A4: PathMatcher, A5: PathMatcher> PathMatcher for Any5<A1, A2, A3, A4, A5> {
    open spec fn wf(&self) -> bool {
        self.a1.wf() && self.a2.wf() && self.a3.wf() && self.a4.wf() && self.a5.wf()
    }

    open spec fn match_rel(&self, path: &str, r: bool) -> bool {
        (r && self.a1.match_rel(path, true)) || (self.a1.match_rel(path, false) && ((r && self.a2.match_rel(path, true)) || (self.a2.match_rel(path, false) && ((r && self.a3.match_rel(path, true)) || (self.a3.match_rel(path, false) && ((r && self.a4.match_rel(path, true)) || (self.a4.match_rel(path, false) && (self.a5.match_rel(path, r)))))))))
    }

    fn matches(&self, path: &str) -> (r: bool) {
        self.a1.matches(path) || self.a2.matches(path) || self.a3.matches(path) || self.a4.matches(path) || self.a5.matches(path)
    }
}

/// Fixed-arity disjunction: when each of the five matchers pins its result,
/// the combination pins its result to the disjunction of those booleans,
/// the same value the dynamic any-of yields for the same outcome list.
pub proof fn lemma_any5_disjunction<A1: PathMatcher, A2: PathMatcher, A3: PathMatcher, A4: PathMatcher, A5: PathMatcher>(
    m: Any5<A1, A2, A3, A4, A5>,
    path: &str,
    b1: bool, b2: bool, b3: bool, b4: bool, b5: bool,
    r: bool,
)
    requires
        forall|x: bool| #[trigger] m.a1.match_rel(path, x) == (x == b1),
        forall|x: bool| #[trigger] m.a2.match_rel(path, x) == (x == b2),
        forall|x: bool| #[trigger] m.a3.match_rel(path, x) == (x == b3),
        forall|x: bool| #[trigger] m.a4.match_rel(path, x) == (x == b4),
        forall|x: bool| #[trigger] m.a5.match_rel(path, x) == (x == b5),
        m.match_rel(path, r),
    ensures
        r == (b1 || b2 || b3 || b4 || b5),
{
}

/// Checks any of six matchers is true, left to right with short-circuiting.
pub fn any6<A1: PathMatcher, A2: PathMatcher, A3: PathMatcher, A4: PathMatcher, A5: PathMatcher, A6: PathMatcher>(a1: A1, a2: A2, a3: A3, a4: A4, a5: A5, a6: A6) -> (m: Any6<A1, A2, A3, A4, A5, A6>)
    ensures
        m.a1 == a1,
        m.a2 == a2,
        m.a3 == a3,
        m.a4 == a4,
        m.a5 == a5,
        m.a6 == a6,
{
    Any6 { a1, a2, a3, a4, a5, a6 }
}

/// Disjunction over six matchers of possibly different kinds, consulted
/// left to right with short-circuiting.
pub struct Any6<A1: PathMatcher, A2: PathMatcher, A3: PathMatcher, A4: PathMatcher, A5: PathMatcher, A6: PathMatcher> {
    /// Matcher number 1, consulted first.
    pub a1: A1,
    /// Matcher number 2, consulted after the ones before it.
    pub a2: A2,
    /// Matcher number 3, consulted after the ones before it.
    pub a3: A3,
    /// Matcher number 4, consulted after the ones before it.
    pub a4: A4,
    /// Matcher number 5, consulted after the ones before it.
    pub a5: A5,
    /// Matcher number 6, consulted after the ones before it.
    pub a6: A6,
}

impl<A1: PathMatcher, A2: PathMatcher, A3: PathMatcher, A4: PathMatcher, A5: PathMatcher, A6: PathMatcher> PathMatcher for Any6<A1, A2, A3, A4, A5, A6> {
    open spec fn wf(&self) -> bool {
        self.a1.wf() && self.a2.wf() && self.a3.wf() && self.a4.wf() && self.a5.wf() && self.a6.wf()
    }

    open spec fn match_rel(&self, path: &str, r: bool) -> bool {
        (r && self.a1.match_rel(path, true)) || (self.a1.match_rel(path, false) && ((r && self.a2.match_rel(path, true)) || (self.a2.match_rel(path, false) && ((r && self.a3.match_rel(path, true)) || (self.a3.match_rel(path, false) && ((r && self.a4.match_rel(path, true)) || (self.a4.match_rel(path, false) && ((r && self.a5.match_rel(path, true)) || (self.a5.match_rel(path, false) && (self.a6.match_rel(path, r)))))))))))
    }

    fn matches(&self, path: &str) -> (r: bool) {
        self.a1.matches(path) || self.a2.matches(path) || self.a3.matches(path) || self.a4.matches(path) || self.a5.matches(path) || self.a6.matches(path)
    }
}

/// Fixed-arity disjunction: when each of the six matchers pins its result,
/// the combination pins its result to the disjunction of those booleans,
/// the same value the dynamic any-of yields for the same outcome list.
pub proof fn lemma_any6_disjunction<A1: PathMatcher, A2: PathMatcher, A3: PathMatcher, A4: PathMatcher, A5: PathMatcher, A6: PathMatcher>(
    m: Any6<A1, A2, A3, A4, A5, A6>,
    path: &str,
    b1: bool, b2: bool, b3: bool, b4: bool, b5: bool, b6: bool,
    r: bool,
)
    requires
        forall|x: bool| #[trigger] m.a1.match_rel(path, x) == (x == b1),
        forall|x: bool| #[trigger] m.a2.match_rel(path, x) == (x == b2),
        forall|x: bool| #[trigger] m.a3.match_rel(path, x) == (x == b3),
        forall|x: bool| #[trigger] m.a4.match_rel(path, x) == (x == b4),
        forall|x: bool| #[trigger] m.a5.match_rel(path, x) == (x == b5),
        forall|x: bool| #[trigger] m.a6.match_rel(path, x) == (x == b6),
        m.match_rel(path, r),
    ensures
        r == (b1 || b2 || b3 || b4 || b5 || b6),
{
}

/// Checks any of seven matchers is true, left to right with short-circuiting.
pub fn any7<A1: PathMatcher, A2: PathMatcher, A3: PathMatcher, A4: PathMatcher, A5: PathMatcher, A6: PathMatcher, A7: PathMatcher>(a1: A1, a2: A2, a3: A3, a4: A4, a5: A5, a6: A6, a7: A7) -> (m: Any7<A1, A2, A3, A4, A5, A6, A7>)
    ensures
        m.a1 == a1,
        m.a2 == a2,
        m.a3 == a3,
        m.a4 == a4,
        m.a5 == a5,
        m.a6 == a6,
        m.a7 == a7,
{
    Any7 { a1, a2, a3, a4, a5, a6, a7 }
}

/// Disjunction over seven matchers of possibly different kinds, consulted
/// left to right with short-circuiting.
pub struct Any7<A1: PathMatcher, A2: PathMatcher, A3: PathMatcher, A4: PathMatcher, A5: PathMatcher, A6: PathMatcher, A7: PathMatcher> {
    /// Matcher number 1, consulted first.
    pub a1: A1,
    /// Matcher number 2, consulted after the ones before it.
    pub a2: A2,
    /// Matcher number 3, consulted after the ones before it.
    pub a3: A3,
    /// Matcher number 4, consulted after the ones before it.
    pub a4: A4,
    /// Matcher number 5, consulted after the ones before it.
    pub a5: A5,
    /// Matcher number 6, consulted after the ones before it.
    pub a6: A6,
    /// Matcher number 7, consulted after the ones before it.
    pub a7: A7,
}

impl<A1: PathMatcher, A2: PathMatcher, A3: PathMatcher, A4: PathMatcher, A5: PathMatcher, A6: PathMatcher, A7: PathMatcher> PathMatcher for Any7<A1, A2, A3, A4, A5, A6, A7> {
    open spec fn wf(&self) -> bool {
        self.a1.wf() && self.a2.wf() && self.a3.wf() && self.a4.wf() && self.a5.wf() && self.a6.wf() && self.a7.wf()
    }

    open spec fn match_rel(&self, path: &str, r: bool) -> bool {
        (r && self.a1.match_rel(path, true)) || (self.a1.match_rel(path, false) && ((r && self.a2.match_rel(path, true)) || (self.a2.match_rel(path, false) && ((r && self.a3.match_rel(path, true)) || (self.a3.match_rel(path, false) && ((r && self.a4.match_rel(path, true)) || (self.a4.match_rel(path, false) && ((r && self.a5.match_rel(path, true)) || (self.a5.match_rel(path, false) && ((r && self.a6.match_rel(path, true)) || (self.a6.match_rel(path, false) && (self.a7.match_rel(path, r)))))))))))))
    }

    fn matches(&self, path: &str) -> (r: bool) {
        self.a1.matches(path) || self.a2.matches(path) || self.a3.matches(path) || self.a4.matches(path) || self.a5.matches(path) || self.a6.matches(path) || self.a7.matches(path)
    }
}

/// Fixed-arity disjunction: when each of the seven matchers pins its result,
/// the combination pins its result to the disjunction of those booleans,
/// the same value the dynamic any-of yields for the same outcome list.
pub proof fn lemma_any7_disjunction<A1: PathMatcher, A2: PathMatcher, A3: PathMatcher, A4: PathMatcher, A5: PathMatcher, A6: PathMatcher, A7: PathMatcher>(
    m: Any7<A1, A2, A3, A4, A5, A6, A7>,
    path: &str,
    b1: bool, b2: bool, b3: bool, b4: bool, b5: bool, b6: bool, b7: bool,
    r: bool,
)
    requires
        forall|x: bool| #[trigger] m.a1.match_rel(path, x) == (x == b1),
        forall|x: bool| #[trigger] m.a2.match_rel(path, x) == (x == b2),
        forall|x: bool| #[trigger] m.a3.match_rel(path, x) == (x == b3),
        forall|x: bool| #[trigger] m.a4.match_rel(path, x) == (x == b4),
        forall|x: bool| #[trigger] m.a5.match_rel(path, x) == (x == b5),
        forall|x: bool| #[trigger] m.a6.match_rel(path, x) == (x == b6),
        forall|x: bool| #[trigger] m.a7.match_rel(path, x) == (x == b7),
        m.match_rel(path, r),
    ensures
        r == (b1 || b2 || b3 || b4 || b5 || b6 || b7),
{
}

/// Checks any of eight matchers is true, left to right with short-circuiting.
pub fn any8<A1: PathMatcher, A2: PathMatcher, A3: PathMatcher, A4: PathMatcher, A5: PathMatcher, A6: PathMatcher, A7: PathMatcher, A8: PathMatcher>(a1: A1, a2: A2, a3: A3, a4: A4, a5: A5, a6: A6, a7: A7, a8: A8) -> (m: Any8<A1, A2, A3, A4, A5, A6, A7, A8>)
    ensures
        m.a1 == a1,
        m.a2 == a2,
        m.a3 == a3,
        m.a4 == a4,
        m.a5 == a5,
        m.a6 == a6,
        m.a7 == a7,
        m.a8 == a8,
{
    Any8 { a1, a2, a3, a4, a5, a6, a7, a8 }
}

/// Disjunction over eight matchers of possibly different kinds, consulted
/// left to right with short-circuiting.
pub struct Any8<A1: PathMatcher, A2: PathMatcher, A3: PathMatcher, A4: PathMatcher, A5: PathMatcher, A6: PathMatcher, A7: PathMatcher, A8: PathMatcher> {
    /// Matcher number 1, consulted first.
    pub a1: A1,
    /// Matcher number 2, consulted after the ones before it.
    pub a2: A2,
    /// Matcher number 3, consulted after the ones before it.
    pub a3: A3,
    /// Matcher number 4, consulted after the ones before it.
    pub a4: A4,
    /// Matcher number 5, consulted after the ones before it.
    pub a5: A5,
    /// Matcher number 6, consulted after the ones before it.
    pub a6: A6,
    /// Matcher number 7, consulted after the ones before it.
    pub a7: A7,
    /// Matcher number 8, consulted after the ones before it.
    pub a8: A8,
}

impl<A1: PathMatcher, A2: PathMatcher, A3: PathMatcher, A4: PathMatcher, A5: PathMatcher, A6: PathMatcher, A7: PathMatcher, A8: PathMatcher> PathMatcher for Any8<A1, A2, A3, A4, A5, A6, A7, A8> {
    open spec fn wf(&self) -> bool {
        self.a1.wf() && self.a2.wf() && self.a3.wf() && self.a4.wf() && self.a5.wf() && self.a6.wf() && self.a7.wf() && self.a8.wf()
    }

    open spec fn match_rel(&self, path: &str, r: bool) -> bool {
        (r && self.a1.match_rel(path, true)) || (self.a1.match_rel(path, false) && ((r && self.a2.match_rel(path, true)) || (self.a2.match_rel(path, false) && ((r && self.a3.match_rel(path, true)) || (self.a3.match_rel(path, false) && ((r && self.a4.match_rel(path, true)) || (self.a4.match_rel(path, false) && ((r && self.a5.match_rel(path, true)) || (self.a5.match_rel(path, false) && ((r && self.a6.match_rel(path, true)) || (self.a6.match_rel(path, false) && ((r && self.a7.match_rel(path, true)) || (self.a7.match_rel(path, false) && (self.a8.match_rel(path, r)))))))))))))))
    }

    fn matches(&self, path: &str) -> (r: bool) {
        self.a1.matches(path) || self.a2.matches(path) || self.a3.matches(path) || self.a4.matches(path) || self.a5.matches(path) || self.a6.matches(path) || self.a7.matches(path) || self.a8.matches(path)
    }
}

/// Fixed-arity disjunction: when each of the eight matchers pins its result,
/// the combination pins its result to the disjunction of those booleans,
/// the same value the dynamic any-of yields for the same outcome list.
pub proof fn lemma_any8_disjunction<A1: PathMatcher, A2: PathMatcher, A3: PathMatcher, A4: PathMatcher, A5: PathMatcher, A6: PathMatcher, A7: PathMatcher, A8: PathMatcher>(
    m: Any8<A1, A2, A3, A4, A5, A6, A7, A8>,
    path: &str,
    b1: bool, b2: bool, b3: bool, b4: bool, b5: bool, b6: bool, b7: bool, b8: bool,
    r: bool,
)
    requires
        forall|x: bool| #[trigger] m.a1.match_rel(path, x) == (x == b1),
        forall|x: bool| #[trigger] m.a2.match_rel(path, x) == (x == b2),
        forall|x: bool| #[trigger] m.a3.match_rel(path, x) == (x == b3),
        forall|x: bool| #[trigger] m.a4.match_rel(path, x) == (x == b4),
        forall|x: bool| #[trigger] m.a5.match_rel(path, x) == (x == b5),
        forall|x: bool| #[trigger] m.a6.match_rel(path, x) == (x == b6),
        forall|x: bool| #[trigger] m.a7.match_rel(path, x) == (x == b7),
        forall|x: bool| #[trigger] m.a8.match_rel(path, x) == (x == b8),
        m.match_rel(path, r),
    ensures
        r == (b1 || b2 || b3 || b4 || b5 || b6 || b7 || b8),
{
}

/// Checks any of nine matchers is true, left to right with short-circuiting.
pub fn any9<A1: PathMatcher, A2: PathMatcher, A3: PathMatcher, A4: PathMatcher, A5: PathMatcher, A6: PathMatcher, A7: PathMatcher, A8: PathMatcher, A9: PathMatcher>(a1: A1, a2: A2, a3: A3, a4: A4, a5: A5, a6: A6, a7: A7, a8: A8, a9: A9) -> (m: Any9<A1, A2, A3, A4, A5, A6, A7, A8, A9>)
    ensures
        m.a1 == a1,
        m.a2 == a2,
        m.a3 == a3,
        m.a4 == a4,
        m.a5 == a5,
        m.a6 == a6,
        m.a7 == a7,
        m.a8 == a8,
        m.a9 == a9,
{
    Any9 { a1, a2, a3, a4, a5, a6, a7, a8, a9 }
}

/// Disjunction over nine matchers of possibly different kinds, consulted
/// left to right with short-circuiting.
pub struct Any9<A1: PathMatcher, A2: PathMatcher, A3: PathMatcher, A4: PathMatcher, A5: PathMatcher, A6: PathMatcher, A7: PathMatcher, A8: PathMatcher, A9: PathMatcher> {
    /// Matcher number 1, consulted first.
    pub a1: A1,
    /// Matcher number 2, consulted after the ones before it.
    pub a2: A2,
    /// Matcher number 3, consulted after the ones before it.
    pub a3: A3,
    /// Matcher number 4, consulted after the ones before it.
    pub a4: A4,
    /// Matcher number 5, consulted after the ones before it.
    pub a5: A5,
    /// Matcher number 6, consulted after the ones before it.
    pub a6: A6,
    /// Matcher number 7, consulted after the ones before it.
    pub a7: A7,
    /// Matcher number 8, consulted after the ones before it.
    pub a8: A8,
    /// Matcher number 9, consulted after the ones before it.
    pub a9: A9,
}

impl<A1: PathMatcher, A2: PathMatcher, A3: PathMatcher, A4: PathMatcher, A5: PathMatcher, A6: PathMatcher, A7: PathMatcher, A8: PathMatcher, A9: PathMatcher> PathMatcher for Any9<A1, A2, A3, A4, A5, A6, A7, A8, A9> {
    open spec fn wf(&self) -> bool {
        self.a1.wf() && self.a2.wf() && self.a3.wf() && self.a4.wf() && self.a5.wf() && self.a6.wf() && self.a7.wf() && self.a8.wf() && self.a9.wf()
    }

    open spec fn match_rel(&self, path: &str, r: bool) -> bool {
        (r && self.a1.match_rel(path, true)) || (self.a1.match_rel(path, false) && ((r && self.a2.match_rel(path, true)) || (self.a2.match_rel(path, false) && ((r && self.a3.match_rel(path, true)) || (self.a3.match_rel(path, false) && ((r && self.a4.match_rel(path, true)) || (self.a4.match_rel(path, false) && ((r && self.a5.match_rel(path, true)) || (self.a5.match_rel(path, false) && ((r && self.a6.match_rel(path, true)) || (self.a6.match_rel(path, false) && ((r && self.a7.match_rel(path, true)) || (self.a7.match_rel(path, false) && ((r && self.a8.match_rel(path, true)) || (self.a8.match_rel(path, false) && (self.a9.match_rel(path, r)))))))))))))))))
    }

    fn matches(&self, path: &str) -> (r: bool) {
        self.a1.matches(path) || self.a2.matches(path) || self.a3.matches(path) || self.a4.matches(path) || self.a5.matches(path) || self.a6.matches(path) || self.a7.matches(path) || self.a8.matches(path) || self.a9.matches(path)
    }
}

/// Fixed-arity disjunction: when each of the nine matchers pins its result,
/// the combination pins its result to the disjunction of those booleans,
/// the same value the dynamic any-of yields for the same outcome list.
pub proof fn lemma_any9_disjunction<A1: PathMatcher, A2: PathMatcher, A3: PathMatcher, A4: PathMatcher, A5: PathMatcher, A6: PathMatcher, A7: PathMatcher, A8: PathMatcher, A9: PathMatcher>(
    m: Any9<A1, A2, A3, A4, A5, A6, A7, A8, A9>,
    path: &str,
    b1: bool, b2: bool, b3: bool, b4: bool, b5: bool, b6: bool, b7: bool, b8: bool, b9: bool,
    r: bool,
)
    requires
        forall|x: bool| #[trigger] m.a1.match_rel(path, x) == (x == b1),
        forall|x: bool| #[trigger] m.a2.match_rel(path, x) == (x == b2),
        forall|x: bool| #[trigger] m.a3.match_rel(path, x) == (x == b3),
        forall|x: bool| #[trigger] m.a4.match_rel(path, x) == (x == b4),
        forall|x: bool| #[trigger] m.a5.match_rel(path, x) == (x == b5),
        forall|x: bool| #[trigger] m.a6.match_rel(path, x) == (x == b6),
        forall|x: bool| #[trigger] m.a7.match_rel(path, x) == (x == b7),
        forall|x: bool| #[trigger] m.a8.match_rel(path, x) == (x == b8),
        forall|x: bool| #[trigger] m.a9.match_rel(path, x) == (x == b9),
        m.match_rel(path, r),
    ensures
        r == (b1 || b2 || b3 || b4 || b5 || b6 || b7 || b8 || b9),
{
}

/// Checks any of ten matchers is true, left to right with short-circuiting.
pub fn any10<A1: PathMatcher, A2: PathMatcher, A3: PathMatcher, A4: PathMatcher, A5: PathMatcher, A6: PathMatcher, A7: PathMatcher, A8: PathMatcher, A9: PathMatcher, A10: PathMatcher>(a1: A1, a2: A2, a3: A3, a4: A4, a5: A5, a6: A6, a7: A7, a8: A8, a9: A9, a10: A10) -> (m: Any10<A1, A2, A3, A4, A5, A6, A7, A8, A9, A10>)
    ensures
        m.a1 == a1,
        m.a2 == a2,
        m.a3 == a3,
        m.a4 == a4,
        m.a5 == a5,
        m.a6 == a6,
        m.a7 == a7,
        m.a8 == a8,
        m.a9 == a9,
        m.a10 == a10,
{
    Any10 { a1, a2, a3, a4, a5, a6, a7, a8, a9, a10 }
}

/// Disjunction over ten matchers of possibly different kinds, consulted
/// left to right with short-circuiting.
pub struct Any10<A1: PathMatcher, A2: PathMatcher, A3: PathMatcher, A4: PathMatcher, A5: PathMatcher, A6: PathMatcher, A7: PathMatcher, A8: PathMatcher, A9: PathMatcher, A10: PathMatcher> {
    /// Matcher number 1, consulted first.
    pub a1: A1,
    /// Matcher number 2, consulted after the ones before it.
    pub a2: A2,
    /// Matcher number 3, consulted after the ones before it.
    pub a3: A3,
    /// Matcher number 4, consulted after the ones before it.
    pub a4: A4,
    /// Matcher number 5, consulted after the ones before it.
    pub a5: A5,
    /// Matcher number 6, consulted after the ones before it.
    pub a6: A6,
    /// Matcher number 7, consulted after the ones before it.
    pub a7: A7,
    /// Matcher number 8, consulted after the ones before it.
    pub a8: A8,
    /// Matcher number 9, consulted after the ones before it.
    pub a9: A9,
    /// Matcher number 10, consulted after the ones before it.
    pub a10: A10,
}

impl<A1: PathMatcher, A2: PathMatcher, A3: PathMatcher, A4: PathMatcher, A5: PathMatcher, A6: PathMatcher, A7: PathMatcher, A8: PathMatcher, A9: PathMatcher, A10: PathMatcher> PathMatcher for Any10<A1, A2, A3, A4, A5, A6, A7, A8, A9, A10> {
    open spec fn wf(&self) -> bool {
        self.a1.wf() && self.a2.wf() && self.a3.wf() && self.a4.wf() && self.a5.wf() && self.a6.wf() && self.a7.wf() && self.a8.wf() && self.a9.wf() && self.a10.wf()
    }

    open spec fn match_rel(&self, path: &str, r: bool) -> bool {
        (r && self.a1.match_rel(path, true)) || (self.a1.match_rel(path, false) && ((r && self.a2.match_rel(path, true)) || (self.a2.match_rel(path, false) && ((r && self.a3.match_rel(path, true)) || (self.a3.match_rel(path, false) && ((r && self.a4.match_rel(path, true)) || (self.a4.match_rel(path, false) && ((r && self.a5.match_rel(path, true)) || (self.a5.match_rel(path, false) && ((r && self.a6.match_rel(path, true)) || (self.a6.match_rel(path, false) && ((r && self.a7.match_rel(path, true)) || (self.a7.match_rel(path, false) && ((r && self.a8.match_rel(path, true)) || (self.a8.match_rel(path, false) && ((r && self.a9.match_rel(path, true)) || (self.a9.match_rel(path, false) && (self.a10.match_rel(path, r)))))))))))))))))))
    }

    fn matches(&self, path: &str) -> (r: bool) {
        self.a1.matches(path) || self.a2.matches(path) || self.a3.matches(path) || self.a4.matches(path) || self.a5.matches(path) || self.a6.matches(path) || self.a7.matches(path) || self.a8.matches(path) || self.a9.matches(path) || self.a10.matches(path)
    }
}

/// Fixed-arity disjunction: when each of the ten matchers pins its result,
/// the combination pins its result to the disjunction of those booleans,
/// the same value the dynamic any-of yields for the same outcome list.
pub proof fn lemma_any10_disjunction<A1: PathMatcher, A2: PathMatcher, A3: PathMatcher, A4: PathMatcher, A5: PathMatcher, A6: PathMatcher, A7: PathMatcher, A8: PathMatcher, A9: PathMatcher, A10: PathMatcher>(
    m: Any10<A1, A2, A3, A4, A5, A6, A7, A8, A9, A10>,
    path: &str,
    b1: bool, b2: bool, b3: bool, b4: bool, b5: bool, b6: bool, b7: bool, b8: bool, b9: bool, b10: bool,
    r: bool,
)
    requires
        forall|x: bool| #[trigger] m.a1.match_rel(path, x) == (x == b1),
        forall|x: bool| #[trigger] m.a2.match_rel(path, x) == (x == b2),
        forall|x: bool| #[trigger] m.a3.match_rel(path, x) == (x == b3),
        forall|x: bool| #[trigger] m.a4.match_rel(path, x) == (x == b4),
        forall|x: bool| #[trigger] m.a5.match_rel(path, x) == (x == b5),
        forall|x: bool| #[trigger] m.a6.match_rel(path, x) == (x == b6),
        forall|x: bool| #[trigger] m.a7.match_rel(path, x) == (x == b7),
        forall|x: bool| #[trigger] m.a8.match_rel(path, x) == (x == b8),
        forall|x: bool| #[trigger] m.a9.match_rel(path, x) == (x == b9),
        forall|x: bool| #[trigger] m.a10.match_rel(path, x) == (x == b10),
        m.match_rel(path, r),
    ensures
        r == (b1 || b2 || b3 || b4 || b5 || b6 || b7 || b8 || b9 || b10),
{
}

} // verus!

//! Composable path matchers.
//!
//! A matcher is a value that can answer "does this path match?" for a path
//! given as a string. Leaf matchers test a path directly (exact equality,
//! component-wise prefix, a shell-style glob pattern, an arbitrary
//! predicate); combinators negate one matcher or join several by
//! short-circuiting conjunction and disjunction.
//!
//! Paths are compared component-wise: a path string is read as the sequence
//! of its non-empty `/`-separated components, so `a//b` and `a/b` denote the
//! same path, and `a/b` is a prefix of `a/b/c` but not of `a/bc`.

use vstd::prelude::*;

mod components;
mod path_matcher_and;
mod path_matcher_any;
mod path_matcher_boxed;
mod path_matcher_equal;
mod path_matcher_func;
mod path_matcher_glob;
mod path_matcher_not;
mod path_matcher_or;
mod path_matcher_starts_with;

verus! {

pub use components::components;
pub use components::same_path;
pub use components::path_has_prefix;
pub use path_matcher_and::and;
pub use path_matcher_and::lemma_and_truth_table;
pub use path_matcher_and::PathMatcherAnd;
pub use path_matcher_any::any_of;
pub use path_matcher_any::any1;
pub use path_matcher_any::any2;
pub use path_matcher_any::any3;
pub use path_matcher_any::any4;
pub use path_matcher_any::any5;
pub use path_matcher_any::any6;
pub use path_matcher_any::any7;
pub use path_matcher_any::any8;
pub use path_matcher_any::any9;
pub use path_matcher_any::any10;
pub use path_matcher_any::lemma_any_of_disjunction;
pub use path_matcher_any::lemma_any_of_empty;
pub use path_matcher_any::lemma_any1_disjunction;
pub use path_matcher_any::lemma_any2_disjunction;
pub use path_matcher_any::lemma_any3_disjunction;
pub use path_matcher_any::lemma_any4_disjunction;
pub use path_matcher_any::lemma_any5_disjunction;
pub use path_matcher_any::lemma_any6_disjunction;
pub use path_matcher_any::lemma_any7_disjunction;
pub use path_matcher_any::lemma_any8_disjunction;
pub use path_matcher_any::lemma_any9_disjunction;
pub use path_matcher_any::lemma_any10_disjunction;
pub use path_matcher_any::Any1;
pub use path_matcher_any::Any2;
pub use path_matcher_any::Any3;
pub use path_matcher_any::Any4;
pub use path_matcher_any::Any5;
pub use path_matcher_any::Any6;
pub use path_matcher_any::Any7;
pub use path_matcher_any::Any8;
pub use path_matcher_any::Any9;
pub use path_matcher_any::Any10;
pub use path_matcher_any::PathMatcherAny;
pub use path_matcher_boxed::any_seq_rel;
pub use path_matcher_boxed::boxed_match_rel;
pub use path_matcher_boxed::boxed_seq_wf;
pub use path_matcher_boxed::boxed_wf;
pub use path_matcher_boxed::Boxable;
pub use path_matcher_boxed::BoxedPathMatcher;
pub use path_matcher_equal::equal;
pub use path_matcher_equal::lemma_equal_matches_self;
pub use path_matcher_equal::lemma_equal_rejects_other;
pub use path_matcher_equal::PathMatcherEqual;
pub use path_matcher_func::func;
pub use path_matcher_func::PathMatcherFunc;
pub use path_matcher_glob::glob;
pub use path_matcher_glob::glob_match;
pub use path_matcher_glob::glob_syntax_ok;
pub use path_matcher_glob::PathMatcherGlob;
pub use path_matcher_glob::PatternError;
pub use path_matcher_not::lemma_not_involution;
pub use path_matcher_not::not;
pub use path_matcher_not::PathMatcherNot;
pub use path_matcher_or::lemma_or_truth_table;
pub use path_matcher_or::or;
pub use path_matcher_or::PathMatcherOr;
pub use path_matcher_starts_with::starts_with;
pub use path_matcher_starts_with::PathMatcherStartsWith;

/// Allows to match a path, given as a string, against an implemented
/// condition.
///
/// `match_rel` relates a path to the results that `matches` may return for
/// it. For every matcher whose leaves are path tests it pins the result to
/// exactly one boolean; for a function-backed matcher it holds whatever the
/// wrapped predicate may return.
pub trait PathMatcher: Sized {
    /// The structural invariant that the constructors establish.
    spec fn wf(&self) -> bool;

    /// Relates `path` to the results that `matches` may return for it.
    spec fn match_rel(&self, path: &str, r: bool) -> bool;

    /// Matches a path against this matcher.
    fn matches(&self, path: &str) -> (r: bool)
        requires
            self.wf(),
        ensures
            self.match_rel(path, r),
    ;
}

/// Extends [`PathMatcher`] with combinator functions.
pub trait PathMatcherExt: PathMatcher {
    /// Conjunction of this matcher with another, this one consulted first.
    fn and<R: PathMatcher>(self, right: R) -> (m: PathMatcherAnd<Self, R>)
        ensures
            m.0 == self,
            m.1 == right,
    ;

    /// Disjunction of this matcher with another, this one consulted first.
    fn or<R: PathMatcher>(self, right: R) -> (m: PathMatcherOr<Self, R>)
        ensures
            m.0 == self,
            m.1 == right,
    ;
}

impl<F: PathMatcher> PathMatcherExt for F {
    fn and<R: PathMatcher>(self, right: R) -> (m: PathMatcherAnd<F, R>) {
        PathMatcherAnd(self, right)
    }

    fn or<R: PathMatcher>(self, right: R) -> (m: PathMatcherOr<F, R>) {
        PathMatcherOr(self, right)
    }
}

} // verus!

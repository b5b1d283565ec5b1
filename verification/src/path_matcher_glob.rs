use crate::PathMatcher;
use vstd::prelude::*;

verus! {

/// The compiled form of a glob pattern, produced by the glob crate. The
/// value is opaque: nothing of it is visible but the pattern text named by
/// [`pattern_source`].
#[verifier::external_body]
pub struct CompiledPattern {
    inner: ::glob::Pattern,
}

/// Whether the glob crate's `Pattern::new` accepts `pattern`: it decides on the
/// pattern text alone, the same way on every call.
pub uninterp spec fn glob_syntax_ok(pattern: Seq<char>) -> bool;

/// The pattern text that a compiled pattern was built from.
pub uninterp spec fn pattern_source(p: CompiledPattern) -> Seq<char>;

/// Whether a path matches a glob pattern, as the glob crate's `Pattern::matches`
/// decides it: a function of the pattern text and the path alone.
pub uninterp spec fn glob_match(pattern: Seq<char>, path: Seq<char>) -> bool;

/// The error returned for a glob pattern whose syntax is invalid, carrying
/// a human-readable reason and the position where compilation failed.
#[derive(Debug)]
pub struct PatternError {
    /// The approximate character index of where the error occurred.
    pub pos: usize,
    /// A message describing the error.
    pub msg: &'static str,
}

/// Relies on the glob crate's Pattern::new: it compiles Unix shell style patterns,
/// succeeding exactly on well-formed glob syntax and keeping the pattern
/// text it was given; on failure it reports position and reason, here moved
/// into the library's own error type.
#[verifier::external_body]
fn compile_pattern(pattern: &str) -> (r: Result<CompiledPattern, PatternError>)
    ensures
        r is Ok <==> glob_syntax_ok(pattern@),
        r is Ok ==> pattern_source(r->Ok_0) == pattern@,
{
    match ::glob::Pattern::new(pattern) {
        Ok(p) => Ok(CompiledPattern { inner: p }),
        Err(e) => Err(PatternError { pos: e.pos, msg: e.msg }),
    }
}

/// Relies on the glob crate's Pattern::matches: whether the path matches the compiled
/// pattern, under the default match options; a function of the pattern text
/// and the path alone.
#[verifier::external_body]
fn pattern_matches(p: &CompiledPattern, path: &str) -> (r: bool)
    ensures
        r == glob_match(pattern_source(*p), path@),
{
    p.inner.matches(path)
}

/// Matches file paths against a compiled Unix shell style pattern.
pub struct PathMatcherGlob {
    /// The compiled pattern.
    pub pattern: CompiledPattern,
    /// The pattern text the compiled pattern was built from.
    pub source: String,
}

impl PathMatcher for PathMatcherGlob {
    open spec fn wf(&self) -> bool {
        pattern_source(self.pattern) == self.source@
    }

    open spec fn match_rel(&self, path: &str, r: bool) -> bool {
        r == glob_match(self.source@, path@)
    }

    fn matches(&self, path: &str) -> (r: bool) {
        pattern_matches(&self.pattern, path)
    }
}

/// Matches file paths against Unix shell style patterns. Compilation fails,
/// with the reported position and reason, exactly on patterns whose glob
/// syntax is invalid; it never panics and never turns an invalid pattern
/// into a matcher.
pub fn glob(pattern: &str) -> (r: Result<PathMatcherGlob, PatternError>)
    ensures
        r is Ok <==> glob_syntax_ok(pattern@),
        r is Ok ==> r->Ok_0.wf() && r->Ok_0.source@ == pattern@,
{
    match compile_pattern(pattern) {
        Ok(p) => Ok(PathMatcherGlob { pattern: p, source: pattern.to_owned() }),
        Err(e) => Err(e),
    }
}

} // verus!

use std::cell::Cell;

use path_matchers::and;
use path_matchers::any1;
use path_matchers::any2;
use path_matchers::any3;
use path_matchers::any4;
use path_matchers::any5;
use path_matchers::any6;
use path_matchers::any7;
use path_matchers::any8;
use path_matchers::any9;
use path_matchers::any10;
use path_matchers::any_of;
use path_matchers::equal;
use path_matchers::func;
use path_matchers::glob;
use path_matchers::not;
use path_matchers::or;
use path_matchers::path_has_prefix;
use path_matchers::same_path;
use path_matchers::starts_with;
use path_matchers::Boxable;
use path_matchers::BoxedPathMatcher;
use path_matchers::PathMatcher;
use path_matchers::PathMatcherExt;

#[test]
fn equal_accepts_same_rejects_other() {
    assert!(equal("a/b").matches("a/b"));
    assert!(!equal("a/b").matches("a/c"));
    assert!(!equal("a/b").matches("a/b/c"));
    // repeated and trailing separators do not change the denoted path
    assert!(equal("a//b/").matches("a/b"));
}

#[test]
fn starts_with_is_component_wise() {
    assert!(starts_with("a/b").matches("a/b/c"));
    assert!(!starts_with("a/b").matches("a/bc"));
    assert!(starts_with("a/b").matches("a/b"));
    assert!(!starts_with("a/b/c").matches("a/b"));
}

#[test]
fn not_involution_on_result() {
    let calls = Cell::new(0u32);
    let m = func(|_p: &str| {
        calls.set(calls.get() + 1);
        true
    });
    let direct = m.matches("x");
    assert_eq!(calls.get(), 1);
    let nn = not(not(m));
    let doubled = nn.matches("x");
    // the double negation is not simplified away: it still evaluates the
    // wrapped predicate, and returns the predicate's own result
    assert_eq!(calls.get(), 2);
    assert_eq!(doubled, direct);

    let f = func(|_p: &str| false);
    assert_eq!(not(not(f)).matches("x"), false);
}

#[test]
fn and_or_short_circuit() {
    let invoked = Cell::new(false);
    let recorder = func(|_p: &str| {
        invoked.set(true);
        true
    });
    assert_eq!(and(not(starts_with("")), recorder).matches("x"), false);
    assert!(!invoked.get());

    let invoked2 = Cell::new(false);
    let recorder2 = func(|_p: &str| {
        invoked2.set(true);
        true
    });
    assert_eq!(or(starts_with(""), recorder2).matches("x"), true);
    assert!(!invoked2.get());

    // when the left side does not decide, the right side does run
    let invoked3 = Cell::new(false);
    let recorder3 = func(|_p: &str| {
        invoked3.set(true);
        true
    });
    assert_eq!(and(starts_with(""), recorder3).matches("x"), true);
    assert!(invoked3.get());
}

#[test]
fn and_or_truth_tables() {
    let path = "p/q";
    for &a in &[false, true] {
        for &b in &[false, true] {
            let left = if a { equal("p/q") } else { equal("other") };
            let right = if b { equal("p/q") } else { equal("other") };
            assert_eq!(and(left, right).matches(path), a && b);
            let left = if a { equal("p/q") } else { equal("other") };
            let right = if b { equal("p/q") } else { equal("other") };
            assert_eq!(or(left, right).matches(path), a || b);
        }
    }
}

fn outcome_matcher(b: bool) -> BoxedPathMatcher {
    if b {
        starts_with("").boxed()
    } else {
        not(starts_with("")).boxed()
    }
}

fn check_fixed_dynamic_agree(outcomes: &[bool]) {
    let path = "some/path";
    let expected = outcomes.iter().any(|b| *b);
    let ms: Vec<BoxedPathMatcher> = outcomes.iter().map(|b| outcome_matcher(*b)).collect();
    let dynamic = any_of(ms).matches(path);
    let m = outcome_matcher;
    let o = outcomes;
    let fixed = match o.len() {
        1 => any1(m(o[0])).matches(path),
        2 => any2(m(o[0]), m(o[1])).matches(path),
        3 => any3(m(o[0]), m(o[1]), m(o[2])).matches(path),
        4 => any4(m(o[0]), m(o[1]), m(o[2]), m(o[3])).matches(path),
        5 => any5(m(o[0]), m(o[1]), m(o[2]), m(o[3]), m(o[4])).matches(path),
        6 => any6(m(o[0]), m(o[1]), m(o[2]), m(o[3]), m(o[4]), m(o[5])).matches(path),
        7 => any7(m(o[0]), m(o[1]), m(o[2]), m(o[3]), m(o[4]), m(o[5]), m(o[6])).matches(path),
        8 => any8(m(o[0]), m(o[1]), m(o[2]), m(o[3]), m(o[4]), m(o[5]), m(o[6]), m(o[7]))
            .matches(path),
        9 => any9(
            m(o[0]),
            m(o[1]),
            m(o[2]),
            m(o[3]),
            m(o[4]),
            m(o[5]),
            m(o[6]),
            m(o[7]),
            m(o[8]),
        )
        .matches(path),
        10 => any10(
            m(o[0]),
            m(o[1]),
            m(o[2]),
            m(o[3]),
            m(o[4]),
            m(o[5]),
            m(o[6]),
            m(o[7]),
            m(o[8]),
            m(o[9]),
        )
        .matches(path),
        _ => unreachable!(),
    };
    assert_eq!(fixed, expected);
    assert_eq!(dynamic, expected);
    assert_eq!(fixed, dynamic);
}

#[test]
fn fixed_and_dynamic_any_agree() {
    for n in 1..=10usize {
        check_fixed_dynamic_agree(&vec![false; n]);
        check_fixed_dynamic_agree(&vec![true; n]);
        for t in 0..n {
            let mut v = vec![false; n];
            v[t] = true;
            check_fixed_dynamic_agree(&v);
        }
    }
}

#[test]
fn any_of_empty_matches_nothing() {
    assert_eq!(any_of(Vec::new()).matches("anything"), false);
    assert_eq!(any_of(Vec::new()).matches(""), false);
}

#[test]
fn glob_round_trip_scenarios() {
    let path1 = "images/big/best.png";
    let path2 = "images/small/32x32/best.jpg";

    let all_best_images = glob("images/**/best.*").unwrap();
    assert!(all_best_images.matches(path1));
    assert!(all_best_images.matches(path2));

    let all_jpgs = glob("images/**/*.jpg").unwrap();
    assert!(!all_jpgs.matches(path1));
    assert!(all_jpgs.matches(path2));

    let all_pngs = glob("images/**/*.png").unwrap();
    assert!(all_pngs.matches(path1));
    assert!(!all_pngs.matches(path2));
}

#[test]
fn glob_invalid_pattern_is_error() {
    let err = match glob("[") {
        Err(e) => e,
        Ok(_) => panic!("a malformed pattern must not compile"),
    };
    assert!(!err.msg.is_empty());
    assert!(glob("a/**b").is_err());
    assert!(glob("abc").is_ok());
}

#[test]
fn combinator_composition() {
    let pics = or(glob("**/*.jpg").unwrap(), glob("**/*.png").unwrap());
    assert!(pics.matches("photos/a.jpg"));
    assert!(pics.matches("photos/b.png"));
    assert!(!pics.matches("photos/c.gif"));
}

#[test]
fn fluent_combinators() {
    let all_jpgs = glob("images/**/*.jpg").unwrap();
    let all_pngs = glob("images/**/*.png").unwrap();
    let all_pics = all_jpgs.or(all_pngs);
    assert!(all_pics.matches("images/big/best.png"));
    assert!(all_pics.matches("images/small/32x32/best.jpg"));

    let deep_pngs = starts_with("images").and(glob("**/*.png").unwrap());
    assert!(deep_pngs.matches("images/big/best.png"));
    assert!(!deep_pngs.matches("images/big/best.jpg"));
}

#[test]
fn boxed_preserves_semantics() {
    assert!(equal("a/b").boxed().matches("a/b"));
    assert!(!equal("a/b").boxed().matches("a/c"));
    assert!(glob("*.png").unwrap().boxed().matches("x.png"));
    assert!(!glob("*.png").unwrap().boxed().matches("x.jpg"));
    let nested = or(equal("x"), starts_with("y")).boxed();
    assert!(nested.matches("y/z"));
    assert!(!nested.matches("z"));
    let doubly_dynamic = any_of(vec![any_of(vec![equal("q").boxed()]).boxed()]);
    assert!(doubly_dynamic.matches("q"));
    assert!(!doubly_dynamic.matches("r"));
}

#[test]
fn path_component_reading() {
    assert!(same_path("a//b/", "a/b"));
    assert!(!same_path("a/b", "a/bc"));
    assert!(!same_path("a/b", "a/b/c"));
    assert!(path_has_prefix("a/b/c", "a/b"));
    assert!(!path_has_prefix("a/bc", "a/b"));
    assert!(path_has_prefix("anything", ""));
}

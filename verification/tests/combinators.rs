use path_matchers::and;
use path_matchers::any1;
use path_matchers::any2;
use path_matchers::any3;
use path_matchers::any4;
use path_matchers::any5;
use path_matchers::any6;
use path_matchers::any7;
use path_matchers::any8;
use path_matchers::any9;
use path_matchers::any10;
use path_matchers::any_of;
use path_matchers::equal;
use path_matchers::not;
use path_matchers::or;
use path_matchers::starts_with;
use path_matchers::Boxable;
use path_matchers::PathMatcher;
use path_matchers::PathMatcherStartsWith;

/// A matcher that accepts every path: the empty path is a component-wise
/// prefix of any path.
fn true_() -> PathMatcherStartsWith {
    starts_with("")
}

#[test]
fn path_matcher_and() {
    let path = "hello/world";
    assert_eq!(and(true_(), true_()).matches(path), true);
    assert_eq!(and(true_(), not(true_())).matches(path), false);
    assert_eq!(and(not(true_()), true_()).matches(path), false);
    assert_eq!(and(not(true_()), not(true_())).matches(path), false);
}

#[test]
fn path_matcher_or() {
    let path = "hello/world";
    assert_eq!(or(true_(), true_()).matches(path), true);
    assert_eq!(or(true_(), not(true_())).matches(path), true);
    assert_eq!(or(not(true_()), true_()).matches(path), true);
    assert_eq!(or(not(true_()), not(true_())).matches(path), false);
}

#[test]
fn path_matcher_not() {
    let path = "hello/world";
    assert_eq!(not(true_()).matches(path), false);
}

#[test]
fn path_matcher_any_of() {
    let some_path = "anything";
    assert_eq!(any_of(vec![true_().boxed()]).matches(some_path), true);
    assert_eq!(any_of(vec![not(true_()).boxed()]).matches(some_path), false);
    assert_eq!(any_of(vec![true_().boxed(), true_().boxed()]).matches(some_path), true);
    assert_eq!(any_of(vec![not(true_()).boxed(), true_().boxed()]).matches(some_path), true);
    assert_eq!(any_of(vec![true_().boxed(), not(true_()).boxed()]).matches(some_path), true);
    assert_eq!(
        any_of(vec![not(true_()).boxed(), not(true_()).boxed()]).matches(some_path),
        false
    );
}

#[test]
fn path_matcher_any() {
    let some_path = "anything";
    assert_eq!(any1(true_()).matches(some_path), true);
    assert_eq!(any1(not(true_())).matches(some_path), false);
    assert_eq!(any2(true_(), true_()).matches(some_path), true);
    assert_eq!(any2(not(true_()), true_()).matches(some_path), true);
    assert_eq!(any2(true_(), not(true_())).matches(some_path), true);
    assert_eq!(any2(not(true_()), not(true_())).matches(some_path), false);

    let path = "1";
    assert!(any1(equal("1")).matches(path));
    assert!(any2(equal("1"), equal("2")).matches(path));
    assert!(any3(equal("1"), equal("2"), equal("3")).matches(path));
    assert!(any4(equal("1"), equal("2"), equal("3"), equal("4")).matches(path));
    assert!(any5(equal("1"), equal("2"), equal("3"), equal("4"), equal("5")).matches(path));
    assert!(any6(equal("1"), equal("2"), equal("3"), equal("4"), equal("5"), equal("6"))
        .matches(path));
    assert!(any7(
        equal("1"),
        equal("2"),
        equal("3"),
        equal("4"),
        equal("5"),
        equal("6"),
        equal("7")
    )
    .matches(path));
    assert!(any8(
        equal("1"),
        equal("2"),
        equal("3"),
        equal("4"),
        equal("5"),
        equal("6"),
        equal("7"),
        equal("8")
    )
    .matches(path));
    assert!(any9(
        equal("1"),
        equal("2"),
        equal("3"),
        equal("4"),
        equal("5"),
        equal("6"),
        equal("7"),
        equal("8"),
        equal("9")
    )
    .matches(path));
    assert!(any10(
        equal("1"),
        equal("2"),
        equal("3"),
        equal("4"),
        equal("5"),
        equal("6"),
        equal("7"),
        equal("8"),
        equal("9"),
        equal("10")
    )
    .matches(path));
}

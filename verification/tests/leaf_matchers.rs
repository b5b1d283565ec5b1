use path_matchers::equal;
use path_matchers::func;
use path_matchers::glob;
use path_matchers::starts_with;
use path_matchers::PathMatcher;

#[test]
fn path_matcher_equal() {
    let matched_path = "hello/world";
    assert!(equal("hello/world").matches(matched_path));
    assert!(!equal("bye/world").matches(matched_path));
}

#[test]
fn path_matcher_starts_with() {
    let matched_path = "hello/world";
    assert!(starts_with("hello").matches(matched_path));
    assert!(!starts_with("bye").matches(matched_path));
}

#[test]
fn path_matcher_glob() {
    let path = "abc";
    assert_eq!(glob("abc").unwrap().matches(path), true);
    assert_eq!(glob("a*").unwrap().matches(path), true);
    assert_eq!(glob("a*e").unwrap().matches(path), false);
}

#[test]
fn path_matcher_func_path_matcher_and() {
    let path1 = "hello/world";
    let path2 = "hello/world2";
    let func_matcher = func(|p| p == path1);
    assert!(func_matcher.matches(path1));
    assert!(!func_matcher.matches(path2));
}

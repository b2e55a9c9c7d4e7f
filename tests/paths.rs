use lal::paths::{
    cache_dir, cache_tarball, decimal_string, input_dir, join_path, stash_dir, stash_lockfile,
    stash_tarball, staging_tarball, tarball_file,
};

#[test]
fn cache_dir_without_environment() {
    assert_eq!(cache_dir("/c", "gtest", 3, None), "/c/globals/gtest/3");
}

#[test]
fn cache_dir_with_environment() {
    assert_eq!(cache_dir("/c", "gtest", 3, Some("xenial")), "/c/environments/xenial/gtest/3");
}

#[test]
fn cache_dir_is_the_same_on_repeated_calls() {
    assert_eq!(cache_dir("/c", "a", 7, Some("e")), cache_dir("/c", "a", 7, Some("e")));
}

#[test]
fn cache_dir_differs_for_distinct_keys() {
    let base = cache_dir("/c", "a", 1, None);
    assert_ne!(base, cache_dir("/c", "b", 1, None));
    assert_ne!(base, cache_dir("/c", "a", 11, None));
    assert_ne!(base, cache_dir("/c", "a", 1, Some("globals")));
    assert_ne!(cache_dir("/c", "a", 1, Some("x")), cache_dir("/c", "a", 1, Some("y")));
}

#[test]
fn decimal_forms() {
    assert_eq!(decimal_string(0), "0");
    assert_eq!(decimal_string(9), "9");
    assert_eq!(decimal_string(10), "10");
    assert_eq!(decimal_string(4294967295), "4294967295");
}

#[test]
fn joins_and_tarball_names() {
    assert_eq!(join_path("a", "b"), "a/b");
    assert_eq!(tarball_file("gtest"), "gtest.tar");
    assert_eq!(staging_tarball("gtest"), "./gtest.tar");
    assert_eq!(cache_tarball("/c", "gtest", 12, None, "gtest"), "/c/globals/gtest/12/gtest.tar");
}

#[test]
fn stash_and_input_layout() {
    assert_eq!(stash_dir("/c", "app", "dev"), "/c/stash/app/dev");
    assert_eq!(stash_tarball("/c", "app", "dev"), "/c/stash/app/dev/app.tar.gz");
    assert_eq!(stash_lockfile("/c", "app", "dev"), "/c/stash/app/dev/lockfile.json");
    assert_eq!(input_dir("gtest"), "./INPUT/gtest");
}

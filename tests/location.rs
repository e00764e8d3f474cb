use std::path::PathBuf;

use bucket::location::{join_segment, replace_dots};
use bucket::Bucket;

#[test]
fn bucket_path() {
    let bucket = Bucket::new("com.example.Example", false).unwrap();
    assert_eq!(
        PathBuf::from(bucket.path()),
        dirs::data_dir().unwrap().join("bucket/com/example/Example")
    );
}

#[test]
fn new_keeps_namespace_and_flag() {
    let bucket = Bucket::new("org.sample", true).unwrap();
    assert_eq!(bucket.rdns, "org.sample");
    assert!(bucket.shared);
    assert_eq!(PathBuf::from(bucket.data_root.clone()), dirs::data_dir().unwrap());
}

#[test]
fn dots_become_segments_under_given_root() {
    let bucket = Bucket::with_data_root("/data", "com.example.App", false);
    assert_eq!(bucket.path(), "/data/bucket/com/example/App");
}

#[test]
fn root_with_trailing_separator_gets_no_second_one() {
    let bucket = Bucket::with_data_root("/data/", "com.example.App", true);
    assert_eq!(bucket.path(), "/data/bucket/com/example/App");
}

#[test]
fn empty_root_is_relative() {
    let bucket = Bucket::with_data_root("", "a.b", false);
    assert_eq!(bucket.path(), "bucket/a/b");
}

#[test]
fn empty_segments_are_kept() {
    let bucket = Bucket::with_data_root("/r", "a..b.", false);
    assert_eq!(bucket.path(), "/r/bucket/a//b/");
}

#[test]
fn empty_namespace_is_the_store_itself() {
    let bucket = Bucket::with_data_root("/r", "", false);
    assert_eq!(bucket.path(), "/r/bucket/");
}

#[test]
fn same_namespace_same_location() {
    let a = Bucket::with_data_root("/r", "com.example.App", false);
    let b = Bucket::with_data_root("/r", "com.example.App", true);
    assert_eq!(a.path(), a.path());
    assert_eq!(a.path(), b.path());
}

#[test]
fn different_namespaces_different_locations() {
    let a = Bucket::with_data_root("/r", "com.example.App", false);
    let b = Bucket::with_data_root("/r", "com.example.Apps", false);
    let c = Bucket::with_data_root("/r", "com.exampleApp", false);
    assert_ne!(a.path(), b.path());
    assert_ne!(a.path(), c.path());
}

#[test]
fn separator_in_namespace_collides_with_dot() {
    let a = Bucket::with_data_root("/r", "a.b", false);
    let b = Bucket::with_data_root("/r", "a/b", false);
    assert_eq!(a.path(), b.path());
}

#[test]
fn resource_path_joins_name() {
    let bucket = Bucket::with_data_root("/data", "com.example.App", false);
    assert_eq!(
        bucket.get_resource_path("settings".to_string()),
        "/data/bucket/com/example/App/settings"
    );
}

#[test]
fn resource_name_is_not_escaped() {
    let bucket = Bucket::with_data_root("/d", "x", false);
    assert_eq!(bucket.get_resource_path("../y.json".to_string()), "/d/bucket/x/../y.json");
}

#[test]
fn replace_dots_only_touches_dots() {
    assert_eq!(replace_dots("a.b.c"), "a/b/c");
    assert_eq!(replace_dots("no-dots_here"), "no-dots_here");
    assert_eq!(replace_dots(""), "");
    assert_eq!(replace_dots("é.ü"), "é/ü");
}

#[test]
fn join_segment_adds_one_separator() {
    assert_eq!(join_segment("a", "b"), "a/b");
    assert_eq!(join_segment("a/", "b"), "a/b");
    assert_eq!(join_segment("", "b"), "b");
    assert_eq!(join_segment("a", ""), "a/");
}

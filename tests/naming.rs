use std::collections::BTreeSet;

use edorifile::naming::{decimal_string, get_unique_path, split_name};
use edorifile::paths::{file_name, join_path, sibling_path};

fn taken(paths: &[&str]) -> BTreeSet<String> {
    paths.iter().map(|p| p.to_string()).collect()
}

#[test]
fn free_name_is_kept() {
    let t = taken(&[]);
    let r = get_unique_path("/dest", "report.pdf", false, '/', |p: &str| t.contains(p));
    assert_eq!(r, "/dest/report.pdf");
}

#[test]
fn free_directory_name_is_kept() {
    let r = get_unique_path("/dest", "photos", true, '/', |_p: &str| false);
    assert_eq!(r, "/dest/photos");
}

#[test]
fn third_attempt_after_two_taken() {
    let t = taken(&["/d/name", "/d/name (1)"]);
    let r = get_unique_path("/d", "name", true, '/', |p: &str| t.contains(p));
    assert_eq!(r, "/d/name (2)");
}

#[test]
fn number_goes_before_extension() {
    let t = taken(&["C:\\dst\\photo.jpg"]);
    let r = get_unique_path("C:\\dst", "photo.jpg", false, '\\', |p: &str| t.contains(p));
    assert_eq!(r, "C:\\dst\\photo (1).jpg");
}

#[test]
fn directory_keeps_dots_in_stem() {
    let t = taken(&["/d/v1.2"]);
    let r = get_unique_path("/d", "v1.2", true, '/', |p: &str| t.contains(p));
    assert_eq!(r, "/d/v1.2 (1)");
}

#[test]
fn leading_dot_name_has_no_extension() {
    let t = taken(&["/h/.bashrc"]);
    let r = get_unique_path("/h", ".bashrc", false, '/', |p: &str| t.contains(p));
    assert_eq!(r, "/h/.bashrc (1)");
}

#[test]
fn only_last_dot_starts_extension() {
    let t = taken(&["/d/archive.tar.gz"]);
    let r = get_unique_path("/d", "archive.tar.gz", false, '/', |p: &str| t.contains(p));
    assert_eq!(r, "/d/archive.tar (1).gz");
}

#[test]
fn all_attempts_taken_gives_last_one() {
    let r = get_unique_path("/d", "a.txt", false, '/', |_p: &str| true);
    assert_eq!(r, "/d/a (1000).txt");
}

#[test]
fn decimal_numerals() {
    assert_eq!(decimal_string(0), "0");
    assert_eq!(decimal_string(7), "7");
    assert_eq!(decimal_string(1000), "1000");
    assert_eq!(decimal_string(4294967295), "4294967295");
}

#[test]
fn stem_and_extension() {
    assert_eq!(split_name("photo.jpg", false), ("photo".to_string(), ".jpg".to_string()));
    assert_eq!(split_name("README", false), ("README".to_string(), String::new()));
    assert_eq!(split_name("notes.", false), ("notes".to_string(), ".".to_string()));
    assert_eq!(split_name("photo.jpg", true), ("photo.jpg".to_string(), String::new()));
}

#[test]
fn joining_paths() {
    assert_eq!(join_path("/a", "b", '/'), "/a/b");
    assert_eq!(join_path("/a/", "b", '/'), "/a/b");
    assert_eq!(join_path("", "b", '/'), "b");
    assert_eq!(join_path("C:\\dst", "x.txt", '\\'), "C:\\dst\\x.txt");
}

#[test]
fn last_component() {
    assert_eq!(file_name("/a/b.txt", '/'), Some("b.txt".to_string()));
    assert_eq!(file_name("/a/dir/", '/'), Some("dir".to_string()));
    assert_eq!(file_name("C:\\src\\photo.jpg", '\\'), Some("photo.jpg".to_string()));
    assert_eq!(file_name("/", '/'), None);
    assert_eq!(file_name("/a/..", '/'), None);
    assert_eq!(file_name("", '/'), None);
}

#[test]
fn sibling_paths() {
    assert_eq!(sibling_path("/a/b.txt", "c.txt", '/'), Some("/a/c.txt".to_string()));
    assert_eq!(sibling_path("b.txt", "c.txt", '/'), Some("c.txt".to_string()));
    assert_eq!(sibling_path("/", "c", '/'), None);
}

use cargo_ipa::paths::{file_name, join_path};
use cargo_ipa::sign::{install_answer, sign};
use cargo_ipa::text::{contains_text, replace_text};

#[test]
fn joining_paths() {
    assert_eq!(join_path("/a", "b"), "/a/b");
    assert_eq!(join_path("/a/", "b"), "/a/b");
    assert_eq!(join_path("", "b"), "b");
    assert_eq!(join_path("/a", "/b"), "/b");
}

#[test]
fn last_path_component() {
    assert_eq!(file_name("/a/b/MyLib"), Some("MyLib".to_string()));
    assert_eq!(file_name("/a/b/MyLib/"), Some("MyLib".to_string()));
    assert_eq!(file_name("MyLib"), Some("MyLib".to_string()));
    assert_eq!(file_name("/a/.."), None);
    assert_eq!(file_name("/"), None);
    assert_eq!(file_name(""), None);
}

#[test]
fn replacing_and_searching_text() {
    assert_eq!(replace_text("aXbXc", "X", "--"), "a--b--c");
    assert_eq!(replace_text("aaa", "aa", "b"), "ba");
    assert_eq!(replace_text("abc", "z", "y"), "abc");
    assert!(contains_text("arm64-apple-ios14", "ios"));
    assert!(!contains_text("x86_64-apple-macosx11", "ios"));
    assert!(contains_text("abc", ""));
}

#[test]
fn signing_needs_xcode() {
    assert_eq!(sign(true), Ok(()));
    assert_eq!(sign(false), Err("No valid XCode installation detected. Aborting.".to_string()));
}

#[test]
fn install_answers() {
    assert_eq!(install_answer("y\n"), Some(true));
    assert_eq!(install_answer("Yes\n"), Some(true));
    assert_eq!(install_answer("n\n"), Some(false));
    assert_eq!(install_answer("No"), Some(false));
    assert_eq!(install_answer("maybe"), None);
    assert_eq!(install_answer(""), None);
}

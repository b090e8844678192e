use runner_utils::binary_kind;
use runner_utils::classify_dir_name;
use runner_utils::BinaryKind;
use std::path::Path;
use std::path::PathBuf;

fn kind(path: &str) -> BinaryKind {
    binary_kind(Path::new(path))
}

#[test]
fn binary_in_deps_is_a_test() {
    let kind = kind("target/debug/deps/harness-0a1b2c3d");
    assert_eq!(kind, BinaryKind::Test);
    assert!(kind.is_test());
}

#[test]
fn binary_in_deps_is_a_test_wherever_deps_lies() {
    assert_eq!(kind("deps/harness"), BinaryKind::Test);
    assert_eq!(kind("/deps/harness"), BinaryKind::Test);
    assert_eq!(kind("./deps/harness"), BinaryKind::Test);
    assert_eq!(kind("/home/user/project/target/x86_64-unknown-none/release/deps/kernel-5f"), BinaryKind::Test);
    assert_eq!(kind("rustdoctest1/deps/harness"), BinaryKind::Test);
}

#[test]
fn binary_in_rustdoctest_dir_is_a_doctest() {
    let kind = kind("/tmp/rustdoctest1/rust_out");
    assert_eq!(kind, BinaryKind::DocTest);
    assert!(kind.is_test());
}

#[test]
fn rustdoctest_prefix_is_enough() {
    assert_eq!(kind("/tmp/rustdoctestfoo/rust_out"), BinaryKind::DocTest);
    assert_eq!(kind("/tmp/rustdoctest/rust_out"), BinaryKind::DocTest);
    assert_eq!(kind("rustdoctestAbCd12/rust_out"), BinaryKind::DocTest);
    assert_eq!(kind("deps/rustdoctest_x/rust_out"), BinaryKind::DocTest);
    assert_eq!(kind("/tmp/rustdoctest\u{e9}t\u{e9}/rust_out"), BinaryKind::DocTest);
}

#[test]
fn binary_elsewhere_is_other() {
    let kind = kind("target/debug/kernel");
    assert_eq!(kind, BinaryKind::Other);
    assert!(!kind.is_test());
}

#[test]
fn near_misses_are_other() {
    assert_eq!(kind("target/debug/dep/harness"), BinaryKind::Other);
    assert_eq!(kind("target/debug/depsx/harness"), BinaryKind::Other);
    assert_eq!(kind("target/debug/xdeps/harness"), BinaryKind::Other);
    assert_eq!(kind("target/debug/Deps/harness"), BinaryKind::Other);
    assert_eq!(kind("target/debug/DEPS/harness"), BinaryKind::Other);
    assert_eq!(kind("target/debug/d\u{e9}ps/harness"), BinaryKind::Other);
    assert_eq!(kind("/tmp/rustdoctes/rust_out"), BinaryKind::Other);
    assert_eq!(kind("/tmp/xrustdoctest1/rust_out"), BinaryKind::Other);
    assert_eq!(kind("/tmp/Rustdoctest1/rust_out"), BinaryKind::Other);
    assert_eq!(kind("/tmp/rustdoc/rust_out"), BinaryKind::Other);
}

#[test]
fn only_the_direct_parent_counts() {
    assert_eq!(kind("target/deps/debug/harness"), BinaryKind::Other);
    assert_eq!(kind("rustdoctest1/bin/rust_out"), BinaryKind::Other);
    assert_eq!(kind("deps"), BinaryKind::Other);
    assert_eq!(kind("rustdoctest1"), BinaryKind::Other);
    assert_eq!(kind("harness/deps"), BinaryKind::Other);
}

#[test]
fn path_without_parent_is_other() {
    assert_eq!(kind(""), BinaryKind::Other);
    assert_eq!(kind("/"), BinaryKind::Other);
    assert!(!kind("/").is_test());
}

#[test]
fn path_whose_parent_has_no_name_is_other() {
    assert_eq!(kind("harness"), BinaryKind::Other);
    assert_eq!(kind("/harness"), BinaryKind::Other);
    assert_eq!(kind("../harness"), BinaryKind::Other);
    assert_eq!(kind("deps/../harness"), BinaryKind::Other);
    assert_eq!(kind("./harness"), BinaryKind::Other);
}

#[test]
fn trailing_separator_does_not_change_the_kind() {
    assert_eq!(kind("target/debug/deps/harness/"), BinaryKind::Test);
    assert_eq!(kind("/tmp/rustdoctest7/rust_out/"), BinaryKind::DocTest);
    assert_eq!(kind("deps/"), BinaryKind::Other);
}

#[test]
fn path_need_not_exist() {
    let path = PathBuf::from("/no/such/place/on/this/disk/deps/harness");
    assert_eq!(binary_kind(&path), BinaryKind::Test);
}

#[test]
fn classification_is_repeatable() {
    let path = Path::new("target/debug/deps/harness");
    assert_eq!(binary_kind(path), binary_kind(path));
    let joined = Path::new("target").join("debug").join("deps").join("harness");
    assert_eq!(binary_kind(&joined), binary_kind(path));
}

#[test]
fn dir_name_deps_is_a_test() {
    assert_eq!(classify_dir_name(Some("deps")), BinaryKind::Test);
}

#[test]
fn dir_name_with_rustdoctest_prefix_is_a_doctest() {
    assert_eq!(classify_dir_name(Some("rustdoctest")), BinaryKind::DocTest);
    assert_eq!(classify_dir_name(Some("rustdoctest1")), BinaryKind::DocTest);
    assert_eq!(classify_dir_name(Some("rustdoctestfoo")), BinaryKind::DocTest);
    assert_eq!(classify_dir_name(Some("rustdoctestrustdoctest")), BinaryKind::DocTest);
}

#[test]
fn any_other_dir_name_is_other() {
    assert_eq!(classify_dir_name(Some("")), BinaryKind::Other);
    assert_eq!(classify_dir_name(Some("d")), BinaryKind::Other);
    assert_eq!(classify_dir_name(Some("dep")), BinaryKind::Other);
    assert_eq!(classify_dir_name(Some("depsdeps")), BinaryKind::Other);
    assert_eq!(classify_dir_name(Some("deps ")), BinaryKind::Other);
    assert_eq!(classify_dir_name(Some("rustdoctes")), BinaryKind::Other);
    assert_eq!(classify_dir_name(Some("rustdoctesT1")), BinaryKind::Other);
    assert_eq!(classify_dir_name(Some(" rustdoctest")), BinaryKind::Other);
    assert_eq!(classify_dir_name(Some("debug")), BinaryKind::Other);
    assert_eq!(classify_dir_name(Some("\u{1f980}")), BinaryKind::Other);
}

#[test]
fn missing_dir_name_is_other() {
    assert_eq!(classify_dir_name(None), BinaryKind::Other);
}

#[test]
fn is_test_holds_of_both_test_kinds_only() {
    assert!(BinaryKind::Test.is_test());
    assert!(BinaryKind::DocTest.is_test());
    assert!(!BinaryKind::Other.is_test());
}

#[test]
fn binary_kind_is_a_plain_value() {
    let kind = BinaryKind::DocTest;
    let copy = kind;
    assert_eq!(kind, copy);
    assert_eq!(kind.clone(), BinaryKind::DocTest);
    assert_ne!(BinaryKind::Test, BinaryKind::DocTest);
    assert_ne!(BinaryKind::Test, BinaryKind::Other);
    assert_eq!(format!("{:?}", BinaryKind::Other), "Other");
}

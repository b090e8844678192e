//! Telling a binary's role from where it lies on disk.
//!
//! Cargo puts test harnesses into a directory named `deps` and documentation
//! tests into a directory whose name begins with `rustdoctest`. The kind of a
//! binary is therefore a function of the name of the directory that holds it;
//! nothing is read from disk.

use std::path::Path;
use vstd::prelude::*;
use vstd::string::StrSliceExecFns;

verus! {

/// The role of a compiled binary, told from the directory that holds it.
#[derive(Debug, PartialEq, Eq, Clone, Copy, Structural)]
pub enum BinaryKind {
    /// A unit-test or integration-test harness.
    Test,
    /// A documentation test.
    DocTest,
    /// Any other executable.
    Other,
}

impl BinaryKind {
    /// Whether binaries of this kind are tests: all but `Other` are.
    pub open spec fn spec_is_test(&self) -> bool {
        *self is Test || *self is DocTest
    }

    /// Returns `true` for `Test` and `DocTest`, `false` for `Other`.
    #[verifier::when_used_as_spec(spec_is_test)]
    pub fn is_test(&self) -> (b: bool)
        ensures
            b == self.spec_is_test(),
    {
        match self {
            BinaryKind::Test | BinaryKind::DocTest => true,
            BinaryKind::Other => false,
        }
    }
}

/// The directory name that marks a test harness.
pub open spec fn test_dir_name() -> Seq<char> {
    "deps"@
}

/// The prefix of the directory names that mark a documentation test.
pub open spec fn doctest_dir_prefix() -> Seq<char> {
    "rustdoctest"@
}

/// The kind of a binary whose directory has the given name, `None` standing
/// for a binary without a directory or with one whose name is no valid string.
pub open spec fn kind_of_dir_name(name: Option<Seq<char>>) -> BinaryKind {
    match name {
        Some(name) => if name == test_dir_name() {
            BinaryKind::Test
        } else if doctest_dir_prefix().is_prefix_of(name) {
            BinaryKind::DocTest
        } else {
            BinaryKind::Other
        },
        None => BinaryKind::Other,
    }
}

/// The characters of an optional string slice.
pub open spec fn chars_of(text: Option<&str>) -> Option<Seq<char>> {
    match text {
        Some(text) => Some(text@),
        None => None,
    }
}

/// Whether `text` begins with `prefix`, character by character.
fn has_prefix(text: &str, prefix: &str) -> (b: bool)
    ensures
        b == prefix@.is_prefix_of(text@),
{
    let n = prefix.unicode_len();
    if text.unicode_len() < n {
        return false;
    }
    let mut i: usize = 0;
    while i < n
        invariant
            n == prefix@.len(),
            n <= text@.len(),
            i <= n,
            forall|j: int| 0 <= j < i ==> text@[j] == prefix@[j],
        decreases n - i,
    {
        if text.get_char(i) != prefix.get_char(i) {
            return false;
        }
        i += 1;
    }
    true
}

/// Whether two string slices hold the same characters.
fn same_text(left: &str, right: &str) -> (b: bool)
    ensures
        b == (left@ == right@),
{
    if left.unicode_len() != right.unicode_len() {
        return false;
    }
    let b = has_prefix(left, right);
    assert(left@.subrange(0, left@.len() as int) =~= left@);
    b
}

/// Classifies a binary by the name of the directory that holds it.
///
/// `deps` gives `Test`, a name that begins with `rustdoctest` gives
/// `DocTest`, and every other name, or none, gives `Other`.
pub fn classify_dir_name(name: Option<&str>) -> (kind: BinaryKind)
    ensures
        kind == kind_of_dir_name(chars_of(name)),
{
    match name {
        Some(name) => {
            if same_text(name, "deps") {
                BinaryKind::Test
            } else if has_prefix(name, "rustdoctest") {
                BinaryKind::DocTest
            } else {
                BinaryKind::Other
            }
        },
        None => BinaryKind::Other,
    }
}

/// A path of the standard library. Verus sees nothing inside it: what the
/// library knows of a path it knows through the three names below.
#[verifier::external_type_specification]
#[verifier::external_body]
pub struct ExPath(std::path::Path);

/// What `Path::parent` returns for `path`: the path without its final
/// component, or `None` where `path` ends in a root or a prefix, or is empty.
pub uninterp spec fn parent_of(path: &Path) -> Option<&Path>;

/// What `Path::file_name` returns for `path`, taken as a path of that one
/// component: the final component where it is a normal name, and `None`
/// where the path ends in `..`, is a root, or is empty.
pub uninterp spec fn file_name_of(path: &Path) -> Option<&Path>;

/// What `Path::to_str` returns for `path`: its characters where the path is
/// valid Unicode, and `None` where it is not.
pub uninterp spec fn unicode_of(path: &Path) -> Option<Seq<char>>;

/// Calls `Path::parent`. Not proved: that the result is the value that
/// `parent_of` names, which is to say that it depends on the path alone.
#[verifier::external_body]
fn path_parent(path: &Path) -> (dir: Option<&Path>)
    ensures
        dir == parent_of(path),
{
    path.parent()
}

/// Calls `Path::file_name` and hands the component back as a path, which
/// changes its type and nothing else. Not proved: that the result is the
/// value that `file_name_of` names.
#[verifier::external_body]
fn path_file_name(path: &Path) -> (name: Option<&Path>)
    ensures
        name == file_name_of(path),
{
    path.file_name().map(Path::new)
}

/// Calls `Path::to_str`. Not proved: that the characters of the result are
/// those that `unicode_of` names, and that there is a result exactly where
/// `unicode_of` has one.
#[verifier::external_body]
fn path_to_str(path: &Path) -> (text: Option<&str>)
    ensures
        chars_of(text) == unicode_of(path),
{
    path.to_str()
}

/// The name of the directory that holds `path`: the final component of the
/// path's parent, where there is a parent, it ends in a normal name, and that
/// name is valid Unicode.
pub open spec fn parent_dir_name(path: &Path) -> Option<Seq<char>> {
    match parent_of(path) {
        Some(dir) => match file_name_of(dir) {
            Some(name) => unicode_of(name),
            None => None,
        },
        None => None,
    }
}

/// The kind of the binary at `path`.
pub open spec fn spec_binary_kind(path: &Path) -> BinaryKind {
    kind_of_dir_name(parent_dir_name(path))
}

/// Classifies the binary at `binary_path` by the name of its directory.
///
/// The path is only inspected, never looked up: it need not exist. A path
/// without a parent, or whose parent has no name that is a valid string, is
/// `Other`.
#[verifier::when_used_as_spec(spec_binary_kind)]
pub fn binary_kind(binary_path: &Path) -> (kind: BinaryKind)
    ensures
        kind == spec_binary_kind(binary_path),
{
    let parent_dir_name = path_parent(binary_path).and_then(path_file_name).and_then(path_to_str);
    classify_dir_name(parent_dir_name)
}

/// No directory name is both `deps` and a name that begins with
/// `rustdoctest`, so the order in which the two are tried decides nothing.
pub proof fn lemma_dir_names_are_disjoint(name: Seq<char>)
    ensures
        !(name == test_dir_name() && doctest_dir_prefix().is_prefix_of(name)),
{
    reveal_strlit("deps");
    reveal_strlit("rustdoctest");
}

/// Every binary that lies directly in a directory named `deps` is a `Test`,
/// and so counts as a test.
pub proof fn lemma_deps_is_test(path: &Path)
    requires
        parent_dir_name(path) == Some(test_dir_name()),
    ensures
        binary_kind(path) == BinaryKind::Test,
        binary_kind(path).is_test(),
{
}

/// Every binary that lies directly in a directory whose name begins with
/// `rustdoctest` is a `DocTest`, and so counts as a test.
pub proof fn lemma_rustdoctest_is_doctest(path: &Path)
    requires
        parent_dir_name(path) matches Some(name) && doctest_dir_prefix().is_prefix_of(name),
    ensures
        binary_kind(path) == BinaryKind::DocTest,
        binary_kind(path).is_test(),
{
    lemma_dir_names_are_disjoint(parent_dir_name(path)->0);
}

/// Every other binary is `Other` and does not count as a test: one without a
/// parent directory, one whose directory has no name that is a valid string,
/// and one whose directory is named neither `deps` nor `rustdoctest...`.
pub proof fn lemma_any_other_dir_is_other(path: &Path)
    requires
        parent_dir_name(path) != Some(test_dir_name()),
        !(parent_dir_name(path) matches Some(name) && doctest_dir_prefix().is_prefix_of(name)),
    ensures
        binary_kind(path) == BinaryKind::Other,
        !binary_kind(path).is_test(),
{
}

} // verus!

//! Path syntax, as the platform's `std::path` reads it.
//!
//! Paths travel through this crate as text. How a path splits into components
//! is the platform's business, so every question about a path's structure is put
//! to `std::path` through one of the small functions below. Their contracts are
//! taken on trust: each names the answer as a function of the path's text.

use vstd::prelude::*;

verus! {

/// The final component of `path` as `std::path::Path::file_name` reports it.
pub uninterp spec fn path_file_name(path: Seq<char>) -> Option<Seq<char>>;

/// The components of `path`, in order, as `std::path::Path::components` yields them.
pub uninterp spec fn path_components(path: Seq<char>) -> Seq<Seq<char>>;

/// `path` without its final component, as `std::path::Path::parent` reports it.
pub uninterp spec fn path_parent(path: Seq<char>) -> Option<Seq<char>>;

/// `child` adjoined to `base`, as `std::path::Path::join` builds it.
pub uninterp spec fn path_join(base: Seq<char>, child: Seq<char>) -> Seq<char>;

/// The extension of `path`, as `std::path::Path::extension` reports it.
pub uninterp spec fn path_extension(path: Seq<char>) -> Option<Seq<char>>;

/// Two paths lead to the same file when they split into the same
/// components, however they are spelled: `/inbox/a.pdf` and `/inbox//a.pdf`
/// are one file.
pub open spec fn is_same_file(a: Seq<char>, b: Seq<char>) -> bool {
    path_components(a) == path_components(b)
}

/// The name a file at `path` is shown under: its final component, or nothing
/// where the path has none.
pub open spec fn display_name(path: Seq<char>) -> Seq<char> {
    match path_file_name(path) {
        Some(name) => name,
        None => Seq::empty(),
    }
}

/// Calls `std::path::Path::file_name`.
///
/// Trusted: the result is the final component that `std::path` finds in the
/// text of `path`, and depends on nothing else. The text is valid UTF-8, so
/// the component is returned unchanged.
#[verifier::external_body]
pub(crate) fn file_name_of(path: &str) -> (name: Option<String>)
    ensures
        name.deep_view() == path_file_name(path@),
{
    std::path::Path::new(path).file_name().map(|n| n.to_string_lossy().into_owned())
}

/// Calls `std::path::Path::components` and hands out each component as text.
///
/// Trusted: the result lists the components that `std::path` finds in the text
/// of `path`, first to last, and depends on nothing else.
#[verifier::external_body]
pub(crate) fn components_of(path: &str) -> (parts: Vec<String>)
    ensures
        parts.deep_view() == path_components(path@),
{
    std::path::Path::new(path).components().map(
        |c| c.as_os_str().to_string_lossy().into_owned(),
    ).collect()
}

/// Calls `std::path::Path::parent`.
///
/// Trusted: the result is the parent that `std::path` finds in the text of
/// `path`, and depends on nothing else.
#[verifier::external_body]
pub(crate) fn parent_of(path: &str) -> (parent: Option<String>)
    ensures
        parent.deep_view() == path_parent(path@),
{
    std::path::Path::new(path).parent().map(|p| p.to_string_lossy().into_owned())
}

/// Calls `std::path::Path::join`.
///
/// Trusted: the result is the path that `std::path` builds from the two texts,
/// and depends on nothing else.
#[verifier::external_body]
pub(crate) fn join_path(base: &str, child: &str) -> (joined: String)
    ensures
        joined@ == path_join(base@, child@),
{
    std::path::Path::new(base).join(child).to_string_lossy().into_owned()
}

/// Calls `std::path::Path::extension`.
///
/// Trusted: the result is the extension that `std::path` finds in the text
/// of `path`, and depends on nothing else.
#[verifier::external_body]
pub(crate) fn extension_of(path: &str) -> (extension: Option<String>)
    ensures
        extension.deep_view() == path_extension(path@),
{
    std::path::Path::new(path).extension().map(|e| e.to_string_lossy().into_owned())
}

/// Whether two lists of components are the same.
pub fn same_parts(a: &Vec<String>, b: &Vec<String>) -> (same: bool)
    ensures
        same == (a.deep_view() == b.deep_view()),
{
    if a.len() != b.len() {
        assert(a.deep_view().len() != b.deep_view().len());
        return false;
    }
    let mut i: usize = 0;
    while i < a.len()
        invariant
            i <= a.len(),
            a.len() == b.len(),
            forall|k: int| 0 <= k < i ==> a.deep_view()[k] == b.deep_view()[k],
        decreases a.len() - i,
    {
        assert(a.deep_view()[i as int] == a@[i as int]@);
        assert(b.deep_view()[i as int] == b@[i as int]@);
        if a[i] != b[i] {
            return false;
        }
        i += 1;
    }
    assert(a.deep_view() =~= b.deep_view());
    true
}

/// Whether two paths lead to the same file.
pub fn same_file(a: &str, b: &str) -> (same: bool)
    ensures
        same == is_same_file(a@, b@),
{
    let left = components_of(a);
    let right = components_of(b);
    same_parts(&left, &right)
}

/// The name a file at `path` is shown under.
pub fn file_display_name(path: &str) -> (name: String)
    ensures
        name@ == display_name(path@),
{
    match file_name_of(path) {
        Some(name) => name,
        None => String::new(),
    }
}

} // verus!

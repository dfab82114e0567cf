//! The ignore filter: which paths are never candidates for upload.

use crate::paths::components_of;
use crate::paths::file_name_of;
use crate::paths::path_components;
use crate::paths::path_file_name;
use crate::text::ends_with;
use crate::text::same_text;
use crate::text::starts_with;
use vstd::prelude::*;

verus! {

/// The name opens with a dot: a hidden entry.
pub open spec fn is_hidden_name(name: Seq<char>) -> bool {
    "."@.is_prefix_of(name)
}

/// The name is one of the files that operating systems scatter by themselves.
pub open spec fn is_system_name(name: Seq<char>) -> bool {
    ||| name == ".DS_Store"@
    ||| name == "Thumbs.db"@
    ||| name == "desktop.ini"@
    ||| name == ".localized"@
    ||| name == "Icon\r"@
}

/// The name opens like an editor's lock file or a resource fork.
pub open spec fn has_ignored_prefix(name: Seq<char>) -> bool {
    ||| "~$"@.is_prefix_of(name)
    ||| "._"@.is_prefix_of(name)
}

/// The name ends like a temporary file or an unfinished download.
pub open spec fn has_ignored_suffix(name: Seq<char>) -> bool {
    ||| ".tmp"@.is_suffix_of(name)
    ||| ".swp"@.is_suffix_of(name)
    ||| ".crdownload"@.is_suffix_of(name)
    ||| ".part"@.is_suffix_of(name)
    ||| ".partial"@.is_suffix_of(name)
}

/// The name alone rules the file out.
pub open spec fn is_ignored_name(name: Seq<char>) -> bool {
    ||| is_hidden_name(name)
    ||| is_system_name(name)
    ||| has_ignored_prefix(name)
    ||| has_ignored_suffix(name)
}

/// One of the components is the archive folder.
pub open spec fn passes_archive(components: Seq<Seq<char>>) -> bool {
    exists|i: int| 0 <= i < components.len() && #[trigger] components[i] == "Subidos"@
}

/// Whether an entry is ignored, given its file name, the components of its
/// path and whether it is a directory. An entry without a file name is
/// ignored.
pub open spec fn is_ignored(
    file_name: Option<Seq<char>>,
    components: Seq<Seq<char>>,
    is_dir: bool,
) -> bool {
    match file_name {
        None => true,
        Some(name) => is_ignored_name(name) || passes_archive(components) || is_dir,
    }
}

/// Whether the path at `path` is ignored, as the platform reads the path.
pub open spec fn ignores(path: Seq<char>, is_dir: bool) -> bool {
    is_ignored(path_file_name(path), path_components(path), is_dir)
}

/// Whether a file of this name is ruled out by its name alone.
pub fn ignored_name(name: &str) -> (ignored: bool)
    ensures
        ignored == is_ignored_name(name@),
{
    if starts_with(name, ".") {
        return true;
    }
    let exact = same_text(name, "Thumbs.db") || same_text(name, "desktop.ini") || same_text(
        name,
        "Icon\r",
    );
    proof {
        lemma_dotted(".DS_Store"@);
        lemma_dotted(".localized"@);
    }
    if exact {
        return true;
    }
    if starts_with(name, "~$") || starts_with(name, "._") {
        return true;
    }
    ends_with(name, ".tmp") || ends_with(name, ".swp") || ends_with(name, ".crdownload")
        || ends_with(name, ".part") || ends_with(name, ".partial")
}

proof fn lemma_dotted(word: Seq<char>)
    requires
        word == ".DS_Store"@ || word == ".localized"@,
    ensures
        is_hidden_name(word),
{
    reveal_strlit(".DS_Store");
    reveal_strlit(".localized");
    reveal_strlit(".");
    assert("."@ =~= word.subrange(0, 1));
}

/// Whether any component of a path is the archive folder.
pub fn through_archive(components: &Vec<String>) -> (found: bool)
    ensures
        found == passes_archive(components.deep_view()),
{
    let archive = "Subidos".to_owned();
    let mut i: usize = 0;
    while i < components.len()
        invariant
            i <= components.len(),
            archive@ == "Subidos"@,
            forall|k: int| 0 <= k < i ==> #[trigger] components.deep_view()[k] != "Subidos"@,
        decreases components.len() - i,
    {
        assert(components.deep_view()[i as int] == components@[i as int]@);
        if components[i] == archive {
            return true;
        }
        i += 1;
    }
    false
}

/// Decides whether an entry is ignored, from its file name, the components
/// of its path and whether it is a directory.
pub fn ignore_decision(file_name: Option<&str>, components: &Vec<String>, is_dir: bool) -> (ignored:
    bool)
    ensures
        ignored == is_ignored(
            match file_name {
                Some(name) => Some(name@),
                None => None,
            },
            components.deep_view(),
            is_dir,
        ),
{
    match file_name {
        None => true,
        Some(name) => ignored_name(name) || through_archive(components) || is_dir,
    }
}

/// Whether the entry at `path` is left alone: hidden entries, system
/// artifacts, temporary and partial files, anything inside the archive
/// folder, and directories. `is_dir` tells whether the entry is a directory.
pub fn should_ignore(path: &str, is_dir: bool) -> (ignored: bool)
    ensures
        ignored == ignores(path@, is_dir),
        is_dir ==> ignored,
{
    let file_name = file_name_of(path);
    let components = components_of(path);
    match file_name {
        None => true,
        Some(name) => ignore_decision(Some(name.as_str()), &components, is_dir),
    }
}

} // verus!

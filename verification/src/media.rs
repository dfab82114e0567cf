//! Media types, guessed from file names by the `mime_guess` crate.

use vstd::prelude::*;

verus! {

/// The media type that `mime_guess` settles on for `path`: the first type
/// its table lists for the path's extension, and `application/octet-stream`
/// where it lists none.
pub uninterp spec fn guessed_media_type(path: Seq<char>) -> Seq<char>;

/// Calls `mime_guess::from_path` and `MimeGuess::first_or_octet_stream` on
/// the guess, and renders the media type as text.
///
/// Trusted: the result is a function of the text of `path` alone. No disk
/// access is made; the guess goes by the extension that `std::path` finds.
#[verifier::external_body]
pub(crate) fn media_type_of(path: &str) -> (media_type: String)
    ensures
        media_type@ == guessed_media_type(path@),
{
    mime_guess::from_path(path).first_or_octet_stream().to_string()
}

} // verus!

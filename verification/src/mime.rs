//! MIME type detection by file extension, through the `mime_guess` crate.

use vstd::prelude::*;

verus! {

/// The MIME type that extension-based detection assigns to a path. The
/// mapping is a fixed table keyed by the path's extension; it depends on the
/// path alone.
pub uninterp spec fn mime_for_path(path: Seq<char>) -> Seq<char>;

/// Relies on `mime_guess::from_path` and `MimeGuess::first_or_octet_stream`:
/// the guess is a pure, case-insensitive table lookup on the path's
/// extension, and the fallback is `application/octet-stream`, so the result
/// is a function of the path and is never empty.
#[verifier::external_body]
pub fn guess_mime_type(path: &str) -> (r: String)
    ensures
        r@ == mime_for_path(path@),
        r@.len() > 0,
{
    mime_guess::from_path(path).first_or_octet_stream().to_string()
}

} // verus!

//! MIME classification of a staged upload: the type is guessed from the
//! file's extension, and only top-level `image` types may proceed.

use vstd::prelude::*;
use vstd::string::StrSliceExecFns;

verus! {

/// The media type that the extension table maps `ext` to, with
/// `application/octet-stream` as the fallback for unknown extensions.
pub uninterp spec fn spec_mime_guess(ext: Seq<char>) -> Seq<char>;

/// Relies on `mime_guess2::from_ext(..).first_or_octet_stream()`: a pure,
/// case-insensitive lookup of the extension in the crate's static media-type
/// table, falling back to `application/octet-stream` when the extension is
/// empty or unknown. Every entry of the table is a non-empty type string.
#[verifier::external_body]
pub(crate) fn guess_mime_for_ext(ext: &str) -> (r: String)
    ensures
        r@ == spec_mime_guess(ext@),
        ext@.len() == 0 ==> r@ == "application/octet-stream"@,
        r@.len() > 0,
{
    mime_guess2::from_ext(ext).first_or_octet_stream().as_ref().to_owned()
}

/// A media type whose top level is `image`, that is, one starting `image/`.
pub open spec fn spec_is_image_mime(m: Seq<char>) -> bool {
    m.len() >= 6 && m[0] == 'i' && m[1] == 'm' && m[2] == 'a' && m[3] == 'g' && m[4] == 'e' && m[5]
        == '/'
}

/// Checks whether the media type's top level is `image`.
pub fn is_image_mime(m: &str) -> (r: bool)
    ensures
        r == spec_is_image_mime(m@),
{
    let n = m.unicode_len();
    n >= 6 && m.get_char(0) == 'i' && m.get_char(1) == 'm' && m.get_char(2) == 'a' && m.get_char(3)
        == 'g' && m.get_char(4) == 'e' && m.get_char(5) == '/'
}

} // verus!

//! Serving stored objects back out: key validation before any storage call,
//! the conditional-request decision, and the cache directives. An object is
//! content-keyed and never mutated in place, so a served body may be cached
//! for a month and marked immutable.

use vstd::prelude::*;
use vstd::string::StrSliceExecFns;
use crate::errors::ErrorCode;
use crate::keys::is_uuid_text;
use crate::keys::spec_is_uuid_text;
use crate::storage::StorageError;

verus! {

/// A character an extension may use: a lower-case letter or a digit.
pub open spec fn spec_is_ext_char(c: char) -> bool {
    ('a' <= c && c <= 'z') || ('0' <= c && c <= '9')
}

/// A well-formed object key: a 36-character UUID, a dot, and an extension of
/// one to five extension characters. Anything else is rejected before any
/// storage call.
pub open spec fn spec_is_object_key(s: Seq<char>) -> bool {
    &&& 38 <= s.len() <= 42
    &&& spec_is_uuid_text(s.subrange(0, 36))
    &&& s[36] == '.'
    &&& forall|i: int| 37 <= i < s.len() ==> spec_is_ext_char(s[i])
}

/// A preview key: an object key of exactly 41 characters, the length the
/// derivative codec's suffix produces.
pub open spec fn spec_is_preview_key(s: Seq<char>) -> bool {
    spec_is_object_key(s) && s.len() == 41
}

/// Validates an object key, in the sense of [`spec_is_object_key`].
pub fn check_key(name: &str) -> (r: bool)
    ensures
        r == spec_is_object_key(name@),
{
    let n = name.unicode_len();
    if n < 38 || n > 42 {
        return false;
    }
    let uuid_part = name.substring_char(0, 36);
    if !is_uuid_text(uuid_part) {
        return false;
    }
    if name.get_char(36) != '.' {
        return false;
    }
    let mut i: usize = 37;
    while i < n
        invariant
            n == name@.len(),
            38 <= n <= 42,
            37 <= i <= n,
            forall|j: int| 37 <= j < i ==> spec_is_ext_char(name@[j]),
        decreases n - i,
    {
        let c = name.get_char(i);
        if !(('a' <= c && c <= 'z') || ('0' <= c && c <= '9')) {
            assert(!spec_is_ext_char(name@[i as int]));
            return false;
        }
        i = i + 1;
    }
    true
}

/// Validates a preview key.
pub fn check_preview_key(name: &str) -> (r: bool)
    ensures
        r == spec_is_preview_key(name@),
{
    let n = name.unicode_len();
    n == 41 && check_key(name)
}

/// The UUID part of a preview key: its first 36 characters.
pub fn preview_uuid(name: &str) -> (r: String)
    requires
        spec_is_preview_key(name@),
    ensures
        r@ == name@.subrange(0, 36),
        spec_is_uuid_text(r@),
{
    name.substring_char(0, 36).to_owned()
}

/// What the backend reported about a fetched object.
pub struct ObjectMeta {
    pub etag: Option<String>,
    pub content_type: Option<String>,
    pub content_length: Option<u64>,
}

/// How a fetch is answered: either nothing has changed and no body byte is
/// transferred, or the body is streamed under the returned headers.
pub enum FetchPlan {
    NotModified,
    Stream { etag: Option<String>, content_type: Option<String>, content_length: Option<u64>, cache_control: String },
}

/// Decides a conditional fetch. The request is answered "not modified" —
/// transferring zero body bytes, the variant carries none — exactly when the
/// client's `If-None-Match` value equals the object's current ETag; otherwise
/// the body streams out under the backend's ETag, content type and length,
/// and a long-lived immutable cache directive.
pub fn plan_fetch(if_none_match: Option<&String>, meta: ObjectMeta) -> (r: FetchPlan)
    ensures
        r is NotModified <==> (match (if_none_match, meta.etag) {
            (Some(c), Some(e)) => c@ == e@,
            _ => false,
        }),
        r matches FetchPlan::Stream { etag, content_type, content_length, cache_control } ==> {
            &&& etag == meta.etag
            &&& content_type == meta.content_type
            &&& content_length == meta.content_length
            &&& cache_control@ == "public, max-age=2592000, immutable"@
        },
{
    let matched = match (if_none_match, &meta.etag) {
        (Some(c), Some(e)) => c.eq(e),
        _ => false,
    };
    if matched {
        FetchPlan::NotModified
    } else {
        FetchPlan::Stream {
            etag: meta.etag,
            content_type: meta.content_type,
            content_length: meta.content_length,
            cache_control: String::from_str("public, max-age=2592000, immutable"),
        }
    }
}

/// Maps a failed fetch to the error served: a missing key is `NotFound`,
/// everything else an internal error.
pub fn fetch_error_code(e: StorageError) -> (r: ErrorCode)
    ensures
        e == StorageError::NotFound ==> r == ErrorCode::NotFound,
        e != StorageError::NotFound ==> r == ErrorCode::InternalError,
{
    match e {
        StorageError::NotFound => ErrorCode::NotFound,
        _ => ErrorCode::InternalError,
    }
}

/// How long a download URL signed for redirecting a fetch stays valid.
pub fn download_url_ttl_secs() -> (r: u64)
    ensures
        r == 60,
{
    60
}

} // verus!

//! Storage-key text: the canonical `<uuid>.<ext>` shape, its validation,
//! and construction from a freshly minted UUID.

use vstd::prelude::*;
use vstd::string::StrSliceExecFns;
use vstd::string::StringExecFns;

verus! {

/// A lower-case hexadecimal digit, as the hyphenated UUID text form uses.
pub open spec fn spec_is_hex_lower(c: char) -> bool {
    ('0' <= c && c <= '9') || ('a' <= c && c <= 'f')
}

/// Positions 8, 13, 18 and 23 of a hyphenated UUID hold `-`; all others a
/// lower-case hex digit.
pub open spec fn spec_uuid_char_ok(s: Seq<char>, i: int) -> bool {
    if i == 8 || i == 13 || i == 18 || i == 23 {
        s[i] == '-'
    } else {
        spec_is_hex_lower(s[i])
    }
}

/// The 36-character hyphenated text form of a UUID.
pub open spec fn spec_is_uuid_text(s: Seq<char>) -> bool {
    s.len() == 36 && (forall|i: int| 0 <= i < 36 ==> spec_uuid_char_ok(s, i))
}

/// An object key: a UUID followed by a dot and the (possibly empty) extension.
pub open spec fn spec_key(uuid: Seq<char>, ext: Seq<char>) -> Seq<char> {
    uuid + seq!['.'] + ext
}

fn is_hex_lower(c: char) -> (r: bool)
    ensures
        r == spec_is_hex_lower(c),
{
    ('0' <= c && c <= '9') || ('a' <= c && c <= 'f')
}

/// Checks that `s` is the 36-character hyphenated text form of a UUID.
pub fn is_uuid_text(s: &str) -> (r: bool)
    ensures
        r == spec_is_uuid_text(s@),
{
    let n = s.unicode_len();
    if n != 36 {
        return false;
    }
    let mut i: usize = 0;
    while i < 36
        invariant
            s@.len() == 36,
            i <= 36,
            forall|j: int| 0 <= j < i ==> spec_uuid_char_ok(s@, j),
        decreases 36 - i,
    {
        let c = s.get_char(i);
        let ok = if i == 8 || i == 13 || i == 18 || i == 23 {
            c == '-'
        } else {
            is_hex_lower(c)
        };
        if !ok {
            assert(!spec_uuid_char_ok(s@, i as int));
            return false;
        }
        i = i + 1;
    }
    true
}

/// Builds the object key `<uuid>.<ext>`.
pub fn make_key(uuid_text: &str, ext: &str) -> (r: String)
    ensures
        r@ == spec_key(uuid_text@, ext@),
{
    proof {
        reveal_strlit(".");
    }
    let head = String::from_str(uuid_text).concat(".");
    proof {
        assert(head@ =~= uuid_text@ + seq!['.']);
    }
    let r = head.concat(ext);
    proof {
        assert(r@ =~= spec_key(uuid_text@, ext@));
    }
    r
}

/// Relies on `uuid::Uuid::new_v4()` and its `Display` impl: the value is
/// random, so nothing can be promised of it beyond its text shape, the
/// 36-character lower-case hyphenated form. Used for presign keys, which must
/// not derive from any client-supplied name.
#[verifier::external_body]
pub(crate) fn mint_random_uuid() -> (r: String)
    ensures
        spec_is_uuid_text(r@),
{
    uuid::Uuid::new_v4().to_string()
}

/// Relies on `uuid::Uuid::now_v7()` and its `Display` impl: a time-ordered
/// UUID, so freshly minted ingest keys sort chronologically; the clock and
/// random bits make every promise beyond the text shape impossible. The text
/// shape is the same 36-character lower-case hyphenated form.
#[verifier::external_body]
pub(crate) fn mint_ordered_uuid() -> (r: String)
    ensures
        spec_is_uuid_text(r@),
{
    uuid::Uuid::now_v7().to_string()
}

/// Distinct UUIDs give distinct object keys, whatever the extensions are:
/// the UUID occupies the first 36 characters of every key, so two uploads
/// that share an original filename (hence an extension) still cannot
/// collide unless the minted UUIDs themselves collide.
pub proof fn lemma_distinct_uuids_distinct_keys(
    u1: Seq<char>,
    u2: Seq<char>,
    e1: Seq<char>,
    e2: Seq<char>,
)
    requires
        spec_is_uuid_text(u1),
        spec_is_uuid_text(u2),
        u1 != u2,
    ensures
        spec_key(u1, e1) != spec_key(u2, e2),
{
    if spec_key(u1, e1) == spec_key(u2, e2) {
        assert forall|i: int| 0 <= i < 36 implies u1[i] == u2[i] by {
            assert(spec_key(u1, e1)[i] == u1[i]);
            assert(spec_key(u2, e2)[i] == u2[i]);
        }
        assert(u1 =~= u2);
    }
}

} // verus!

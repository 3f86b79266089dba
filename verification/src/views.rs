//! Response assembly for the listing endpoints: where served links point —
//! the configured base URL when one is set, the server's own otherwise — and
//! the gallery entries built from stored records.

use vstd::prelude::*;
use vstd::string::StrSliceExecFns;
use vstd::string::StringExecFns;
use crate::keys::make_key;
use crate::keys::spec_key;
use crate::num::spec_dec_of;
use crate::num::u64_to_dec;
use crate::records::ListPage;
use crate::records::StoredRecord;

verus! {

pub open spec fn spec_is_space(c: char) -> bool {
    c == ' ' || c == '\t' || c == '\n' || c == '\r'
}

/// Text that trims away to nothing.
pub open spec fn spec_is_blank(s: Seq<char>) -> bool {
    forall|i: int| 0 <= i < s.len() ==> spec_is_space(s[i])
}

/// Whether `s` holds nothing but whitespace.
pub fn is_blank(s: &str) -> (r: bool)
    ensures
        r == spec_is_blank(s@),
{
    let n = s.unicode_len();
    let mut i: usize = 0;
    while i < n
        invariant
            n == s@.len(),
            i <= n,
            forall|j: int| 0 <= j < i ==> spec_is_space(s@[j]),
        decreases n - i,
    {
        let c = s.get_char(i);
        if !(c == ' ' || c == '\t' || c == '\n' || c == '\r') {
            assert(!spec_is_space(s@[i as int]));
            return false;
        }
        i = i + 1;
    }
    true
}

/// The base the public view links are built on: the configured base URL, or
/// the server's own view route when none is configured.
pub fn resolve_view_base(local_base_url: &str, server_url: &str) -> (r: String)
    ensures
        spec_is_blank(local_base_url@) ==> r@ == server_url@ + "/api/view"@,
        !spec_is_blank(local_base_url@) ==> r@ == local_base_url@,
{
    if is_blank(local_base_url) {
        String::from_str(server_url).concat("/api/view")
    } else {
        local_base_url.to_owned()
    }
}

/// The base the gallery's preview links are built on.
pub fn resolve_preview_base(local_base_url: &str, server_url: &str) -> (r: String)
    ensures
        spec_is_blank(local_base_url@) ==> r@ == server_url@ + "/api/view/preview"@,
        !spec_is_blank(local_base_url@) ==> r@ == local_base_url@ + "/preview"@,
{
    if is_blank(local_base_url) {
        String::from_str(server_url).concat("/api/view/preview")
    } else {
        String::from_str(local_base_url).concat("/preview")
    }
}

/// One gallery entry.
pub struct Image {
    pub id: u64,
    pub preview_url: String,
    pub original_url: String,
    pub name: String,
    pub size: String,
}

/// The listing endpoint's response body.
pub struct ListViewResponse {
    pub images: Vec<Image>,
    pub total: u64,
    pub pages: u64,
}

/// The gallery entry of one record: the preview link points at the record's
/// derivative key under the preview base, the original link and display name
/// come from the record, and the size is rendered in decimal.
pub fn build_image(record: &StoredRecord, base: &str) -> (r: Image)
    ensures
        r.id == record.id,
        r.preview_url@ == base@ + "/"@ + spec_key(record.uuid@, "avif"@),
        r.original_url@ == record.url@,
        r.name@ == record.raw_name@,
        r.size@ == spec_dec_of(record.size as nat),
{
    let key = make_key(record.uuid.as_str(), "avif");
    let preview_url = String::from_str(base).concat("/").concat(key.as_str());
    proof {
        assert(preview_url@ =~= base@ + "/"@ + spec_key(record.uuid@, "avif"@));
    }
    Image {
        id: record.id,
        preview_url,
        original_url: record.url.clone(),
        name: record.raw_name.clone(),
        size: u64_to_dec(record.size),
    }
}

/// Turns one listing page into the response body, entry for entry.
pub fn build_listing(page: &ListPage, base: &str) -> (r: ListViewResponse)
    ensures
        r.total == page.total,
        r.pages == page.pages,
        r.images@.len() == page.items@.len(),
        forall|i: int|
            0 <= i < r.images@.len() ==> {
                let img = #[trigger] r.images@[i];
                &&& img.id == page.items@[i].id
                &&& img.preview_url@ == base@ + "/"@ + spec_key(page.items@[i].uuid@, "avif"@)
                &&& img.original_url@ == page.items@[i].url@
                &&& img.name@ == page.items@[i].raw_name@
                &&& img.size@ == spec_dec_of(page.items@[i].size as nat)
            },
{
    let mut images: Vec<Image> = Vec::new();
    let n = page.items.len();
    let mut i: usize = 0;
    while i < n
        invariant
            n == page.items@.len(),
            i <= n,
            images@.len() == i,
            forall|j: int|
                0 <= j < i ==> {
                    let img = #[trigger] images@[j];
                    &&& img.id == page.items@[j].id
                    &&& img.preview_url@ == base@ + "/"@ + spec_key(page.items@[j].uuid@, "avif"@)
                    &&& img.original_url@ == page.items@[j].url@
                    &&& img.name@ == page.items@[j].raw_name@
                    &&& img.size@ == spec_dec_of(page.items@[j].size as nat)
                },
        decreases n - i,
    {
        images.push(build_image(&page.items[i], base));
        i = i + 1;
    }
    ListViewResponse { images, total: page.total, pages: page.pages }
}

/// The page size a listing request is served with: the requested limit,
/// floored at one and capped at twenty.
pub fn page_size(limit: u64) -> (r: u64)
    ensures
        r == if limit < 1 {
            1u64
        } else if limit > 20 {
            20u64
        } else {
            limit
        },
{
    if limit < 1 {
        1
    } else if limit > 20 {
        20
    } else {
        limit
    }
}

} // verus!

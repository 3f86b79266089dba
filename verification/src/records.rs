//! The metadata store's semantics: one durable record per successful upload,
//! at most one per public URL, found back by filename or by owner, listed
//! newest-first in pages. The durable backend is outside the library; this
//! model is the contract it is held to, and what the finders' logic is
//! verified against.

use vstd::prelude::*;
use crate::errors::ErrorCode;
use crate::ingest::UploadResult;

verus! {

/// One persisted upload record.
pub struct StoredRecord {
    pub id: u64,
    pub url: String,
    pub file_name: String,
    pub raw_name: String,
    pub uuid: String,
    pub is_public: bool,
    pub user_id: Option<String>,
    pub size: u64,
}

impl StoredRecord {
    /// Field-for-field copy.
    pub fn duplicate(&self) -> (r: StoredRecord)
        ensures
            r == *self,
    {
        StoredRecord {
            id: self.id,
            url: self.url.clone(),
            file_name: self.file_name.clone(),
            raw_name: self.raw_name.clone(),
            uuid: self.uuid.clone(),
            is_public: self.is_public,
            user_id: match &self.user_id {
                Some(pid) => Some(pid.clone()),
                None => None,
            },
            size: self.size,
        }
    }
}

/// Some record in `s` already claims `url`.
pub open spec fn spec_has_url(s: Seq<StoredRecord>, url: Seq<char>) -> bool {
    exists|i: int| 0 <= i < s.len() && s[i].url@ == url
}

/// The record `r` matches a public fetch of `name`.
pub open spec fn spec_public_named(r: StoredRecord, name: Seq<char>) -> bool {
    r.file_name@ == name && r.is_public
}

/// The record `r` belongs to owner `pid` and carries `uuid`.
pub open spec fn spec_owned_with_uuid(r: StoredRecord, uuid: Seq<char>, pid: Seq<char>) -> bool {
    r.uuid@ == uuid && (r.user_id matches Some(p) && p@ == pid)
}

/// The record `r` belongs to owner `pid`.
pub open spec fn spec_owned_by(r: StoredRecord, pid: Seq<char>) -> bool {
    r.user_id matches Some(p) && p@ == pid
}

/// The metadata store: an append-only log of upload records.
pub struct MetadataStore {
    records: Vec<StoredRecord>,
}

impl MetadataStore {
    pub closed spec fn spec_records(&self) -> Seq<StoredRecord> {
        self.records@
    }

    pub fn new() -> (r: MetadataStore)
        ensures
            r.spec_records() =~= Seq::<StoredRecord>::empty(),
    {
        MetadataStore { records: Vec::new() }
    }

    pub fn len(&self) -> (r: usize)
        ensures
            r == self.spec_records().len(),
    {
        self.records.len()
    }

    /// Persists the record of a successful ingest. At most one durable record
    /// may exist per public URL: a duplicate URL is refused with `Conflict`
    /// and the store is left unchanged. Otherwise the record is appended
    /// with the next id.
    pub fn save(&mut self, result: &UploadResult) -> (r: Result<u64, ErrorCode>)
        requires
            old(self).spec_records().len() < u64::MAX,
        ensures
            spec_has_url(old(self).spec_records(), result.url@) ==> r == Err::<u64, ErrorCode>(
                ErrorCode::Conflict,
            ) && final(self).spec_records() == old(self).spec_records(),
            !spec_has_url(old(self).spec_records(), result.url@) ==> (r matches Ok(id) && {
                let recs = final(self).spec_records();
                &&& id == old(self).spec_records().len() + 1
                &&& recs.len() == old(self).spec_records().len() + 1
                &&& recs.drop_last() == old(self).spec_records()
                &&& recs.last().id == id
                &&& recs.last().url@ == result.url@
                &&& recs.last().file_name@ == result.file_name@
                &&& recs.last().raw_name@ == result.raw_name@
                &&& recs.last().uuid@ == result.uuid@
                &&& recs.last().is_public == result.is_public
                &&& (match (recs.last().user_id, result.user_id) {
                    (Some(p), Some(q)) => p@ == q@,
                    (None, None) => true,
                    _ => false,
                })
                &&& recs.last().size == result.size
            }),
    {
        let n = self.records.len();
        let mut i: usize = 0;
        while i < n
            invariant
                n == self.spec_records().len(),
                i <= n,
                forall|j: int| 0 <= j < i ==> self.spec_records()[j].url@ != result.url@,
            decreases n - i,
        {
            if self.records[i].url.eq(&result.url) {
                return Err(ErrorCode::Conflict);
            }
            i = i + 1;
        }
        let id = n as u64 + 1;
        let record = StoredRecord {
            id,
            url: result.url.clone(),
            file_name: result.file_name.clone(),
            raw_name: result.raw_name.clone(),
            uuid: result.uuid.clone(),
            is_public: result.is_public,
            user_id: match &result.user_id {
                Some(pid) => Some(pid.clone()),
                None => None,
            },
            size: result.size,
        };
        self.records.push(record);
        proof {
            assert(final(self).spec_records().drop_last() =~= old(self).spec_records());
        }
        Ok(id)
    }

    /// Finds the first public record named `name`; `NotFound` when none is.
    pub fn find_by_filename(&self, name: &str) -> (r: Result<&StoredRecord, ErrorCode>)
        ensures
            match r {
                Ok(rec) => exists|i: int|
                    0 <= i < self.spec_records().len() && self.spec_records()[i] == *rec
                        && spec_public_named(self.spec_records()[i], name@),
                Err(e) => e == ErrorCode::NotFound && forall|i: int|
                    0 <= i < self.spec_records().len() ==> !spec_public_named(
                        self.spec_records()[i],
                        name@,
                    ),
            },
    {
        let owned = name.to_owned();
        let n = self.records.len();
        let mut i: usize = 0;
        while i < n
            invariant
                n == self.spec_records().len(),
                i <= n,
                owned@ == name@,
                forall|j: int| 0 <= j < i ==> !spec_public_named(self.spec_records()[j], name@),
            decreases n - i,
        {
            let rec = &self.records[i];
            if rec.file_name.eq(&owned) && rec.is_public {
                return Ok(rec);
            }
            i = i + 1;
        }
        Err(ErrorCode::NotFound)
    }

    /// Finds the first record carrying `uuid` that belongs to `pid`;
    /// `NotFound` when none does.
    pub fn find_by_uuid_and_owner(&self, uuid: &str, pid: &str) -> (r: Result<
        &StoredRecord,
        ErrorCode,
    >)
        ensures
            match r {
                Ok(rec) => exists|i: int|
                    0 <= i < self.spec_records().len() && self.spec_records()[i] == *rec
                        && spec_owned_with_uuid(self.spec_records()[i], uuid@, pid@),
                Err(e) => e == ErrorCode::NotFound && forall|i: int|
                    0 <= i < self.spec_records().len() ==> !spec_owned_with_uuid(
                        self.spec_records()[i],
                        uuid@,
                        pid@,
                    ),
            },
    {
        let owned_uuid = uuid.to_owned();
        let owned_pid = pid.to_owned();
        let n = self.records.len();
        let mut i: usize = 0;
        while i < n
            invariant
                n == self.spec_records().len(),
                i <= n,
                owned_uuid@ == uuid@,
                owned_pid@ == pid@,
                forall|j: int|
                    0 <= j < i ==> !spec_owned_with_uuid(self.spec_records()[j], uuid@, pid@),
            decreases n - i,
        {
            let rec = &self.records[i];
            let owned_match = match &rec.user_id {
                Some(p) => p.eq(&owned_pid),
                None => false,
            };
            if rec.uuid.eq(&owned_uuid) && owned_match {
                return Ok(rec);
            }
            i = i + 1;
        }
        Err(ErrorCode::NotFound)
    }
}

/// The records owned by `pid`, in insertion order.
pub open spec fn spec_owned_records(s: Seq<StoredRecord>, pid: Seq<char>) -> Seq<StoredRecord> {
    s.filter(|r: StoredRecord| spec_owned_by(r, pid))
}

/// One page of a newest-first listing: the records from `page * size` on,
/// at most `size` of them, empty when the start lies past the end.
pub open spec fn spec_page_slice(newest: Seq<StoredRecord>, page: int, size: int) -> Seq<
    StoredRecord,
> {
    let start = page * size;
    let end = if start + size <= newest.len() {
        start + size
    } else {
        newest.len() as int
    };
    if 0 <= start && start < newest.len() {
        newest.subrange(start, end)
    } else {
        Seq::empty()
    }
}

/// One answered listing request.
pub struct ListPage {
    pub items: Vec<StoredRecord>,
    pub total: u64,
    pub pages: u64,
}

impl MetadataStore {
    /// Lists the records owned by `pid`, newest first, in pages of
    /// `page_size`. `total` counts all of the owner's records and `pages`
    /// the pages they fill; a requested page beyond the last is clamped to
    /// the page boundary just past the end, which comes back empty.
    pub fn list_by_owner(&self, pid: &str, page: u64, page_size: u64) -> (r: ListPage)
        requires
            1 <= page_size,
            self.spec_records().len() + page_size <= u64::MAX,
        ensures
            ({
                let filtered = spec_owned_records(self.spec_records(), pid@);
                let newest = filtered.reverse();
                let clamped = if page <= r.pages {
                    page as int
                } else {
                    r.pages as int
                };
                &&& r.total == filtered.len()
                &&& r.pages == (filtered.len() + page_size - 1) as int / page_size as int
                &&& r.items@ == spec_page_slice(newest, clamped, page_size as int)
            }),
    {
        broadcast use vstd::prelude::Seq::lemma_filter_push;

        let owned_pid = pid.to_owned();
        let ghost pred = |rec: StoredRecord| spec_owned_by(rec, pid@);
        let n = self.records.len();
        let mut picked: Vec<StoredRecord> = Vec::new();
        let mut i: usize = 0;
        proof {
            assert(self.spec_records().subrange(0, 0).filter(pred) =~= Seq::<
                StoredRecord,
            >::empty());
        }
        while i < n
            invariant
                n == self.spec_records().len(),
                i <= n,
                owned_pid@ == pid@,
                pred == (|rec: StoredRecord| spec_owned_by(rec, pid@)),
                picked@ == self.spec_records().subrange(0, i as int).filter(pred),
            decreases n - i,
        {
            broadcast use vstd::prelude::Seq::lemma_filter_push;

            let rec = &self.records[i];
            let is_owned = match &rec.user_id {
                Some(p) => p.eq(&owned_pid),
                None => false,
            };
            proof {
                assert(self.spec_records().subrange(0, i as int + 1) =~= self.spec_records()
                    .subrange(0, i as int).push(self.spec_records()[i as int]));
            }
            if is_owned {
                picked.push(rec.duplicate());
            }
            i = i + 1;
        }
        proof {
            assert(self.spec_records().subrange(0, n as int) =~= self.spec_records());
        }
        let m = picked.len();
        let mut newest: Vec<StoredRecord> = Vec::new();
        while newest.len() < m
            invariant
                m == picked@.len(),
                newest@.len() <= m,
                forall|k: int|
                    0 <= k < newest@.len() ==> newest@[k] == picked@[m - 1 - k],
            decreases m - newest.len(),
        {
            let k = newest.len();
            newest.push(picked[m - 1 - k].duplicate());
        }
        proof {
            assert(newest@ =~= picked@.reverse());
        }
        let total = m as u64;
        let pages = (total + page_size - 1) / page_size;
        let clamped = if page <= pages {
            page
        } else {
            pages
        };
        proof {
            vstd::arithmetic::mul::lemma_mul_upper_bound(
                clamped as int,
                u64::MAX as int,
                page_size as int,
                u64::MAX as int,
            );
        }
        let start128 = (clamped as u128) * (page_size as u128);
        let mut items: Vec<StoredRecord> = Vec::new();
        if start128 < m as u128 {
            let start = start128 as usize;
            let end = if m as u128 - start128 > page_size as u128 {
                start + page_size as usize
            } else {
                m
            };
            let mut j = start;
            while j < end
                invariant
                    start <= j <= end <= m,
                    m == newest@.len(),
                    items@ == newest@.subrange(start as int, j as int),
                decreases end - j,
            {
                proof {
                    assert(newest@.subrange(start as int, j as int + 1) =~= newest@.subrange(
                        start as int,
                        j as int,
                    ).push(newest@[j as int]));
                }
                items.push(newest[j].duplicate());
                j = j + 1;
            }
        }
        proof {
            let filtered = spec_owned_records(self.spec_records(), pid@);
            let news = filtered.reverse();
            assert(news == newest@);
            let start_i = (clamped as int) * (page_size as int);
            assert(start_i == start128 as int);
            if start128 < m as u128 {
                assert(items@ =~= spec_page_slice(news, clamped as int, page_size as int));
            } else {
                assert(items@ =~= spec_page_slice(news, clamped as int, page_size as int));
            }
        }
        ListPage { items, total, pages }
    }
}

} // verus!

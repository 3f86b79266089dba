//! Storage routing and object-store semantics. A `Position` names one of the
//! independently configured backends; the router resolves it to a bucket once
//! at construction. `MemStore` gives the put/get contract its semantics — the
//! store every backend is expected to behave as, and the fake backend tests
//! run against. The dual-put fan-in rule lives here too: a job's two
//! derivative uploads either both count or the whole operation fails.

use vstd::prelude::*;
use vstd::string::StringExecFns;
use crate::num::spec_dec_of;
use crate::num::u64_to_dec;

verus! {

/// The logical destination of an object: the original upload, the thumbnail
/// rendition, or the full-size alternate-codec rendition. A closed set,
/// resolved to a bucket once at router construction.
#[derive(Clone, Copy, Debug, PartialEq, Eq, Structural)]
pub enum Position {
    Original,
    Preview,
    Avif,
}

/// Storage failures, kept apart for the caller: `NotFound` is a missing key,
/// `Transient` a network-shaped failure that a caller may retry, `Fatal` a
/// configuration or credential failure that no retry mends.
#[derive(Clone, Copy, Debug, PartialEq, Eq, Structural)]
pub enum StorageError {
    NotFound,
    Transient,
    Fatal,
}

/// Resolves positions to bucket names. Built once from configuration and
/// shared read-only; adding a position touches only this type.
pub struct StorageRouter {
    pub origin_bucket: String,
    pub preview_bucket: String,
    pub avif_bucket: String,
}

impl StorageRouter {
    pub fn new(origin_bucket: String, preview_bucket: String, avif_bucket: String) -> (r:
        StorageRouter)
        ensures
            r.origin_bucket@ == origin_bucket@,
            r.preview_bucket@ == preview_bucket@,
            r.avif_bucket@ == avif_bucket@,
    {
        StorageRouter { origin_bucket, preview_bucket, avif_bucket }
    }

    pub open spec fn spec_bucket_for(&self, position: Position) -> Seq<char> {
        match position {
            Position::Original => self.origin_bucket@,
            Position::Preview => self.preview_bucket@,
            Position::Avif => self.avif_bucket@,
        }
    }

    /// The bucket that `position` resolves to.
    pub fn bucket_for(&self, position: Position) -> (r: &String)
        ensures
            r@ == self.spec_bucket_for(position),
    {
        match position {
            Position::Original => &self.origin_bucket,
            Position::Preview => &self.preview_bucket,
            Position::Avif => &self.avif_bucket,
        }
    }
}

/// One stored object: its bytes, declared content type, and the ETag the
/// store computed when the bytes were written.
pub struct StoredObject {
    pub bytes: Vec<u8>,
    pub content_type: String,
    pub etag: String,
}

/// One write: an object at a key under a position.
pub struct StoreEntry {
    pub position: Position,
    pub key: String,
    pub object: StoredObject,
}

/// The content checksum the store's ETag is built from.
pub open spec fn spec_checksum(b: Seq<u8>) -> int
    decreases b.len(),
{
    if b.len() == 0 {
        5381
    } else {
        (spec_checksum(b.drop_last()) * 31 + b.last()) % 0x3b9aca07
    }
}

/// The ETag text: checksum, a dash, and the byte length. Never empty.
pub open spec fn spec_etag_of(b: Seq<u8>) -> Seq<char> {
    spec_dec_of(spec_checksum(b) as nat) + seq!['-'] + spec_dec_of(b.len())
}

proof fn lemma_checksum_range(b: Seq<u8>)
    ensures
        0 <= spec_checksum(b) < 0x3b9aca07,
    decreases b.len(),
{
    if b.len() > 0 {
        lemma_checksum_range(b.drop_last());
    }
}

/// Computes the store's ETag for `bytes`.
pub fn compute_etag(bytes: &Vec<u8>) -> (r: String)
    ensures
        r@ == spec_etag_of(bytes@),
        r@.len() > 0,
{
    let mut acc: u64 = 5381;
    let mut i: usize = 0;
    let n = bytes.len();
    while i < n
        invariant
            n == bytes@.len(),
            i <= n,
            acc == spec_checksum(bytes@.subrange(0, i as int)),
            0 <= acc < 0x3b9aca07,
        decreases n - i,
    {
        proof {
            assert(bytes@.subrange(0, i as int + 1).drop_last() =~= bytes@.subrange(0, i as int));
            assert(bytes@.subrange(0, i as int + 1).last() == bytes@[i as int]);
        }
        acc = (acc * 31 + bytes[i] as u64) % 0x3b9aca07;
        i = i + 1;
    }
    proof {
        assert(bytes@.subrange(0, n as int) =~= bytes@);
    }
    let head = u64_to_dec(acc);
    let sep = head.concat("-");
    proof {
        reveal_strlit("-");
        assert(sep@ =~= spec_dec_of(acc as nat) + seq!['-']);
    }
    let len64: u64 = n as u64;
    let r = sep.concat(u64_to_dec(len64).as_str());
    proof {
        assert(r@ =~= spec_etag_of(bytes@));
    }
    r
}

/// What a lookup of `k` under `p` finds in the write log `s`: the most
/// recent write wins, re-writes of a content-addressed key being idempotent.
pub open spec fn spec_get(s: Seq<StoreEntry>, p: Position, k: Seq<char>) -> Option<StoredObject>
    decreases s.len(),
{
    if s.len() == 0 {
        None
    } else if s.last().position == p && s.last().key@ == k {
        Some(s.last().object)
    } else {
        spec_get(s.drop_last(), p, k)
    }
}

/// The object-store model: a write log with last-write-wins lookup.
pub struct MemStore {
    entries: Vec<StoreEntry>,
}

impl MemStore {
    pub closed spec fn contents(&self) -> Seq<StoreEntry> {
        self.entries@
    }

    pub fn new() -> (r: MemStore)
        ensures
            r.contents() =~= Seq::<StoreEntry>::empty(),
    {
        MemStore { entries: Vec::new() }
    }

    /// Writes `bytes` under `key` at `position` and returns the ETag the
    /// store computed for them. Writing never fails in the model: a backend
    /// reports its failures through the put outcome that [`join_puts`]
    /// combines.
    pub fn put(&mut self, position: Position, key: String, bytes: Vec<u8>, content_type: String)
        -> (etag: String)
        ensures
            etag@ == spec_etag_of(bytes@),
            etag@.len() > 0,
            final(self).contents().len() == old(self).contents().len() + 1,
            final(self).contents().drop_last() == old(self).contents(),
            spec_get(final(self).contents(), position, key@) matches Some(o) && o.bytes@ == bytes@
                && o.content_type@ == content_type@ && o.etag@ == spec_etag_of(bytes@),
    {
        let etag = compute_etag(&bytes);
        let entry = StoreEntry {
            position,
            key,
            object: StoredObject { bytes, content_type, etag: etag.clone() },
        };
        self.entries.push(entry);
        proof {
            assert(final(self).contents().drop_last() =~= old(self).contents());
        }
        etag
    }

    /// Looks `key` up under `position`. Fails with `NotFound` exactly when
    /// nothing was ever written there.
    pub fn get(&self, position: Position, key: &str) -> (r: Result<&StoredObject, StorageError>)
        ensures
            match r {
                Ok(o) => spec_get(self.contents(), position, key@) == Some(*o),
                Err(e) => e == StorageError::NotFound && spec_get(
                    self.contents(),
                    position,
                    key@,
                ) is None,
            },
    {
        let owned_key = key.to_owned();
        let mut i: usize = self.entries.len();
        proof {
            assert(self.contents().subrange(0, i as int) =~= self.contents());
        }
        while i > 0
            invariant
                i <= self.entries.len(),
                owned_key@ == key@,
                spec_get(self.contents(), position, key@) == spec_get(
                    self.contents().subrange(0, i as int),
                    position,
                    key@,
                ),
            decreases i,
        {
            i = i - 1;
            proof {
                assert(self.contents().subrange(0, i as int + 1).last() == self.contents()[
                    i as int]);
                assert(self.contents().subrange(0, i as int + 1).drop_last() =~= self.contents()
                    .subrange(0, i as int));
            }
            let entry = &self.entries[i];
            if entry.position == position && entry.key == owned_key {
                return Ok(&entry.object);
            }
        }
        proof {
            assert(self.contents().subrange(0, 0) =~= Seq::<StoreEntry>::empty());
        }
        Err(StorageError::NotFound)
    }
}

/// A write at the end of the log is what a lookup of its position and key
/// then finds, and no other lookup changes: with the ETag never empty by
/// construction, an object written by `put` comes back from `get` with its
/// bytes identical and its ETag non-empty.
pub proof fn lemma_put_get_round_trip(s: Seq<StoreEntry>, e: StoreEntry)
    ensures
        spec_get(s.push(e), e.position, e.key@) == Some(e.object),
        forall|p: Position, k: Seq<char>|
            !(p == e.position && k == e.key@) ==> spec_get(s.push(e), p, k) == spec_get(s, p, k),
{
    assert(s.push(e).last() == e);
    assert(s.push(e).drop_last() =~= s);
}

/// Fan-in of the two concurrent derivative uploads: the pair counts only if
/// both succeeded; if either failed, the whole operation fails with that
/// failure (the first one when both failed). Partial success is never
/// reported as success — an orphaned object on the side that did succeed is
/// acceptable, a silently missing rendition is not.
pub fn join_puts(a: Result<String, StorageError>, b: Result<String, StorageError>) -> (r: Result<
    (String, String),
    StorageError,
>)
    ensures
        r is Ok <==> a is Ok && b is Ok,
        r matches Ok(pair) ==> a == Ok::<String, StorageError>(pair.0) && b == Ok::<
            String,
            StorageError,
        >(pair.1),
        r matches Err(e) ==> (a == Err::<String, StorageError>(e) || b == Err::<
            String,
            StorageError,
        >(e)),
{
    match (a, b) {
        (Ok(ea), Ok(eb)) => Ok((ea, eb)),
        (Err(e), _) => Err(e),
        (_, Err(e)) => Err(e),
    }
}

} // verus!

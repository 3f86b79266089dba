//! The presigned direct-upload path: fresh storage keys that never derive
//! from a client-supplied filename, the time-boxing of the signed URLs, the
//! batch key assignment, and the pending-upload ledger that a later
//! confirmation is validated against.

use vstd::prelude::*;
use vstd::string::StringExecFns;
use crate::errors::ErrorCode;
use crate::keys::make_key;
use crate::keys::spec_is_uuid_text;
use crate::keys::spec_key;
use crate::paths::extension_of;
use crate::paths::file_name_of;
use crate::paths::spec_ext_of;
use crate::paths::spec_file_name_of;

verus! {

/// The presign endpoint's request body.
pub struct PresignParams {
    pub file_name: String,
    pub content_type: String,
    pub size: i64,
}

/// The confirm endpoint's request body.
pub struct ConfirmParams {
    pub file_name: String,
    pub size: i64,
    pub is_public: bool,
}

/// One client file the batch endpoint assigns a key to.
pub struct PresignRequest {
    pub uuid: String,
    pub extension: String,
}

/// The batch endpoint's answer: for each request's UUID, the URL to upload
/// that file to. An association list, in request order.
pub struct PresignedResponse {
    pub urls: Vec<(String, String)>,
}

/// A granted direct upload: the fresh storage key, the signed URL the client
/// pushes bytes to, and how long the grant lasts. Expiry is enforced by the
/// storage backend; the grant has no further state before confirmation.
pub struct PresignedGrant {
    pub storage_key: String,
    pub signed_url: String,
    pub expires_in_secs: u64,
}

/// How long a single-file upload grant lasts.
pub fn presign_ttl_secs() -> (r: u64)
    ensures
        r == 300,
{
    300
}

/// How long the grants of a batch last.
pub fn batch_presign_ttl_secs() -> (r: u64)
    ensures
        r == 600,
{
    600
}

/// The storage key for one presigned upload: the minted UUID plus the
/// declared filename's extension. Only the extension of the declared name is
/// used — never the name itself, so no collision and no traversal can be
/// provoked by the client.
pub fn presign_key(declared_name: &str, uuid_text: &str) -> (r: String)
    requires
        spec_is_uuid_text(uuid_text@),
    ensures
        r@ == spec_key(uuid_text@, spec_ext_of(spec_file_name_of(declared_name@))),
{
    let base = file_name_of(declared_name);
    let ext = extension_of(base.as_str());
    make_key(uuid_text, ext.as_str())
}

/// Mints the key for one presigned upload: a fresh random UUID — which one
/// is up to the generator — carrying the declared name's extension. Returns
/// the UUID's text and the key built from it.
pub fn fresh_presign_key(declared_name: &str) -> (r: (String, String))
    ensures
        spec_is_uuid_text(r.0@),
        r.1@ == spec_key(r.0@, spec_ext_of(spec_file_name_of(declared_name@))),
{
    let uuid = crate::keys::mint_random_uuid();
    let key = presign_key(declared_name, uuid.as_str());
    (uuid, key)
}

/// Authorization of the anonymous presign endpoint.
pub fn presign_allowed(allow_everyone_upload: bool) -> (r: Result<(), ErrorCode>)
    ensures
        allow_everyone_upload <==> r is Ok,
        !allow_everyone_upload ==> r == Err::<(), ErrorCode>(ErrorCode::Unauthorized),
{
    if allow_everyone_upload {
        Ok(())
    } else {
        Err(ErrorCode::Unauthorized)
    }
}

/// The key a batch request's file is stored under: the client-minted UUID
/// and extension under the `uploads/` prefix.
pub open spec fn spec_batch_key(uuid: Seq<char>, ext: Seq<char>) -> Seq<char> {
    "uploads/"@ + spec_key(uuid, ext)
}

/// Assigns each batch request its storage key, in order: for every request,
/// the pair of its UUID and the key `uploads/<uuid>.<ext>`. The signer turns
/// each key into a URL; a signing failure fails the whole batch.
pub fn batch_keys(requests: &Vec<PresignRequest>) -> (r: Vec<(String, String)>)
    ensures
        r@.len() == requests@.len(),
        forall|i: int|
            0 <= i < r@.len() ==> (#[trigger] r@[i]).0@ == requests@[i].uuid@ && r@[i].1@
                == spec_batch_key(requests@[i].uuid@, requests@[i].extension@),
{
    let mut out: Vec<(String, String)> = Vec::new();
    let n = requests.len();
    let mut i: usize = 0;
    while i < n
        invariant
            n == requests@.len(),
            i <= n,
            out@.len() == i,
            forall|j: int|
                0 <= j < i ==> (#[trigger] out@[j]).0@ == requests@[j].uuid@ && out@[j].1@
                    == spec_batch_key(requests@[j].uuid@, requests@[j].extension@),
        decreases n - i,
    {
        let req = &requests[i];
        let key = String::from_str("uploads/").concat(
            make_key(req.uuid.as_str(), req.extension.as_str()).as_str(),
        );
        out.push((req.uuid.clone(), key));
        i = i + 1;
    }
    out
}

/// One pending direct upload: the key granted to an owner, and whether the
/// upload was already confirmed into a durable record.
pub struct PendingUpload {
    pub key: String,
    pub owner: String,
    pub confirmed: bool,
}

/// The pending-upload ledger of the authenticated presign path: a later
/// confirmation must name a key that was granted, to the confirming owner,
/// and not confirmed before.
pub struct PresignLedger {
    entries: Vec<PendingUpload>,
}

/// The first ledger index holding `key`, if any.
pub open spec fn spec_find_key(s: Seq<PendingUpload>, key: Seq<char>) -> Option<int> {
    if exists|i: int| 0 <= i < s.len() && s[i].key@ == key {
        Some(choose|i: int| 0 <= i < s.len() && s[i].key@ == key && forall|j: int|
            0 <= j < i ==> s[j].key@ != key)
    } else {
        None
    }
}

impl PresignLedger {
    pub closed spec fn spec_entries(&self) -> Seq<PendingUpload> {
        self.entries@
    }

    pub fn new() -> (r: PresignLedger)
        ensures
            r.spec_entries() =~= Seq::<PendingUpload>::empty(),
    {
        PresignLedger { entries: Vec::new() }
    }

    /// Records a granted key against the owner it was granted to, pending
    /// and unconfirmed.
    pub fn record_pending(&mut self, owner: String, key: String)
        ensures
            final(self).spec_entries().len() == old(self).spec_entries().len() + 1,
            final(self).spec_entries().drop_last() == old(self).spec_entries(),
            final(self).spec_entries().last().key@ == key@,
            final(self).spec_entries().last().owner@ == owner@,
            !final(self).spec_entries().last().confirmed,
    {
        self.entries.push(PendingUpload { key, owner, confirmed: false });
        proof {
            assert(final(self).spec_entries().drop_last() =~= old(self).spec_entries());
        }
    }

    /// Confirms the upload under `key`: an unknown key fails with
    /// `NotFound`, one confirmed before with `Conflict`; otherwise the first
    /// entry holding the key is marked confirmed and its owner returned.
    pub fn confirm(&mut self, key: &str) -> (r: Result<String, ErrorCode>)
        ensures
            match spec_find_key(old(self).spec_entries(), key@) {
                None => r == Err::<String, ErrorCode>(ErrorCode::NotFound)
                    && final(self).spec_entries() == old(self).spec_entries(),
                Some(i) => {
                    if old(self).spec_entries()[i].confirmed {
                        r == Err::<String, ErrorCode>(ErrorCode::Conflict)
                            && final(self).spec_entries() == old(self).spec_entries()
                    } else {
                        (r matches Ok(owner) && owner@ == old(self).spec_entries()[i].owner@)
                            && final(self).spec_entries() == old(self).spec_entries().update(
                            i,
                            PendingUpload {
                                key: old(self).spec_entries()[i].key,
                                owner: old(self).spec_entries()[i].owner,
                                confirmed: true,
                            },
                        )
                    }
                },
            },
    {
        let owned = key.to_owned();
        let n = self.entries.len();
        let mut i: usize = 0;
        while i < n
            invariant
                *self == *old(self),
                n == self.spec_entries().len(),
                i <= n,
                owned@ == key@,
                forall|j: int| 0 <= j < i ==> self.spec_entries()[j].key@ != key@,
            decreases n - i,
        {
            if self.entries[i].key.eq(&owned) {
                proof {
                    let ghost entries = self.spec_entries();
                    assert(entries[i as int].key@ == key@);
                    let k = choose|k: int|
                        0 <= k < entries.len() && entries[k].key@ == key@ && forall|j: int|
                            0 <= j < k ==> entries[j].key@ != key@;
                    assert(spec_find_key(entries, key@) == Some(k));
                    assert(k == i as int);
                }
                if self.entries[i].confirmed {
                    return Err(ErrorCode::Conflict);
                }
                let owner = self.entries[i].owner.clone();
                self.entries[i].confirmed = true;
                return Ok(owner);
            }
            i = i + 1;
        }
        Err(ErrorCode::NotFound)
    }
}

} // verus!

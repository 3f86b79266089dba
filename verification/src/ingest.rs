//! Ingest: the decisions of the multipart upload path. One request stages at
//! most one file; the declared filename only ever contributes its extension
//! and a display name; the storage keys come from a freshly minted
//! time-ordered UUID. A non-image upload is rejected before any storage write
//! is planned, and every rejection that follows staging disposes the staged
//! file on the spot.

use vstd::prelude::*;
use vstd::string::StringExecFns;
use crate::jobs::UploadJob;
use crate::keys::make_key;
use crate::keys::spec_is_uuid_text;
use crate::keys::spec_key;
use crate::mime::guess_mime_for_ext;
use crate::mime::is_image_mime;
use crate::mime::spec_is_image_mime;
use crate::mime::spec_mime_guess;
use crate::paths::extension_of;
use crate::paths::file_name_of;
use crate::paths::spec_ext_of;
use crate::paths::spec_file_name_of;
use crate::storage::Position;
use crate::tempfile::ScopedTempFile;

verus! {

/// Why an ingest request was turned away.
#[derive(Clone, Copy, Debug, PartialEq, Eq, Structural)]
pub enum IngestError {
    /// Anonymous upload is disabled and the caller carries no identity.
    NotAllowed,
    /// The multipart body held no field.
    NoFile,
    /// The staged bytes are not an image.
    InvalidFileType,
    /// Disk failure while staging.
    Io,
}

/// The upload endpoint's query parameters.
pub struct UploadParams {
    pub public: Option<bool>,
    pub quality: u8,
}

/// How each rejection is answered, per the error taxonomy: a missing or
/// non-image file is the caller's mistake, a disabled feature is an
/// authorization failure, a disk failure is the server's.
pub fn ingest_error_code(e: IngestError) -> (r: crate::errors::ErrorCode)
    ensures
        r == match e {
            IngestError::NotAllowed => crate::errors::ErrorCode::Unauthorized,
            IngestError::NoFile => crate::errors::ErrorCode::BadRequest,
            IngestError::InvalidFileType => crate::errors::ErrorCode::BadRequest,
            IngestError::Io => crate::errors::ErrorCode::InternalError,
        },
{
    match e {
        IngestError::NotAllowed => crate::errors::ErrorCode::Unauthorized,
        IngestError::NoFile => crate::errors::ErrorCode::BadRequest,
        IngestError::InvalidFileType => crate::errors::ErrorCode::BadRequest,
        IngestError::Io => crate::errors::ErrorCode::InternalError,
    }
}

/// The record written to the metadata store once an ingest succeeds.
pub struct UploadResult {
    pub url: String,
    pub file_name: String,
    pub is_public: bool,
    pub user_id: Option<String>,
    pub uuid: String,
    pub raw_name: String,
    pub size: u64,
}

/// Everything decided between reading the multipart field and writing bytes:
/// display name, extension, the two storage keys, and the staging path.
pub struct StagedNames {
    pub uuid: String,
    pub raw_name: String,
    pub ext: String,
    pub file_key: String,
    pub derivative_key: String,
    pub temp_path: String,
}

/// The directory staged files are written under.
pub fn temp_dir() -> (r: &'static str)
    ensures
        r@ == "tmp_upload"@,
{
    "tmp_upload"
}

/// First decision of an ingest request: whether a staging attempt may begin,
/// and under what names. Rejects the request when anonymous upload is
/// disabled (`NotAllowed`) or the body holds no field (`NoFile`); otherwise
/// derives every name from the declared filename and the minted UUID:
/// the display name is the declared name's final path component, the storage
/// key is `<uuid>.<ext>`, the derivative key `<uuid>.avif`, and the staging
/// path puts the storage key under the staging directory.
pub fn ingest_begin(
    allow_upload: bool,
    declared_name: Option<&String>,
    uuid_text: &str,
) -> (r: Result<StagedNames, IngestError>)
    requires
        spec_is_uuid_text(uuid_text@),
    ensures
        !allow_upload ==> r == Err::<StagedNames, IngestError>(IngestError::NotAllowed),
        allow_upload && declared_name is None ==> r == Err::<StagedNames, IngestError>(
            IngestError::NoFile,
        ),
        allow_upload && declared_name is Some ==> (r matches Ok(s) && {
            let declared = declared_name->0@;
            &&& s.uuid@ == uuid_text@
            &&& s.raw_name@ == spec_file_name_of(declared)
            &&& s.ext@ == spec_ext_of(spec_file_name_of(declared))
            &&& s.file_key@ == spec_key(uuid_text@, s.ext@)
            &&& s.derivative_key@ == spec_key(uuid_text@, "avif"@)
            &&& s.temp_path@ == "tmp_upload/"@ + s.file_key@
        }),
{
    if !allow_upload {
        return Err(IngestError::NotAllowed);
    }
    match declared_name {
        None => Err(IngestError::NoFile),
        Some(declared) => {
            let raw_name = file_name_of(declared.as_str());
            let ext = extension_of(raw_name.as_str());
            let file_key = make_key(uuid_text, ext.as_str());
            let derivative_key = make_key(uuid_text, "avif");
            proof {
                reveal_strlit("avif");
            }
            let temp_path = String::from_str("tmp_upload/").concat(file_key.as_str());
            proof {
                reveal_strlit("tmp_upload/");
            }
            Ok(
                StagedNames {
                    uuid: uuid_text.to_owned(),
                    raw_name,
                    ext,
                    file_key,
                    derivative_key,
                    temp_path,
                },
            )
        },
    }
}

/// [`ingest_begin`] with a freshly minted key: the UUID is time-ordered, so
/// the storage keys of successive ingests sort chronologically, and it never
/// derives from the declared filename. Which UUID comes out is up to the
/// clock and the generator; everything else is pinned as in
/// [`ingest_begin`].
pub fn ingest_begin_fresh(allow_upload: bool, declared_name: Option<&String>) -> (r: Result<
    StagedNames,
    IngestError,
>)
    ensures
        !allow_upload ==> r == Err::<StagedNames, IngestError>(IngestError::NotAllowed),
        allow_upload && declared_name is None ==> r == Err::<StagedNames, IngestError>(
            IngestError::NoFile,
        ),
        allow_upload && declared_name is Some ==> (r matches Ok(s) && {
            let declared = declared_name->0@;
            &&& spec_is_uuid_text(s.uuid@)
            &&& s.raw_name@ == spec_file_name_of(declared)
            &&& s.ext@ == spec_ext_of(spec_file_name_of(declared))
            &&& s.file_key@ == spec_key(s.uuid@, s.ext@)
            &&& s.derivative_key@ == spec_key(s.uuid@, "avif"@)
            &&& s.temp_path@ == "tmp_upload/"@ + s.file_key@
        }),
{
    let uuid = crate::keys::mint_ordered_uuid();
    ingest_begin(allow_upload, declared_name, uuid.as_str())
}

/// Counts the bytes of a stream chunk by chunk, refusing the chunk that
/// would overflow the counter.
pub struct ByteTally {
    pub total: u64,
}

impl ByteTally {
    pub fn new() -> (r: ByteTally)
        ensures
            r.total == 0,
    {
        ByteTally { total: 0 }
    }

    /// Adds one chunk's length; refuses it exactly when the running total
    /// would no longer fit.
    pub fn add_chunk(&mut self, len: usize) -> (ok: bool)
        ensures
            ok <==> old(self).total + len <= u64::MAX,
            ok ==> final(self).total == old(self).total + len,
            !ok ==> final(self).total == old(self).total,
    {
        let len64 = len as u64;
        if len64 <= u64::MAX - self.total {
            self.total = self.total + len64;
            true
        } else {
            false
        }
    }
}

/// The synchronous write of the original that a successful ingest owes:
/// the staged file's bytes, under the original key, at the original position,
/// with the guessed content type.
pub struct OriginalPut {
    pub position: Position,
    pub key: String,
    pub source_path: String,
    pub content_type: String,
}

/// An ingest that passed every check: the original upload it owes, the job
/// that owns the staged file from here on, and the record for the metadata
/// store.
pub struct IngestAccepted {
    pub original_put: OriginalPut,
    pub job: UploadJob,
    pub result: UploadResult,
}

/// An ingest rejected after staging: no storage write is planned — the
/// rejection carries none, by construction — and the staged file's removal
/// has been issued.
pub struct IngestRejected {
    pub error: IngestError,
    pub temp: ScopedTempFile,
    pub cleanup: Option<String>,
}

/// Last decision of an ingest request, once the stream is on disk: classify
/// the staged bytes by the extension's media type and either reject the
/// non-image — disposing the staged file, planning no storage write — or
/// hand everything on: the original's synchronous upload, the derivative job
/// (which now owns the staged file), and the metadata record. The public URL
/// is `<base>/<derivative key>`; an anonymous upload is public with no owner,
/// an owned one is public only if requested.
pub fn ingest_finish(
    names: StagedNames,
    temp: ScopedTempFile,
    size: u64,
    quality: u8,
    base_url: &str,
    owner: Option<&String>,
    public_requested: bool,
) -> (r: Result<IngestAccepted, IngestRejected>)
    requires
        temp.is_alive(),
    ensures
        r is Ok <==> spec_is_image_mime(spec_mime_guess(names.ext@)),
        r matches Ok(a) ==> {
            &&& a.original_put.position == Position::Original
            &&& a.original_put.key@ == names.file_key@
            &&& a.original_put.source_path@ == names.temp_path@
            &&& a.original_put.content_type@ == spec_mime_guess(names.ext@)
            &&& a.job.wf()
            &&& a.job.temp.spec_path() == temp.spec_path()
            &&& a.job.original_key@ == names.file_key@
            &&& a.job.derivative_key@ == names.derivative_key@
            &&& a.job.quality == if quality > 100 { 100u8 } else { quality }
            &&& a.result.url@ == base_url@ + "/"@ + names.derivative_key@
            &&& a.result.file_name@ == names.derivative_key@
            &&& a.result.uuid@ == names.uuid@
            &&& a.result.raw_name@ == names.raw_name@
            &&& a.result.size == size
            &&& a.result.is_public == (owner is None || public_requested)
            &&& (owner matches Some(pid) ==> (a.result.user_id matches Some(u) && u@ == pid@))
            &&& (owner is None ==> a.result.user_id is None)
        },
        r matches Err(e) ==> {
            &&& e.error == IngestError::InvalidFileType
            &&& !e.temp.is_alive()
            &&& e.cleanup matches Some(p) && p@ == temp.spec_path()
        },
{
    let mime = guess_mime_for_ext(names.ext.as_str());
    if !is_image_mime(mime.as_str()) {
        let mut temp = temp;
        let cleanup = temp.dispose();
        return Err(IngestRejected { error: IngestError::InvalidFileType, temp, cleanup });
    }
    let clamped = if quality > 100 {
        100
    } else {
        quality
    };
    let url = String::from_str(base_url).concat("/").concat(names.derivative_key.as_str());
    proof {
        reveal_strlit("/");
    }
    let user_id = match owner {
        Some(pid) => Some(pid.clone()),
        None => None,
    };
    let is_public = match owner {
        Some(_) => public_requested,
        None => true,
    };
    let job = UploadJob::new(temp, names.file_key.clone(), names.derivative_key.clone(), clamped);
    Ok(
        IngestAccepted {
            original_put: OriginalPut {
                position: Position::Original,
                key: names.file_key,
                source_path: names.temp_path,
                content_type: mime,
            },
            job,
            result: UploadResult {
                url,
                file_name: names.derivative_key,
                is_public,
                user_id,
                uuid: names.uuid,
                raw_name: names.raw_name,
                size,
            },
        },
    )
}

/// Disposes the staged file of a job that will never run — the original
/// upload failed, or the queue refused it — returning the removal work.
pub fn abandon_job(job: UploadJob) -> (work: Option<String>)
    requires
        job.wf(),
    ensures
        work matches Some(p) && p@ == job.temp.spec_path(),
{
    let mut temp = job.temp;
    temp.dispose()
}

/// The response body of the upload endpoints: the public URL, present only
/// when the caller may see it.
pub struct UploadResponse {
    pub url: Option<String>,
}

/// The anonymous upload's response: always carries the URL.
pub fn upload_response(result: &UploadResult) -> (r: UploadResponse)
    ensures
        r.url matches Some(u) && u@ == result.url@,
{
    UploadResponse { url: Some(result.url.clone()) }
}

/// The owned upload's response: carries the URL exactly when the upload is
/// public.
pub fn upload_response_for_owner(result: &UploadResult) -> (r: UploadResponse)
    ensures
        result.is_public ==> (r.url matches Some(u) && u@ == result.url@),
        !result.is_public ==> r.url is None,
{
    if result.is_public {
        UploadResponse { url: Some(result.url.clone()) }
    } else {
        UploadResponse { url: None }
    }
}

} // verus!

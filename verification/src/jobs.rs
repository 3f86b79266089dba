//! The background job: a self-contained unit carrying the staged file and the
//! target keys, a bounded FIFO queue of such jobs, and the worker's state
//! machine. A job ends `Completed` exactly when the encode and both
//! derivative uploads succeeded; on every ending, success or failure, the
//! staged file's removal is issued exactly once.

use vstd::prelude::*;
use crate::storage::Position;
use crate::storage::StorageError;
use crate::tempfile::ScopedTempFile;

verus! {

/// The lifecycle of one job: an `UploadJob` sitting in the queue is
/// `Enqueued`, a `RunningJob` is `Running`, and the outcome records the
/// final state — `Completed` or `Failed`, nothing else.
#[derive(Clone, Copy, Debug, PartialEq, Eq, Structural)]
pub enum JobState {
    Enqueued,
    Running,
    Completed,
    Failed,
}

/// One enqueued encode-and-upload job. It exclusively owns the staged file;
/// the ingest handler that created it must not touch the path again.
pub struct UploadJob {
    pub temp: ScopedTempFile,
    pub original_key: String,
    pub derivative_key: String,
    pub quality: u8,
}

impl UploadJob {
    /// The staged file is still owed its removal.
    pub open spec fn wf(&self) -> bool {
        self.temp.is_alive()
    }

    /// Packs a job up at ingest time, taking the staged file by move.
    pub fn new(temp: ScopedTempFile, original_key: String, derivative_key: String, quality: u8)
        -> (r: UploadJob)
        requires
            temp.is_alive(),
        ensures
            r.wf(),
            r.temp.spec_path() == temp.spec_path(),
            r.original_key@ == original_key@,
            r.derivative_key@ == derivative_key@,
            r.quality == quality,
    {
        UploadJob { temp, original_key, derivative_key, quality }
    }

    /// The staged file's path, for the decoder that reads it.
    pub fn temp_path(&self) -> (r: &String)
        ensures
            r@ == self.temp.spec_path(),
    {
        self.temp.path()
    }
}

/// One storage write a worker owes: where, under what key, which bytes.
pub struct PutRequest {
    pub position: Position,
    pub key: String,
    pub bytes: Vec<u8>,
    pub content_type: String,
}

/// A job whose encode succeeded: both derivative uploads are now owed, to be
/// issued concurrently and joined.
pub struct RunningJob {
    pub temp: ScopedTempFile,
    pub thumbnail_put: PutRequest,
    pub preview_put: PutRequest,
}

impl RunningJob {
    pub open spec fn wf(&self) -> bool {
        self.temp.is_alive()
    }
}

/// How one job ended: its final state, and the removal work for the staged
/// file — always present, because every ending disposes the file it owned.
pub struct WorkOutcome {
    pub temp: ScopedTempFile,
    pub state: JobState,
    pub cleanup: Option<String>,
}

/// The worker's transition out of `Running` when the decode or encode fails:
/// the job fails as a whole, no upload is attempted, and the staged file's
/// removal is issued here and now.
pub fn job_encode_failed(job: UploadJob) -> (o: WorkOutcome)
    requires
        job.wf(),
    ensures
        o.state == JobState::Failed,
        !o.temp.is_alive(),
        o.cleanup matches Some(p) && p@ == job.temp.spec_path(),
{
    let mut temp = job.temp;
    let cleanup = temp.dispose();
    WorkOutcome { temp, state: JobState::Failed, cleanup }
}

/// The worker's transition when the encode produced both renditions: the two
/// uploads are planned, targeting the thumbnail and alternate-codec positions
/// under the job's derivative key, both as `image/avif`. The staged file
/// stays owned until the uploads settle.
pub fn job_encoded(job: UploadJob, thumbnail: Vec<u8>, preview: Vec<u8>) -> (r: RunningJob)
    requires
        job.wf(),
    ensures
        r.wf(),
        r.temp.spec_path() == job.temp.spec_path(),
        r.thumbnail_put.position == Position::Preview,
        r.thumbnail_put.key@ == job.derivative_key@,
        r.thumbnail_put.bytes@ == thumbnail@,
        r.thumbnail_put.content_type@ == "image/avif"@,
        r.preview_put.position == Position::Avif,
        r.preview_put.key@ == job.derivative_key@,
        r.preview_put.bytes@ == preview@,
        r.preview_put.content_type@ == "image/avif"@,
{
    let key_copy = job.derivative_key.clone();
    RunningJob {
        temp: job.temp,
        thumbnail_put: PutRequest {
            position: Position::Preview,
            key: key_copy,
            bytes: thumbnail,
            content_type: String::from_str("image/avif"),
        },
        preview_put: PutRequest {
            position: Position::Avif,
            key: job.derivative_key,
            bytes: preview,
            content_type: String::from_str("image/avif"),
        },
    }
}

/// The worker's final transition, joining the two upload outcomes: the job is
/// `Completed` exactly when both uploads succeeded, `Failed` otherwise —
/// never one rendition silently missing under a completed job. The staged
/// file's removal is issued here, on success and failure alike.
pub fn job_uploads_settled(
    running: RunningJob,
    thumbnail_result: Result<String, StorageError>,
    preview_result: Result<String, StorageError>,
) -> (o: WorkOutcome)
    requires
        running.wf(),
    ensures
        o.state == JobState::Completed <==> thumbnail_result is Ok && preview_result is Ok,
        o.state == JobState::Completed || o.state == JobState::Failed,
        !o.temp.is_alive(),
        o.cleanup matches Some(p) && p@ == running.temp.spec_path(),
{
    let mut temp = running.temp;
    let cleanup = temp.dispose();
    let state = match (&thumbnail_result, &preview_result) {
        (Ok(_), Ok(_)) => JobState::Completed,
        _ => JobState::Failed,
    };
    WorkOutcome { temp, state, cleanup }
}

/// The bounded job queue, the pipeline's one mutual-exclusion point. FIFO:
/// jobs come out in the order they went in.
pub struct JobQueue {
    jobs: Vec<UploadJob>,
    capacity: usize,
}

impl JobQueue {
    pub closed spec fn spec_jobs(&self) -> Seq<UploadJob> {
        self.jobs@
    }

    pub closed spec fn spec_capacity(&self) -> usize {
        self.capacity
    }

    pub fn with_capacity(capacity: usize) -> (r: JobQueue)
        ensures
            r.spec_jobs() =~= Seq::<UploadJob>::empty(),
            r.spec_capacity() == capacity,
    {
        JobQueue { jobs: Vec::new(), capacity }
    }

    pub fn len(&self) -> (r: usize)
        ensures
            r == self.spec_jobs().len(),
    {
        self.jobs.len()
    }

    /// Appends a job. Enqueueing fails only when the queue itself is
    /// unavailable — full, in this bounded model — and that failure is fatal
    /// to the enqueuer, who logs it and answers the client without a preview.
    pub fn enqueue(&mut self, job: UploadJob) -> (r: Result<(), StorageError>)
        ensures
            old(self).spec_jobs().len() < old(self).spec_capacity() ==> r is Ok
                && final(self).spec_jobs() == old(self).spec_jobs().push(job),
            old(self).spec_jobs().len() >= old(self).spec_capacity() ==> r == Err::<(), StorageError>(StorageError::Fatal)
                && final(self).spec_jobs() == old(self).spec_jobs(),
            final(self).spec_capacity() == old(self).spec_capacity(),
    {
        if self.jobs.len() < self.capacity {
            self.jobs.push(job);
            Ok(())
        } else {
            Err(StorageError::Fatal)
        }
    }

    /// Takes the oldest job, if any.
    pub fn dequeue(&mut self) -> (r: Option<UploadJob>)
        ensures
            old(self).spec_jobs().len() == 0 ==> r is None
                && final(self).spec_jobs() == old(self).spec_jobs(),
            old(self).spec_jobs().len() > 0 ==> r == Some(old(self).spec_jobs()[0])
                && final(self).spec_jobs() == old(self).spec_jobs().drop_first(),
            final(self).spec_capacity() == old(self).spec_capacity(),
    {
        if self.jobs.len() == 0 {
            None
        } else {
            let job = self.jobs.remove(0);
            proof {
                assert(final(self).spec_jobs() =~= old(self).spec_jobs().drop_first());
            }
            Some(job)
        }
    }
}

} // verus!

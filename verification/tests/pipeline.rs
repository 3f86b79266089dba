use aetherpix::encoder::{clamp_quality, fit_box, preview_encode_settings, thumbnail_encode_settings};
use aetherpix::errors::{http_status, ErrorCode};
use aetherpix::ingest::{
    ingest_begin, ingest_error_code, upload_response, upload_response_for_owner, ByteTally,
    IngestError, UploadResult,
};
use aetherpix::jobs::{job_encode_failed, job_encoded, job_uploads_settled, JobQueue, JobState, UploadJob};
use aetherpix::keys::is_uuid_text;
use aetherpix::serve::{check_key, check_preview_key, fetch_error_code, plan_fetch, preview_uuid, FetchPlan, ObjectMeta};
use aetherpix::storage::{compute_etag, join_puts, MemStore, Position, StorageError, StorageRouter};
use aetherpix::tempfile::ScopedTempFile;

const UUID_A: &str = "0192f3a1-7c44-7bb1-9e55-0123456789ab";
const UUID_B: &str = "0192f3a1-7c44-7bb1-9e55-0123456789ac";

fn staged(uuid: &str, declared: &str) -> (aetherpix::ingest::StagedNames, ScopedTempFile) {
    let owned = declared.to_string();
    let names = ingest_begin(true, Some(&owned), uuid).expect("staging");
    let temp = ScopedTempFile::stage(names.temp_path.clone());
    (names, temp)
}

#[test]
fn minted_names_have_the_uuid_text_shape() {
    let declared = "photo.jpg".to_string();
    let names = aetherpix::ingest::ingest_begin_fresh(true, Some(&declared)).expect("staging");
    assert!(is_uuid_text(names.uuid.as_str()));
    assert_eq!(names.uuid.len(), 36);
    assert_eq!(names.file_key, format!("{}.jpg", names.uuid));
    assert_eq!(names.derivative_key, format!("{}.avif", names.uuid));
    assert_eq!(names.temp_path, format!("tmp_upload/{}.jpg", names.uuid));
}

#[test]
fn two_ingests_same_filename_distinct_keys_and_records() {
    let declared = "holiday.jpg".to_string();
    let names1 = aetherpix::ingest::ingest_begin_fresh(true, Some(&declared)).expect("staging");
    let names2 = aetherpix::ingest::ingest_begin_fresh(true, Some(&declared)).expect("staging");
    assert_ne!(names1.uuid, names2.uuid);
    let temp1 = ScopedTempFile::stage(names1.temp_path.clone());
    let temp2 = ScopedTempFile::stage(names2.temp_path.clone());
    assert_ne!(names1.file_key, names2.file_key);
    assert_ne!(names1.derivative_key, names2.derivative_key);

    let a1 = aetherpix::ingest::ingest_finish(names1, temp1, 10, 80, "http://x/api/view", None, true)
        .ok()
        .expect("image accepted");
    let a2 = aetherpix::ingest::ingest_finish(names2, temp2, 10, 80, "http://x/api/view", None, true)
        .ok()
        .expect("image accepted");
    assert_ne!(a1.result.url, a2.result.url);

    let mut store = aetherpix::records::MetadataStore::new();
    assert_eq!(store.save(&a1.result), Ok(1));
    assert_eq!(store.save(&a2.result), Ok(2));
    assert_eq!(store.len(), 2);
    assert_eq!(store.save(&a1.result), Err(ErrorCode::Conflict));
    assert_eq!(store.len(), 2);
}

#[test]
fn text_upload_is_rejected_with_no_side_effects() {
    let (names, temp) = staged(UUID_A, "note.txt");
    let rejected = aetherpix::ingest::ingest_finish(names, temp, 10, 80, "http://x", None, true)
        .err()
        .expect("text is not an image");
    assert_eq!(rejected.error, IngestError::InvalidFileType);
    assert_eq!(ingest_error_code(rejected.error), ErrorCode::BadRequest);
    assert_eq!(http_status(ErrorCode::BadRequest), 400);
    // the staged file's removal was issued with the rejection, exactly once
    let expected = format!("tmp_upload/{}.txt", UUID_A);
    assert_eq!(rejected.cleanup.as_deref(), Some(expected.as_str()));
    let mut temp = rejected.temp;
    assert!(temp.dispose().is_none());
}

#[test]
fn jpeg_upload_is_accepted_with_real_media_type() {
    let (names, temp) = staged(UUID_A, "gallery/photo.jpg");
    let accepted = aetherpix::ingest::ingest_finish(names, temp, 2048, 130, "http://x/api/view", None, true)
        .ok()
        .expect("jpeg accepted");
    assert_eq!(accepted.original_put.content_type, "image/jpeg");
    assert_eq!(accepted.original_put.position, Position::Original);
    assert_eq!(accepted.original_put.key, format!("{}.jpg", UUID_A));
    assert_eq!(accepted.job.quality, 100); // clamped
    assert_eq!(accepted.result.file_name, format!("{}.avif", UUID_A));
    assert_eq!(accepted.result.url, format!("http://x/api/view/{}.avif", UUID_A));
    assert_eq!(accepted.result.raw_name, "photo.jpg");
    assert_eq!(accepted.result.size, 2048);
    assert!(accepted.result.is_public);
    assert!(accepted.result.user_id.is_none());
}

#[test]
fn upload_disallowed_or_empty_body() {
    assert_eq!(
        ingest_begin(false, Some(&"a.png".to_string()), UUID_A).err(),
        Some(IngestError::NotAllowed)
    );
    assert_eq!(ingest_begin(true, None, UUID_A).err(), Some(IngestError::NoFile));
    assert_eq!(ingest_error_code(IngestError::NotAllowed), ErrorCode::Unauthorized);
    assert_eq!(ingest_error_code(IngestError::NoFile), ErrorCode::BadRequest);
    assert_eq!(ingest_error_code(IngestError::Io), ErrorCode::InternalError);
    assert_eq!(http_status(ErrorCode::Unauthorized), 401);
}

#[test]
fn owner_visibility_in_upload_response() {
    let result = UploadResult {
        url: "http://x/k.avif".to_string(),
        file_name: "k.avif".to_string(),
        is_public: false,
        user_id: Some("owner".to_string()),
        uuid: UUID_A.to_string(),
        raw_name: "p.jpg".to_string(),
        size: 1,
    };
    assert!(upload_response(&result).url.is_some());
    assert!(upload_response_for_owner(&result).url.is_none());
    let mut public_result = result;
    public_result.is_public = true;
    assert_eq!(
        upload_response_for_owner(&public_result).url.as_deref(),
        Some("http://x/k.avif")
    );
}

#[test]
fn byte_tally_counts_and_refuses_overflow() {
    let mut tally = ByteTally::new();
    assert!(tally.add_chunk(4096));
    assert!(tally.add_chunk(1024));
    assert_eq!(tally.total, 5120);
    assert!(tally.add_chunk(usize::MAX - 10_000));
    assert!(!tally.add_chunk(10_000));
    assert_eq!(tally.total, 5120 + (usize::MAX - 10_000) as u64);
}

#[test]
fn put_then_get_round_trips_with_nonempty_etag() {
    let mut store = MemStore::new();
    let bytes = vec![7u8, 13, 42, 0, 255];
    let etag = store.put(
        Position::Original,
        "k.jpg".to_string(),
        bytes.clone(),
        "image/jpeg".to_string(),
    );
    assert!(!etag.is_empty());
    let object = store.get(Position::Original, "k.jpg").expect("stored");
    assert_eq!(object.bytes, bytes);
    assert_eq!(object.etag, etag);
    assert_eq!(object.content_type, "image/jpeg");
    assert_eq!(etag, compute_etag(&bytes));
    // the same key under another position is another object
    assert_eq!(store.get(Position::Preview, "k.jpg").err(), Some(StorageError::NotFound));
    assert_eq!(store.get(Position::Original, "other").err(), Some(StorageError::NotFound));
}

#[test]
fn dual_put_join_is_all_or_nothing() {
    let ok = |s: &str| -> Result<String, StorageError> { Ok(s.to_string()) };
    assert!(join_puts(ok("a"), ok("b")).is_ok());
    assert_eq!(join_puts(ok("a"), Err(StorageError::Transient)), Err(StorageError::Transient));
    assert_eq!(join_puts(Err(StorageError::Fatal), ok("b")), Err(StorageError::Fatal));
    assert_eq!(
        join_puts(
            Err::<String, _>(StorageError::Fatal),
            Err::<String, _>(StorageError::Transient)
        ),
        Err(StorageError::Fatal)
    );
}

#[test]
fn worker_completes_only_when_both_uploads_land() {
    let temp = ScopedTempFile::stage("tmp_upload/a.jpg".to_string());
    let job = UploadJob::new(temp, "a.jpg".to_string(), "a.avif".to_string(), 80);
    let running = job_encoded(job, vec![1, 2], vec![3, 4, 5]);
    assert_eq!(running.thumbnail_put.position, Position::Preview);
    assert_eq!(running.preview_put.position, Position::Avif);
    assert_eq!(running.thumbnail_put.key, "a.avif");
    assert_eq!(running.preview_put.key, "a.avif");
    assert_eq!(running.thumbnail_put.content_type, "image/avif");
    let outcome = job_uploads_settled(running, Ok("e1".to_string()), Ok("e2".to_string()));
    assert_eq!(outcome.state, JobState::Completed);
    assert_eq!(outcome.cleanup.as_deref(), Some("tmp_upload/a.jpg"));

    let temp = ScopedTempFile::stage("tmp_upload/b.jpg".to_string());
    let job = UploadJob::new(temp, "b.jpg".to_string(), "b.avif".to_string(), 80);
    let running = job_encoded(job, vec![1], vec![2]);
    let outcome = job_uploads_settled(running, Ok("e1".to_string()), Err(StorageError::Transient));
    assert_eq!(outcome.state, JobState::Failed);
    assert_eq!(outcome.cleanup.as_deref(), Some("tmp_upload/b.jpg"));
}

#[test]
fn failed_encode_fails_job_and_disposes_exactly_once() {
    let temp = ScopedTempFile::stage("tmp_upload/c.png".to_string());
    let job = UploadJob::new(temp, "c.png".to_string(), "c.avif".to_string(), 50);
    let outcome = job_encode_failed(job);
    assert_eq!(outcome.state, JobState::Failed);
    assert_eq!(outcome.cleanup.as_deref(), Some("tmp_upload/c.png"));
    let mut temp = outcome.temp;
    assert!(temp.dispose().is_none());
}

#[test]
fn queue_is_bounded_and_fifo() {
    let mut queue = JobQueue::with_capacity(2);
    let mk = |p: &str| {
        UploadJob::new(
            ScopedTempFile::stage(p.to_string()),
            "o".to_string(),
            "d".to_string(),
            1,
        )
    };
    assert!(queue.enqueue(mk("one")).is_ok());
    assert!(queue.enqueue(mk("two")).is_ok());
    assert_eq!(queue.enqueue(mk("three")).err(), Some(StorageError::Fatal));
    assert_eq!(queue.len(), 2);
    assert_eq!(queue.dequeue().map(|j| j.temp.path().clone()).as_deref(), Some("one"));
    assert_eq!(queue.dequeue().map(|j| j.temp.path().clone()).as_deref(), Some("two"));
    assert!(queue.dequeue().is_none());
}

#[test]
fn thumbnail_geometry_for_large_landscape_jpeg() {
    // a 2000x1500 source at quality 80: thumbnail fits 400x400, aspect kept
    assert_eq!(fit_box(2000, 1500, 400, 400), (400, 300));
    assert_eq!(clamp_quality(80), 80);
    let preview = preview_encode_settings(80);
    assert_eq!((preview.speed, preview.quality, preview.alpha_quality), (6, 80, 80));
    let thumb = thumbnail_encode_settings();
    assert_eq!((thumb.speed, thumb.quality, thumb.alpha_quality), (10, 90, 90));
}

#[test]
fn thumbnail_geometry_edges() {
    assert_eq!(fit_box(1500, 2000, 400, 400), (300, 400));
    assert_eq!(fit_box(400, 400, 400, 400), (400, 400));
    // a tiny or extreme image still lands inside the box, never at zero
    assert_eq!(fit_box(1, 10000, 400, 400), (1, 400));
    let (w, h) = fit_box(10000, 1, 400, 400);
    assert!(w <= 400 && h <= 400 && w >= 1 && h >= 1);
    assert_eq!((w, h), (400, 1));
}

#[test]
fn conditional_fetch_matches_etag() {
    let meta = ObjectMeta {
        etag: Some("\"abc\"".to_string()),
        content_type: Some("image/avif".to_string()),
        content_length: Some(9),
    };
    let client_tag = "\"abc\"".to_string();
    match plan_fetch(Some(&client_tag), meta) {
        FetchPlan::NotModified => {}
        FetchPlan::Stream { .. } => panic!("matching etag must answer not-modified"),
    }
    let meta = ObjectMeta {
        etag: Some("\"abc\"".to_string()),
        content_type: Some("image/avif".to_string()),
        content_length: Some(9),
    };
    let stale = "\"old\"".to_string();
    match plan_fetch(Some(&stale), meta) {
        FetchPlan::NotModified => panic!("stale etag must stream"),
        FetchPlan::Stream { etag, content_type, content_length, cache_control } => {
            assert_eq!(etag.as_deref(), Some("\"abc\""));
            assert_eq!(content_type.as_deref(), Some("image/avif"));
            assert_eq!(content_length, Some(9));
            assert_eq!(cache_control, "public, max-age=2592000, immutable");
        }
    }
    let meta = ObjectMeta { etag: None, content_type: None, content_length: None };
    match plan_fetch(Some(&client_tag), meta) {
        FetchPlan::NotModified => panic!("no etag, nothing can match"),
        FetchPlan::Stream { .. } => {}
    }
}

#[test]
fn key_validation_guards_the_fetch_routes() {
    let good = format!("{}.avif", UUID_A);
    assert!(check_key(good.as_str()));
    assert!(check_preview_key(good.as_str()));
    assert_eq!(preview_uuid(good.as_str()), UUID_A);
    assert!(check_key(format!("{}.j2", UUID_A).as_str()));
    assert!(!check_key(UUID_A)); // no extension
    assert!(!check_key(format!("{}.", UUID_A).as_str())); // empty extension
    assert!(!check_key(format!("{}.toolong", UUID_A).as_str()));
    assert!(!check_key(format!("{}.AVIF", UUID_A).as_str())); // upper case
    assert!(!check_key("0192f3a1-7c44-7bb1-9e55-0123456789aG.avif")); // bad uuid
    assert!(!check_key("../../../../../../etc/passwd.avif"));
    assert!(!check_preview_key(format!("{}.jp", UUID_A).as_str())); // 39 chars
    assert_eq!(fetch_error_code(StorageError::NotFound), ErrorCode::NotFound);
    assert_eq!(fetch_error_code(StorageError::Transient), ErrorCode::InternalError);
    assert_eq!(fetch_error_code(StorageError::Fatal), ErrorCode::InternalError);
}

#[test]
fn router_resolves_each_position_to_its_bucket() {
    let router = StorageRouter::new("orig".to_string(), "prev".to_string(), "avif".to_string());
    assert_eq!(router.bucket_for(Position::Original).as_str(), "orig");
    assert_eq!(router.bucket_for(Position::Preview).as_str(), "prev");
    assert_eq!(router.bucket_for(Position::Avif).as_str(), "avif");
}

#[test]
fn abandoned_job_is_cleaned_up() {
    let temp = ScopedTempFile::stage("tmp_upload/d.gif".to_string());
    let job = UploadJob::new(temp, "d.gif".to_string(), "d.avif".to_string(), 10);
    assert_eq!(aetherpix::ingest::abandon_job(job).as_deref(), Some("tmp_upload/d.gif"));
}

#[test]
fn nameless_upload_is_rejected_like_any_non_image() {
    let (names, temp) = staged(UUID_B, "");
    assert_eq!(names.ext, "");
    assert_eq!(names.file_key, format!("{}.", UUID_B));
    let rejected = aetherpix::ingest::ingest_finish(names, temp, 1, 80, "http://x", None, true)
        .err()
        .expect("nothing known about the bytes");
    assert_eq!(rejected.error, IngestError::InvalidFileType);
}

#[test]
fn uuid_b_is_really_different() {
    assert!(is_uuid_text(UUID_A));
    assert!(is_uuid_text(UUID_B));
    assert_ne!(UUID_A, UUID_B);
}

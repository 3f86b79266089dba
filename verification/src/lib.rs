//! Verified core of an image-hosting pipeline: staged temp-file lifecycle,
//! multi-backend storage routing, presigned direct uploads, background
//! derivative encoding, and conditional content serving.

pub mod account;
pub mod encoder;
pub mod errors;
pub mod ingest;
pub mod jobs;
pub mod keys;
pub mod mime;
pub mod num;
pub mod paths;
pub mod presign;
pub mod records;
pub mod serve;
pub mod settings;
pub mod storage;
pub mod tempfile;
pub mod views;

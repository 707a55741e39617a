//! Plain values for what the two platform endpoints report back.  The
//! surrounding binary decodes the HTTP bodies into these shapes and hands
//! them to the verified pipeline.

use vstd::prelude::*;

verus! {

/// What the slot-request endpoint reports: a success flag, the one-time
/// upload URL and file identifier, and an error text on failure.
pub struct UploadURLResponse {
    pub ok: bool,
    pub upload_url: Option<String>,
    pub file_id: Option<String>,
    pub error: Option<String>,
}

/// Metadata of the uploaded file, as the finalize endpoint reports it.
#[derive(Debug)]
pub struct UploadedFile {
    pub id: String,
    pub name: String,
    pub title: String,
    pub mimetype: String,
    pub size: u64,
    pub url_private: String,
}

/// What the finalize endpoint reports.
pub struct CompleteUploadResponse {
    pub ok: bool,
    pub file: Option<UploadedFile>,
    pub error: Option<String>,
}

} // verus!

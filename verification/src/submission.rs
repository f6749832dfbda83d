use vstd::prelude::*;

verus! {

/// The digest of an uploaded file, as text.
pub type CheckSum = String;

/// Announces an upload.
#[derive(Debug, PartialEq, Eq)]
pub struct DeclareRequest {
    pub check_sum: CheckSum,
    pub size: u64,
    pub toolchain: String,
}

/// An accepted upload announcement.
#[derive(Debug, PartialEq, Eq)]
pub struct DeclareSuccess {
    pub upload_token: u64,
}

/// Why an upload announcement was refused.
#[derive(Debug, PartialEq, Eq, Clone, Copy)]
pub enum DeclareFail {
    ContestOver,
    Denied,
    UnknownToolchain,
    SizeLimitExceeded,
    UnknownDigest,
    Other,
}

/// The answer to an upload announcement.
pub type DeclareResult = Result<DeclareSuccess, DeclareFail>;

/// A chunk of an upload.
#[derive(Debug, PartialEq, Eq)]
pub struct PutChunkRequest {
    pub upload_token: u64,
    pub chunk: String,
}

/// An accepted chunk.
#[derive(Debug, PartialEq, Eq)]
pub struct PutChunkSuccess {}

/// Why a chunk was refused.
#[derive(Debug, PartialEq, Eq, Clone, Copy)]
pub enum PutChunkFail {
    IncorrectSize,
    UnknownUploadToken,
    Timeout,
}

/// The answer to a chunk.
pub type PutChunkResult = Result<PutChunkSuccess, PutChunkFail>;

/// Ends an upload.
#[derive(Debug, PartialEq, Eq)]
pub struct FinishRequest {
    pub upload_token: u64,
}

/// A finished upload: the submission it made.
#[derive(Debug, PartialEq, Eq)]
pub struct FinishSuccess {
    pub submission_id: u64,
}

/// Why an upload could not be finished.
#[derive(Debug, PartialEq, Eq, Clone, Copy)]
pub enum FinishFail {
    UnknownUploadToken,
    UploadNotFinished,
    Timeout,
    IncorrectDigest,
}

/// The answer to the end of an upload.
pub type FinishResult = Result<FinishSuccess, FinishFail>;

/// A whole upload at once.
#[derive(Debug, PartialEq, Eq)]
pub struct UploadRequest {
    /// The file, in base64.
    pub data: String,
    pub toolchain: String,
}

/// A request of the submission protocol.
#[derive(Debug, PartialEq, Eq)]
pub enum SubmissionRequest {
    Declare(DeclareRequest),
    PutChunk(PutChunkRequest),
    Finish(FinishRequest),
}

/// An answer of the submission protocol.
#[derive(Debug, PartialEq, Eq)]
pub enum SubmissionResult {
    Declare(DeclareResult),
    PutChunk(PutChunkResult),
    Finish(FinishResult),
}

} // verus!

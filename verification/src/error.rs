//! Error taxonomy for the sync engine.
//!
//! Every failure a sync operation can report falls into one of four
//! categories: the caller's key or prefix could not be represented
//! (`InvalidInput`), the local filesystem failed (`Io`), the remote store
//! failed (`S3`, tagged with the remote operation that produced it), or the
//! transfer of an object body failed mid-stream (`ByteStream`).
use vstd::prelude::*;

verus! {

/// The remote operation during which a remote-store error arose, kept so a
/// caller can discriminate fetch, upload and listing failures.
#[derive(Debug, Clone, PartialEq, Eq)]
pub enum RemoteOp {
    /// Fetching an object's content by key.
    Fetch,
    /// Uploading an object's content by key.
    Upload,
    /// Listing objects under a prefix.
    List,
}

/// An error reported by a sync operation.
///
/// The engine never swallows a failure: every failing step surfaces here,
/// tagged by category. The `message` fields carry the underlying error's
/// text as handed in by the caller of the state machine.
#[derive(Debug, Clone, PartialEq, Eq)]
pub enum S3FilesystemError {
    /// The supplied key or prefix cannot be represented as text in the
    /// required encoding. Detected before any I/O is requested.
    InvalidInput,
    /// A local filesystem step (directory creation, open, read, write,
    /// seek or delete) failed.
    Io { message: String },
    /// The remote store reported a failure for the tagged operation.
    S3 { op: RemoteOp, message: String },
    /// Streaming an object body between the remote store and local disk
    /// failed partway through.
    ByteStream { message: String },
}

/// The text `describe` renders for an error: its category's label, then
/// the underlying error's message.
pub open spec fn error_text(e: S3FilesystemError) -> Seq<char> {
    match e {
        S3FilesystemError::InvalidInput => "IO Error: Invalid File Path"@,
        S3FilesystemError::Io { message } => "IO Error: "@ + message@,
        S3FilesystemError::S3 { op: _, message } => "S3 Error: "@ + message@,
        S3FilesystemError::ByteStream { message } => "ByteStream error: "@ + message@,
    }
}

impl S3FilesystemError {
    /// Render the error as text, exactly as `error_text` says.
    pub fn describe(&self) -> (res: String)
        ensures
            res@ == error_text(*self),
    {
        match self {
            S3FilesystemError::InvalidInput => String::from_str("IO Error: Invalid File Path"),
            S3FilesystemError::Io { message } => String::from_str("IO Error: ").concat(
                message.as_str(),
            ),
            S3FilesystemError::S3 { op: _, message } => String::from_str("S3 Error: ").concat(
                message.as_str(),
            ),
            S3FilesystemError::ByteStream { message } => String::from_str(
                "ByteStream error: ",
            ).concat(message.as_str()),
        }
    }
}

} // verus!

//! The fetch-or-cache state machine behind `open`.
//!
//! Opening a key is a run of this machine. The machine owns every decision:
//! whether the local mirror is trusted or the remote store is contacted, in
//! what order directories, the mirror file, the fetch and the body stream
//! are handled, and what is cleaned up on failure. The party running the
//! loop starts with [`OpenOptions::open_start`], performs the returned
//! action (one stat, open, fetch, chunk append, seek or delete), and feeds
//! the outcome back through [`OpenOptions::open_step`] until a `Finish` or
//! `Fail` action ends the run.
use crate::error::RemoteOp;
use crate::error::S3FilesystemError;
use crate::fs::OpenOptions;
use crate::paths::local_path_spec;
use crate::paths::normalize_key;
use crate::paths::normalize_key_spec;
use crate::paths::parent_dir;
use crate::paths::parent_dir_spec;
use vstd::prelude::*;

verus! {

/// Where an open run stands: which step's outcome the machine is waiting
/// for. The `local` and `remote` fields carry the mirror path and the
/// normalized key forward to the steps that need them.
#[derive(Debug, PartialEq, Eq)]
pub enum OpenState {
    /// Waiting for the existence check of the mirror file.
    StatLocal { local: String, remote: String, parent: Option<String> },
    /// Waiting for the read-only open of the trusted local copy.
    OpeningCached,
    /// Waiting for the mirror path's parent directories to be created.
    CreatingDirs { local: String, remote: String },
    /// Waiting for the mirror file to be opened for read and write.
    CreatingFile { local: String, remote: String },
    /// Waiting for the remote fetch to answer.
    Fetching { local: String },
    /// Waiting for the next body chunk to arrive and be appended.
    Streaming { local: String },
    /// Waiting for the best-effort delete of the mirror file before the
    /// held failure is reported.
    CleaningUp { pending: S3FilesystemError },
    /// Waiting for the cursor to be repositioned to the file's start.
    SeekingStart,
    /// The run ended with the handle returned.
    Done,
    /// The run ended with a failure reported.
    Failed,
}

/// What the machine asks the party running the loop to do next. Each
/// action is answered by one [`OpenEvent`], except the terminal `Finish`
/// (return the open handle) and `Fail` (report the error).
#[derive(Debug, PartialEq, Eq)]
pub enum OpenAction {
    /// Check whether a file exists at `path`; answer with `StatDone`.
    Stat { path: String },
    /// Open the file at `path` read-only; answer with `IoDone`.
    OpenRead { path: String },
    /// Create the directory `path` and its ancestors; `None` means the
    /// mirror path has no directory part and nothing need be created.
    /// Answer with `IoDone`.
    CreateDirAll { path: Option<String> },
    /// Open (or create) the file at `path` for read and write; answer with
    /// `IoDone`.
    OpenRw { path: String },
    /// Fetch the object `key` from `bucket`; answer with `FetchDone`.
    Fetch { bucket: String, key: String },
    /// Take the next chunk of the fetched body and append it to the open
    /// mirror file; answer with `ChunkDone`.
    ReadChunkAndAppend,
    /// Delete the file at `path`; answer with `IoDone`.
    Delete { path: String },
    /// Reposition the open file's cursor to the start; answer with
    /// `IoDone`.
    SeekStart,
    /// Terminal: the run succeeded, return the open handle.
    Finish,
    /// Terminal: the run failed with `error`.
    Fail { error: S3FilesystemError },
}

/// The outcome of one `ReadChunkAndAppend` action.
#[derive(Debug, PartialEq, Eq)]
pub enum OpenChunk {
    /// A chunk arrived and was appended; more may follow.
    Wrote,
    /// The body is exhausted; everything was appended.
    End,
    /// Reading the next chunk from the remote body failed.
    StreamErr { message: String },
    /// Appending the arrived chunk to the local file failed.
    WriteErr { message: String },
}

/// The outcome of an action, fed back into the machine.
#[derive(Debug, PartialEq, Eq)]
pub enum OpenEvent {
    /// Outcome of `Stat`: whether the mirror file exists.
    StatDone { exists: bool },
    /// Outcome of `OpenRead`, `CreateDirAll`, `OpenRw`, `Delete` or
    /// `SeekStart`: success, or the I/O error's text.
    IoDone { result: Result<(), String> },
    /// Outcome of `Fetch`: success, or the remote error's text.
    FetchDone { result: Result<(), String> },
    /// Outcome of `ReadChunkAndAppend`.
    ChunkDone { chunk: OpenChunk },
}

/// The machine's transition relation: from a state and the event answering
/// its pending action, the next state and next action. `None` means the
/// event does not answer the state's pending action — the run was driven
/// out of protocol and has no next step.
pub open spec fn open_transition(
    cfg: OpenOptions,
    state: OpenState,
    event: OpenEvent,
) -> Option<(OpenState, OpenAction)> {
    match (state, event) {
        (OpenState::StatLocal { local, remote, parent }, OpenEvent::StatDone { exists }) => {
            if exists && !cfg.force_download {
                Some((OpenState::OpeningCached, OpenAction::OpenRead { path: local }))
            } else {
                Some(
                    (
                        OpenState::CreatingDirs { local, remote },
                        OpenAction::CreateDirAll { path: parent },
                    ),
                )
            }
        },
        (OpenState::OpeningCached, OpenEvent::IoDone { result }) => match result {
            Ok(_) => Some((OpenState::Done, OpenAction::Finish)),
            Err(m) => Some(
                (
                    OpenState::Failed,
                    OpenAction::Fail { error: S3FilesystemError::Io { message: m } },
                ),
            ),
        },
        (OpenState::CreatingDirs { local, remote }, OpenEvent::IoDone { result }) => match result {
            Ok(_) => Some(
                (
                    OpenState::CreatingFile { local: local, remote },
                    OpenAction::OpenRw { path: local },
                ),
            ),
            Err(m) => Some(
                (
                    OpenState::Failed,
                    OpenAction::Fail { error: S3FilesystemError::Io { message: m } },
                ),
            ),
        },
        (OpenState::CreatingFile { local, remote }, OpenEvent::IoDone { result }) => match result {
            Ok(_) => Some(
                (
                    OpenState::Fetching { local },
                    OpenAction::Fetch { bucket: cfg.bucket, key: remote },
                ),
            ),
            Err(m) => Some(
                (
                    OpenState::Failed,
                    OpenAction::Fail { error: S3FilesystemError::Io { message: m } },
                ),
            ),
        },
        (OpenState::Fetching { local }, OpenEvent::FetchDone { result }) => match result {
            Ok(_) => Some((OpenState::Streaming { local }, OpenAction::ReadChunkAndAppend)),
            Err(m) => Some(
                (
                    OpenState::CleaningUp {
                        pending: S3FilesystemError::S3 { op: RemoteOp::Fetch, message: m },
                    },
                    OpenAction::Delete { path: local },
                ),
            ),
        },
        (OpenState::Streaming { local }, OpenEvent::ChunkDone { chunk }) => match chunk {
            OpenChunk::Wrote => Some(
                (OpenState::Streaming { local }, OpenAction::ReadChunkAndAppend),
            ),
            OpenChunk::End => Some((OpenState::SeekingStart, OpenAction::SeekStart)),
            OpenChunk::StreamErr { message } => Some(
                (
                    OpenState::CleaningUp {
                        pending: S3FilesystemError::ByteStream { message },
                    },
                    OpenAction::Delete { path: local },
                ),
            ),
            OpenChunk::WriteErr { message } => Some(
                (
                    OpenState::CleaningUp { pending: S3FilesystemError::Io { message } },
                    OpenAction::Delete { path: local },
                ),
            ),
        },
        (OpenState::CleaningUp { pending }, OpenEvent::IoDone { result }) => {
            // The delete is best-effort: the failure that caused the
            // cleanup is reported whether or not the delete succeeded.
            Some((OpenState::Failed, OpenAction::Fail { error: pending }))
        },
        (OpenState::SeekingStart, OpenEvent::IoDone { result }) => match result {
            Ok(_) => Some((OpenState::Done, OpenAction::Finish)),
            Err(m) => Some(
                (
                    OpenState::Failed,
                    OpenAction::Fail { error: S3FilesystemError::Io { message: m } },
                ),
            ),
        },
        _ => None,
    }
}

/// What a well-started open run looks like: the machine waits for the
/// existence check of the mirror path of `key`, carrying the mirror path,
/// the normalized key and the mirror's directory part.
pub open spec fn open_start_ok(cfg: OpenOptions, key: Seq<char>, res: (OpenState, OpenAction)) -> bool {
    let lp = local_path_spec(cfg.mount_path@, cfg.bucket@, key);
    &&& res.0 matches OpenState::StatLocal { local, remote, parent }
        && local@ == lp
        && remote@ == normalize_key_spec(key)
        && (match parent {
            Some(p) => parent_dir_spec(lp) == Some(p@),
            None => parent_dir_spec(lp) is None,
        })
    &&& res.1 matches OpenAction::Stat { path } && path@ == lp
}

impl OpenOptions {
    /// Begin an open run for `key`. A key of `None` stands for one that
    /// cannot be represented as text and fails at once with
    /// `InvalidInput`, before any I/O is requested; otherwise the first
    /// action is the existence check of the key's local mirror path.
    pub fn open_start(&self, key: Option<String>) -> (res: (OpenState, OpenAction))
        ensures
            match key {
                None => res == (
                    OpenState::Failed,
                    OpenAction::Fail { error: S3FilesystemError::InvalidInput },
                ),
                Some(k) => open_start_ok(*self, k@, res),
            },
    {
        match key {
            None => (
                OpenState::Failed,
                OpenAction::Fail { error: S3FilesystemError::InvalidInput },
            ),
            Some(k) => {
                let local = self.local_path(k.as_str());
                let remote = normalize_key(k.as_str());
                let parent = parent_dir(local.as_str());
                let stat_path = local.clone();
                (
                    OpenState::StatLocal { local, remote, parent },
                    OpenAction::Stat { path: stat_path },
                )
            },
        }
    }

    /// Advance an open run: from the current state and the event answering
    /// its pending action, the next state and action, exactly as
    /// [`open_transition`] says. `None` reports an event that does not
    /// answer the pending action.
    pub fn open_step(&self, state: OpenState, event: OpenEvent) -> (res: Option<
        (OpenState, OpenAction),
    >)
        ensures
            res == open_transition(*self, state, event),
    {
        match (state, event) {
            (OpenState::StatLocal { local, remote, parent }, OpenEvent::StatDone { exists }) => {
                if exists && !self.force_download {
                    Some((OpenState::OpeningCached, OpenAction::OpenRead { path: local }))
                } else {
                    Some(
                        (
                            OpenState::CreatingDirs { local, remote },
                            OpenAction::CreateDirAll { path: parent },
                        ),
                    )
                }
            },
            (OpenState::OpeningCached, OpenEvent::IoDone { result }) => match result {
                Ok(_) => Some((OpenState::Done, OpenAction::Finish)),
                Err(m) => Some(
                    (
                        OpenState::Failed,
                        OpenAction::Fail { error: S3FilesystemError::Io { message: m } },
                    ),
                ),
            },
            (OpenState::CreatingDirs { local, remote }, OpenEvent::IoDone { result }) => match result {
                Ok(_) => {
                    let path = local.clone();
                    Some(
                        (
                            OpenState::CreatingFile { local, remote },
                            OpenAction::OpenRw { path },
                        ),
                    )
                },
                Err(m) => Some(
                    (
                        OpenState::Failed,
                        OpenAction::Fail { error: S3FilesystemError::Io { message: m } },
                    ),
                ),
            },
            (OpenState::CreatingFile { local, remote }, OpenEvent::IoDone { result }) => match result {
                Ok(_) => Some(
                    (
                        OpenState::Fetching { local },
                        OpenAction::Fetch { bucket: self.bucket.clone(), key: remote },
                    ),
                ),
                Err(m) => Some(
                    (
                        OpenState::Failed,
                        OpenAction::Fail { error: S3FilesystemError::Io { message: m } },
                    ),
                ),
            },
            (OpenState::Fetching { local }, OpenEvent::FetchDone { result }) => match result {
                Ok(_) => Some((OpenState::Streaming { local }, OpenAction::ReadChunkAndAppend)),
                Err(m) => Some(
                    (
                        OpenState::CleaningUp {
                            pending: S3FilesystemError::S3 { op: RemoteOp::Fetch, message: m },
                        },
                        OpenAction::Delete { path: local },
                    ),
                ),
            },
            (OpenState::Streaming { local }, OpenEvent::ChunkDone { chunk }) => match chunk {
                OpenChunk::Wrote => Some(
                    (OpenState::Streaming { local }, OpenAction::ReadChunkAndAppend),
                ),
                OpenChunk::End => Some((OpenState::SeekingStart, OpenAction::SeekStart)),
                OpenChunk::StreamErr { message } => Some(
                    (
                        OpenState::CleaningUp {
                            pending: S3FilesystemError::ByteStream { message },
                        },
                        OpenAction::Delete { path: local },
                    ),
                ),
                OpenChunk::WriteErr { message } => Some(
                    (
                        OpenState::CleaningUp { pending: S3FilesystemError::Io { message } },
                        OpenAction::Delete { path: local },
                    ),
                ),
            },
            (OpenState::CleaningUp { pending }, OpenEvent::IoDone { result: _ }) => Some(
                (OpenState::Failed, OpenAction::Fail { error: pending }),
            ),
            (OpenState::SeekingStart, OpenEvent::IoDone { result }) => match result {
                Ok(_) => Some((OpenState::Done, OpenAction::Finish)),
                Err(m) => Some(
                    (
                        OpenState::Failed,
                        OpenAction::Fail { error: S3FilesystemError::Io { message: m } },
                    ),
                ),
            },
            (_, _) => None,
        }
    }
}

/// The actions a run of the open machine performs: starting from `state`,
/// each event advances the machine once, and the run stops early if an
/// event falls outside the protocol.
pub open spec fn open_run(cfg: OpenOptions, state: OpenState, events: Seq<OpenEvent>) -> Seq<
    OpenAction,
>
    decreases events.len(),
{
    if events.len() == 0 {
        Seq::empty()
    } else {
        match open_transition(cfg, state, events[0]) {
            None => Seq::empty(),
            Some((s2, a)) => seq![a] + open_run(cfg, s2, events.drop_first()),
        }
    }
}

} // verus!

//! The write-through state machine behind `write`.
//!
//! Writing a key is a run of this machine. The buffer is first persisted to
//! the local mirror file, the upload body is then built from that file's
//! contents — so the bytes shipped are exactly the bytes on disk — and the
//! object is uploaded with overwrite semantics. A failed upload deletes the
//! local file, so a local mirror never pretends to be a synced copy that
//! the remote store does not hold. There is no fast path: a write always
//! performs the local write and one upload. The party running the loop
//! starts with [`OpenOptions::write_start`], performs each returned action,
//! and feeds the outcome back through [`OpenOptions::write_step`].
use crate::error::RemoteOp;
use crate::error::S3FilesystemError;
use crate::fs::OpenOptions;
use crate::paths::local_path_spec;
use crate::paths::normalize_key;
use crate::paths::normalize_key_spec;
use crate::paths::parent_dir;
use crate::paths::parent_dir_spec;
use vstd::prelude::*;

verus! {

/// Where a write run stands: which step's outcome the machine is waiting
/// for. The `local` and `remote` fields carry the mirror path and the
/// normalized key forward to the steps that need them.
#[derive(Debug, PartialEq, Eq)]
pub enum WriteState {
    /// Waiting for the mirror path's parent directories to be created.
    CreatingDirs { local: String, remote: String },
    /// Waiting for the mirror file to be opened for read and write.
    CreatingFile { local: String, remote: String },
    /// Waiting for the caller's buffer to be written to the mirror file.
    Writing { local: String, remote: String },
    /// Waiting for the upload body to be built from the mirror file.
    BuildingBody { local: String, remote: String },
    /// Waiting for the remote upload to answer.
    Uploading { local: String },
    /// Waiting for the best-effort delete of the mirror file before the
    /// held failure is reported.
    CleaningUp { pending: S3FilesystemError },
    /// The run ended with the handle returned.
    Done,
    /// The run ended with a failure reported.
    Failed,
}

/// What the machine asks the party running the loop to do next. Each
/// action is answered by one [`WriteEvent`], except the terminal `Finish`
/// (return the handle to the written file) and `Fail` (report the error).
#[derive(Debug, PartialEq, Eq)]
pub enum WriteAction {
    /// Create the directory `path` and its ancestors; `None` means the
    /// mirror path has no directory part and nothing need be created.
    /// Answer with `IoDone`.
    CreateDirAll { path: Option<String> },
    /// Open (or create) the file at `path` for read and write; answer with
    /// `IoDone`.
    OpenRw { path: String },
    /// Write the caller's whole buffer to the open mirror file and flush
    /// it; answer with `IoDone`.
    WriteAll,
    /// Build the upload body from the contents of the file at `path`;
    /// answer with `BodyDone`.
    MakeBodyFromFile { path: String },
    /// Upload the body as object `key` of `bucket`, replacing any object
    /// already there; answer with `UploadDone`.
    Upload { bucket: String, key: String },
    /// Delete the file at `path`; answer with `IoDone`.
    Delete { path: String },
    /// Terminal: the run succeeded, return the handle to the written file.
    Finish,
    /// Terminal: the run failed with `error`.
    Fail { error: S3FilesystemError },
}

/// The outcome of an action, fed back into the machine.
#[derive(Debug, PartialEq, Eq)]
pub enum WriteEvent {
    /// Outcome of `CreateDirAll`, `OpenRw`, `WriteAll` or `Delete`:
    /// success, or the I/O error's text.
    IoDone { result: Result<(), String> },
    /// Outcome of `MakeBodyFromFile`: success, or the body error's text.
    BodyDone { result: Result<(), String> },
    /// Outcome of `Upload`: success, or the remote error's text.
    UploadDone { result: Result<(), String> },
}

/// The machine's transition relation: from a state and the event answering
/// its pending action, the next state and next action. `None` means the
/// event does not answer the state's pending action — the run was driven
/// out of protocol and has no next step.
pub open spec fn write_transition(
    cfg: OpenOptions,
    state: WriteState,
    event: WriteEvent,
) -> Option<(WriteState, WriteAction)> {
    match (state, event) {
        (WriteState::CreatingDirs { local, remote }, WriteEvent::IoDone { result }) => match result {
            Ok(_) => Some(
                (
                    WriteState::CreatingFile { local: local, remote },
                    WriteAction::OpenRw { path: local },
                ),
            ),
            Err(m) => Some(
                (
                    WriteState::Failed,
                    WriteAction::Fail { error: S3FilesystemError::Io { message: m } },
                ),
            ),
        },
        (WriteState::CreatingFile { local, remote }, WriteEvent::IoDone { result }) => match result {
            Ok(_) => Some((WriteState::Writing { local, remote }, WriteAction::WriteAll)),
            Err(m) => Some(
                (
                    WriteState::Failed,
                    WriteAction::Fail { error: S3FilesystemError::Io { message: m } },
                ),
            ),
        },
        (WriteState::Writing { local, remote }, WriteEvent::IoDone { result }) => match result {
            Ok(_) => Some(
                (
                    WriteState::BuildingBody { local: local, remote },
                    WriteAction::MakeBodyFromFile { path: local },
                ),
            ),
            Err(m) => Some(
                (
                    WriteState::Failed,
                    WriteAction::Fail { error: S3FilesystemError::Io { message: m } },
                ),
            ),
        },
        (WriteState::BuildingBody { local, remote }, WriteEvent::BodyDone { result }) => match result {
            Ok(_) => Some(
                (
                    WriteState::Uploading { local },
                    WriteAction::Upload { bucket: cfg.bucket, key: remote },
                ),
            ),
            Err(m) => Some(
                (
                    WriteState::Failed,
                    WriteAction::Fail { error: S3FilesystemError::ByteStream { message: m } },
                ),
            ),
        },
        (WriteState::Uploading { local }, WriteEvent::UploadDone { result }) => match result {
            Ok(_) => Some((WriteState::Done, WriteAction::Finish)),
            Err(m) => Some(
                (
                    WriteState::CleaningUp {
                        pending: S3FilesystemError::S3 { op: RemoteOp::Upload, message: m },
                    },
                    WriteAction::Delete { path: local },
                ),
            ),
        },
        (WriteState::CleaningUp { pending }, WriteEvent::IoDone { result }) => {
            // The delete is best-effort: the failure that caused the
            // cleanup is reported whether or not the delete succeeded.
            Some((WriteState::Failed, WriteAction::Fail { error: pending }))
        },
        _ => None,
    }
}

/// What a well-started write run looks like: the machine waits for the
/// parent directories of the mirror path of `key`, carrying the mirror
/// path and the normalized key.
pub open spec fn write_start_ok(
    cfg: OpenOptions,
    key: Seq<char>,
    res: (WriteState, WriteAction),
) -> bool {
    let lp = local_path_spec(cfg.mount_path@, cfg.bucket@, key);
    &&& res.0 matches WriteState::CreatingDirs { local, remote }
        && local@ == lp
        && remote@ == normalize_key_spec(key)
    &&& res.1 matches WriteAction::CreateDirAll { path }
        && (match path {
            Some(p) => parent_dir_spec(lp) == Some(p@),
            None => parent_dir_spec(lp) is None,
        })
}

impl OpenOptions {
    /// Begin a write run for `key`. A key of `None` stands for one that
    /// cannot be represented as text and fails at once with
    /// `InvalidInput`, before any I/O is requested; otherwise the first
    /// action creates the parent directories of the key's mirror path.
    pub fn write_start(&self, key: Option<String>) -> (res: (WriteState, WriteAction))
        ensures
            match key {
                None => res == (
                    WriteState::Failed,
                    WriteAction::Fail { error: S3FilesystemError::InvalidInput },
                ),
                Some(k) => write_start_ok(*self, k@, res),
            },
    {
        match key {
            None => (
                WriteState::Failed,
                WriteAction::Fail { error: S3FilesystemError::InvalidInput },
            ),
            Some(k) => {
                let local = self.local_path(k.as_str());
                let remote = normalize_key(k.as_str());
                let parent = parent_dir(local.as_str());
                (
                    WriteState::CreatingDirs { local, remote },
                    WriteAction::CreateDirAll { path: parent },
                )
            },
        }
    }

    /// Advance a write run: from the current state and the event answering
    /// its pending action, the next state and action, exactly as
    /// [`write_transition`] says. `None` reports an event that does not
    /// answer the pending action.
    pub fn write_step(&self, state: WriteState, event: WriteEvent) -> (res: Option<
        (WriteState, WriteAction),
    >)
        ensures
            res == write_transition(*self, state, event),
    {
        match (state, event) {
            (WriteState::CreatingDirs { local, remote }, WriteEvent::IoDone { result }) => match result {
                Ok(_) => {
                    let path = local.clone();
                    Some(
                        (
                            WriteState::CreatingFile { local, remote },
                            WriteAction::OpenRw { path },
                        ),
                    )
                },
                Err(m) => Some(
                    (
                        WriteState::Failed,
                        WriteAction::Fail { error: S3FilesystemError::Io { message: m } },
                    ),
                ),
            },
            (WriteState::CreatingFile { local, remote }, WriteEvent::IoDone { result }) => match result {
                Ok(_) => Some((WriteState::Writing { local, remote }, WriteAction::WriteAll)),
                Err(m) => Some(
                    (
                        WriteState::Failed,
                        WriteAction::Fail { error: S3FilesystemError::Io { message: m } },
                    ),
                ),
            },
            (WriteState::Writing { local, remote }, WriteEvent::IoDone { result }) => match result {
                Ok(_) => {
                    let path = local.clone();
                    Some(
                        (
                            WriteState::BuildingBody { local, remote },
                            WriteAction::MakeBodyFromFile { path },
                        ),
                    )
                },
                Err(m) => Some(
                    (
                        WriteState::Failed,
                        WriteAction::Fail { error: S3FilesystemError::Io { message: m } },
                    ),
                ),
            },
            (WriteState::BuildingBody { local, remote }, WriteEvent::BodyDone { result }) => match result {
                Ok(_) => Some(
                    (
                        WriteState::Uploading { local },
                        WriteAction::Upload { bucket: self.bucket.clone(), key: remote },
                    ),
                ),
                Err(m) => Some(
                    (
                        WriteState::Failed,
                        WriteAction::Fail { error: S3FilesystemError::ByteStream { message: m } },
                    ),
                ),
            },
            (WriteState::Uploading { local }, WriteEvent::UploadDone { result }) => match result {
                Ok(_) => Some((WriteState::Done, WriteAction::Finish)),
                Err(m) => Some(
                    (
                        WriteState::CleaningUp {
                            pending: S3FilesystemError::S3 { op: RemoteOp::Upload, message: m },
                        },
                        WriteAction::Delete { path: local },
                    ),
                ),
            },
            (WriteState::CleaningUp { pending }, WriteEvent::IoDone { result: _ }) => Some(
                (WriteState::Failed, WriteAction::Fail { error: pending }),
            ),
            (_, _) => None,
        }
    }
}

/// The actions a run of the write machine performs: starting from `state`,
/// each event advances the machine once, and the run stops early if an
/// event falls outside the protocol.
pub open spec fn write_run(cfg: OpenOptions, state: WriteState, events: Seq<WriteEvent>) -> Seq<
    WriteAction,
>
    decreases events.len(),
{
    if events.len() == 0 {
        Seq::empty()
    } else {
        match write_transition(cfg, state, events[0]) {
            None => Seq::empty(),
            Some((s2, a)) => seq![a] + write_run(cfg, s2, events.drop_first()),
        }
    }
}

} // verus!

//! A remote object store presented as a local, file-backed cache.
//!
//! The library holds the decision logic of the cache: how a logical key is
//! normalized and mapped onto the local mirror path, when an existing local
//! copy is trusted and when the remote store must be contacted, in what
//! order the filesystem and remote steps of a fetch or a write-through run,
//! and how failures are cleaned up. Each multi-step operation is a small
//! state machine: the caller performs one I/O action at a time and feeds the
//! outcome back, and the machine decides the next step. The machines and the
//! path logic are verified; the party running the loop only executes the
//! actions it is handed.
pub mod error;
pub mod fs;
pub mod laws;
pub mod open_sync;
pub mod paths;
pub mod write_sync;

pub use crate::error::RemoteOp;
pub use crate::error::S3FilesystemError;
pub use crate::fs::DirEntry;
pub use crate::fs::ListRequest;
pub use crate::fs::OpenOptions;
pub use crate::fs::RemoteObject;
pub use crate::open_sync::OpenAction;
pub use crate::open_sync::OpenChunk;
pub use crate::open_sync::OpenEvent;
pub use crate::open_sync::OpenState;
pub use crate::write_sync::WriteAction;
pub use crate::write_sync::WriteEvent;
pub use crate::write_sync::WriteState;

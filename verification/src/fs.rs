//! Mount configuration and the listing model.
//!
//! An [`OpenOptions`] value binds a bucket, a local mount root and the
//! cache-freshness flag. It is an immutable configuration: the fluent
//! builders return a new value instead of mutating one that other holders
//! may share. The remote client handle itself is outside the engine's
//! scope; the party that performs the remote calls owns it.
use crate::error::RemoteOp;
use crate::error::S3FilesystemError;
use crate::paths::is_folder_key;
use crate::paths::join_path;
use crate::paths::key_is_folder;
use crate::paths::local_path_spec;
use crate::paths::normalize_key;
use vstd::prelude::*;

verus! {

/// The default mount root: where mirrored objects land when no other root
/// is configured.
pub open spec fn default_mount_root() -> Seq<char> {
    "target/temp"@
}

/// The default mount root as a path string.
pub fn default_data_store() -> (res: &'static str)
    ensures
        res@ == default_mount_root(),
{
    "target/temp"
}

/// Configuration for syncing objects of one bucket onto local disk.
///
/// Objects are mirrored under `mount_path/bucket/...`, keeping the key's
/// folder structure. With `force_download` set, every open fetches from the
/// remote store; without it, a file already on disk is trusted as current.
#[derive(Debug, Clone, PartialEq, Eq)]
pub struct OpenOptions {
    /// The bucket whose objects this configuration mirrors.
    pub bucket: String,
    /// The local directory the bucket is mounted under.
    pub mount_path: String,
    /// Whether an existing local mirror file is refetched rather than
    /// trusted.
    pub force_download: bool,
}

/// One item of a listing: a logical key, its size in bytes, and whether the
/// key is a folder marker. Folders are synthetic — the remote store is
/// key-flat, and a folder entry appears only for an object whose key ends
/// in `/`.
#[derive(Debug, Clone, PartialEq, Eq)]
pub struct DirEntry {
    /// The object's logical path in the remote store, slash-separated.
    pub path: String,
    /// Size of the object in bytes; folder markers report 0.
    pub size: i64,
    /// Whether the entry is a folder marker.
    pub folder: bool,
}

/// One object as the remote store reports it in a listing: its key, if the
/// store handed one back, and its reported size.
#[derive(Debug, Clone, PartialEq, Eq)]
pub struct RemoteObject {
    /// The object's key, absent when the store returned an entry without
    /// one.
    pub key: Option<String>,
    /// The size the store reported for the object.
    pub size: i64,
}

/// A prefix-scoped listing request, ready to be sent to the remote store.
#[derive(Debug, Clone, PartialEq, Eq)]
pub struct ListRequest {
    /// The bucket to list.
    pub bucket: String,
    /// The key prefix to scope the listing to; empty means the whole
    /// bucket.
    pub prefix: String,
}

/// The content of a [`RemoteObject`] as a pair of plain values.
pub open spec fn remote_object_view(o: RemoteObject) -> (Option<Seq<char>>, int) {
    (
        match o.key {
            Some(k) => Some(k@),
            None => None,
        },
        o.size as int,
    )
}

/// The content of a [`DirEntry`] as a triple of plain values.
pub open spec fn dir_entry_view(d: DirEntry) -> (Seq<char>, int, bool) {
    (d.path@, d.size as int, d.folder)
}

/// The listing entry derived from a reported key and size: a folder marker
/// lists as a folder of size 0 whatever size was reported, any other key as
/// a file of the reported size.
pub open spec fn entry_for(key: Seq<char>, size: int) -> (Seq<char>, int, bool) {
    (key, if is_folder_key(key) { 0int } else { size }, is_folder_key(key))
}

/// The directory entries derived from a remote listing, in the store's own
/// order: objects without a key are skipped, every other object yields
/// `entry_for` its key and size.
pub open spec fn listing_spec(objs: Seq<(Option<Seq<char>>, int)>) -> Seq<(Seq<char>, int, bool)>
    decreases objs.len(),
{
    if objs.len() == 0 {
        Seq::empty()
    } else {
        listing_spec(objs.drop_last()) + (match objs.last().0 {
            Some(k) => seq![entry_for(k, objs.last().1)],
            None => Seq::empty(),
        })
    }
}

impl OpenOptions {
    /// Create a configuration for `bucket` with the defaults: objects are
    /// mirrored under the default mount root, and a local copy already on
    /// disk is trusted.
    pub fn new(bucket: String) -> (res: Self)
        ensures
            res.bucket@ == bucket@,
            res.mount_path@ == default_mount_root(),
            res.force_download == false,
    {
        OpenOptions { bucket, mount_path: String::from_str(default_data_store()), force_download: false }
    }

    /// Return this configuration with the mount root replaced: a pure value
    /// transform, leaving bucket and freshness as they were.
    pub fn mount_path(self, folder_path: String) -> (res: Self)
        ensures
            res.bucket@ == self.bucket@,
            res.mount_path@ == folder_path@,
            res.force_download == self.force_download,
    {
        OpenOptions { mount_path: folder_path, ..self }
    }

    /// Return this configuration with the freshness flag set: with `true`
    /// every open refetches, with `false` an existing local file is
    /// trusted. A pure value transform.
    pub fn force_download(self, download: bool) -> (res: Self)
        ensures
            res.bucket@ == self.bucket@,
            res.mount_path@ == self.mount_path@,
            res.force_download == download,
    {
        OpenOptions { force_download: download, ..self }
    }

    /// The local mirror path of `key` under this configuration:
    /// `mount_path / bucket / normalized key`.
    pub fn local_path(&self, key: &str) -> (res: String)
        ensures
            res@ == local_path_spec(self.mount_path@, self.bucket@, key@),
    {
        let base = join_path(self.mount_path.as_str(), self.bucket.as_str());
        let norm = normalize_key(key);
        join_path(base.as_str(), norm.as_str())
    }

    /// The listing request for `prefix` against this configuration's
    /// bucket. A prefix of `None` stands for one that could not be
    /// represented as text and is rejected before any remote call; the
    /// prefix is otherwise passed on verbatim.
    pub fn walkdir_request(&self, prefix: Option<String>) -> (res: Result<
        ListRequest,
        S3FilesystemError,
    >)
        ensures
            match res {
                Ok(req) => prefix matches Some(p) && req.bucket@ == self.bucket@ && req.prefix@
                    == p@,
                Err(e) => prefix is None && e is InvalidInput,
            },
    {
        match prefix {
            None => Err(S3FilesystemError::InvalidInput),
            Some(p) => Ok(ListRequest { bucket: self.bucket.clone(), prefix: p }),
        }
    }
}

/// Turn the remote store's answer to a listing request into directory
/// entries. A store failure is propagated as a listing-tagged remote error
/// and yields no partial results; a successful answer yields exactly the
/// entries of `listing_spec`, in the store's own order.
pub fn walkdir_finish(outcome: Result<Vec<RemoteObject>, String>) -> (res: Result<
    Vec<DirEntry>,
    S3FilesystemError,
>)
    ensures
        match res {
            Ok(entries) => outcome matches Ok(objs) && entries@.map_values(
                |d: DirEntry| dir_entry_view(d),
            ) == listing_spec(objs@.map_values(|o: RemoteObject| remote_object_view(o))),
            Err(e) => outcome matches Err(m) && e == (S3FilesystemError::S3 {
                op: RemoteOp::List,
                message: m,
            }),
        },
{
    match outcome {
        Err(m) => Err(S3FilesystemError::S3 { op: RemoteOp::List, message: m }),
        Ok(objs) => {
            let mut entries: Vec<DirEntry> = Vec::new();
            let n: usize = objs.len();
            let mut i: usize = 0;
            while i < n
                invariant
                    n == objs@.len(),
                    i <= n,
                    entries@.map_values(|d: DirEntry| dir_entry_view(d)) == listing_spec(
                        objs@.take(i as int).map_values(|o: RemoteObject| remote_object_view(o)),
                    ),
                decreases n - i,
            {
                let ghost prev = objs@.take(i as int).map_values(
                    |o: RemoteObject| remote_object_view(o),
                );
                let ghost cur = objs@.take(i + 1 as int).map_values(
                    |o: RemoteObject| remote_object_view(o),
                );
                proof {
                    assert(cur.drop_last() =~= prev);
                    assert(cur.last() == remote_object_view(objs@[i as int]));
                }
                match &objs[i].key {
                    None => {
                        proof {
                            assert(listing_spec(cur) =~= listing_spec(prev));
                        }
                    },
                    Some(k) => {
                        let folder = key_is_folder(k.as_str());
                        let size: i64 = if folder {
                            0
                        } else {
                            objs[i].size
                        };
                        entries.push(DirEntry { path: k.clone(), size, folder });
                        proof {
                            assert(entries@.map_values(|d: DirEntry| dir_entry_view(d))
                                =~= listing_spec(cur));
                        }
                    },
                }
                i = i + 1;
            }
            proof {
                assert(objs@.take(n as int) =~= objs@);
            }
            Ok(entries)
        },
    }
}

/// The folder flag and size of a listing entry are derived from the key
/// alone: a key ending in `/` yields a folder entry of size 0 regardless of
/// the reported size, and every other key yields a file entry carrying the
/// reported size.
pub proof fn lemma_listing_folder_flag(key: Seq<char>, size: int)
    ensures
        is_folder_key(key) ==> entry_for(key, size) == (key, 0int, true),
        !is_folder_key(key) ==> entry_for(key, size) == (key, size, false),
{
}

} // verus!

//! End-to-end runs of the open and write machines against an in-memory
//! world: a map of local files, a map of remote objects, and counters for
//! the remote calls made.
use s3_filesystem::OpenAction;
use s3_filesystem::OpenChunk;
use s3_filesystem::OpenEvent;
use s3_filesystem::OpenOptions;
use s3_filesystem::RemoteOp;
use s3_filesystem::S3FilesystemError;
use s3_filesystem::WriteAction;
use s3_filesystem::WriteEvent;
use std::collections::HashMap;

struct World {
    local: HashMap<String, Vec<u8>>,
    remote: HashMap<String, Vec<u8>>,
    remote_calls: usize,
    uploads: usize,
    fail_upload: bool,
    fail_stream_after: Option<usize>,
    chunk_size: usize,
}

impl World {
    fn new() -> World {
        World {
            local: HashMap::new(),
            remote: HashMap::new(),
            remote_calls: 0,
            uploads: 0,
            fail_upload: false,
            fail_stream_after: None,
            chunk_size: 2,
        }
    }
}

/// Drive the open machine to completion against the world, performing each
/// action it asks for. Returns the path of the returned handle and the
/// bytes readable from it.
fn run_open(
    cfg: &OpenOptions,
    key: Option<String>,
    w: &mut World,
) -> Result<(String, Vec<u8>), S3FilesystemError> {
    let (mut state, mut action) = cfg.open_start(key);
    let mut current: Option<String> = None;
    let mut body: Option<Vec<Vec<u8>>> = None;
    let mut next_chunk: usize = 0;
    let mut delivered: usize = 0;
    loop {
        let event = match action {
            OpenAction::Stat { path } => OpenEvent::StatDone {
                exists: w.local.contains_key(&path),
            },
            OpenAction::OpenRead { path } => {
                let result = if w.local.contains_key(&path) {
                    Ok(())
                } else {
                    Err(String::from("missing file"))
                };
                current = Some(path);
                OpenEvent::IoDone { result }
            }
            OpenAction::CreateDirAll { path: _ } => OpenEvent::IoDone { result: Ok(()) },
            OpenAction::OpenRw { path } => {
                w.local.insert(path.clone(), Vec::new());
                current = Some(path);
                OpenEvent::IoDone { result: Ok(()) }
            }
            OpenAction::Fetch { bucket: _, key } => {
                w.remote_calls += 1;
                match w.remote.get(&key) {
                    Some(data) => {
                        let chunks: Vec<Vec<u8>> = data
                            .chunks(w.chunk_size.max(1))
                            .map(|c| c.to_vec())
                            .collect();
                        body = Some(chunks);
                        next_chunk = 0;
                        OpenEvent::FetchDone { result: Ok(()) }
                    }
                    None => OpenEvent::FetchDone {
                        result: Err(String::from("no such key")),
                    },
                }
            }
            OpenAction::ReadChunkAndAppend => {
                let fail_now = w.fail_stream_after.map_or(false, |n| delivered >= n);
                if fail_now {
                    OpenEvent::ChunkDone {
                        chunk: OpenChunk::StreamErr {
                            message: String::from("connection reset"),
                        },
                    }
                } else {
                    let chunks = body.as_ref().expect("fetch precedes streaming");
                    if next_chunk < chunks.len() {
                        let c = chunks[next_chunk].clone();
                        next_chunk += 1;
                        delivered += 1;
                        let p = current.as_ref().expect("file open before streaming");
                        w.local
                            .get_mut(p)
                            .expect("mirror file exists while streaming")
                            .extend_from_slice(&c);
                        OpenEvent::ChunkDone {
                            chunk: OpenChunk::Wrote,
                        }
                    } else {
                        OpenEvent::ChunkDone {
                            chunk: OpenChunk::End,
                        }
                    }
                }
            }
            OpenAction::Delete { path } => {
                w.local.remove(&path);
                OpenEvent::IoDone { result: Ok(()) }
            }
            OpenAction::SeekStart => OpenEvent::IoDone { result: Ok(()) },
            OpenAction::Finish => {
                let p = current.expect("finish implies an open handle");
                let content = w.local.get(&p).expect("handle's file exists").clone();
                return Ok((p, content));
            }
            OpenAction::Fail { error } => return Err(error),
        };
        let (s2, a2) = cfg
            .open_step(state, event)
            .expect("event answers the pending action");
        state = s2;
        action = a2;
    }
}

/// Drive the write machine to completion against the world. Returns the
/// path of the local file the returned handle points at.
fn run_write(
    cfg: &OpenOptions,
    key: Option<String>,
    buf: &[u8],
    w: &mut World,
) -> Result<String, S3FilesystemError> {
    let (mut state, mut action) = cfg.write_start(key);
    let mut current: Option<String> = None;
    let mut body: Option<Vec<u8>> = None;
    loop {
        let event = match action {
            WriteAction::CreateDirAll { path: _ } => WriteEvent::IoDone { result: Ok(()) },
            WriteAction::OpenRw { path } => {
                w.local.insert(path.clone(), Vec::new());
                current = Some(path);
                WriteEvent::IoDone { result: Ok(()) }
            }
            WriteAction::WriteAll => {
                let p = current.as_ref().expect("file open before writing");
                let f = w.local.get_mut(p).expect("mirror file exists");
                f.clear();
                f.extend_from_slice(buf);
                WriteEvent::IoDone { result: Ok(()) }
            }
            WriteAction::MakeBodyFromFile { path } => match w.local.get(&path) {
                Some(d) => {
                    body = Some(d.clone());
                    WriteEvent::BodyDone { result: Ok(()) }
                }
                None => WriteEvent::BodyDone {
                    result: Err(String::from("file vanished")),
                },
            },
            WriteAction::Upload { bucket: _, key } => {
                w.remote_calls += 1;
                if w.fail_upload {
                    WriteEvent::UploadDone {
                        result: Err(String::from("access denied")),
                    }
                } else {
                    w.uploads += 1;
                    w.remote
                        .insert(key, body.clone().expect("body built before upload"));
                    WriteEvent::UploadDone { result: Ok(()) }
                }
            }
            WriteAction::Delete { path } => {
                w.local.remove(&path);
                WriteEvent::IoDone { result: Ok(()) }
            }
            WriteAction::Finish => return Ok(current.expect("finish implies an open handle")),
            WriteAction::Fail { error } => return Err(error),
        };
        let (s2, a2) = cfg
            .write_step(state, event)
            .expect("event answers the pending action");
        state = s2;
        action = a2;
    }
}

fn cfg_mb() -> OpenOptions {
    OpenOptions::new(String::from("b")).mount_path(String::from("m"))
}

#[test]
fn test_cache_miss_fetch() {
    let mut w = World::new();
    w.remote
        .insert(String::from("a/b.txt"), b"hello".to_vec());
    let cfg = cfg_mb();
    let (path, content) = run_open(&cfg, Some(String::from("a/b.txt")), &mut w).unwrap();
    assert_eq!(path, "m/b/a/b.txt");
    assert_eq!(content, b"hello".to_vec());
    assert_eq!(w.local.get("m/b/a/b.txt"), Some(&b"hello".to_vec()));
    assert_eq!(w.remote_calls, 1);
}

#[test]
fn test_cache_hit_zero_remote_calls() {
    let mut w = World::new();
    w.local
        .insert(String::from("m/b/a/b.txt"), b"local copy".to_vec());
    w.remote
        .insert(String::from("a/b.txt"), b"remote copy".to_vec());
    let cfg = cfg_mb();
    let (path, content) = run_open(&cfg, Some(String::from("a/b.txt")), &mut w).unwrap();
    assert_eq!(path, "m/b/a/b.txt");
    assert_eq!(content, b"local copy".to_vec());
    assert_eq!(w.remote_calls, 0);
}

#[test]
fn test_forced_refresh_overwrites_stale() {
    let mut w = World::new();
    w.local
        .insert(String::from("m/b/k.txt"), b"old".to_vec());
    w.remote
        .insert(String::from("k.txt"), b"new data!".to_vec());
    let cfg = cfg_mb().force_download(true);
    let (path, content) = run_open(&cfg, Some(String::from("k.txt")), &mut w).unwrap();
    assert_eq!(path, "m/b/k.txt");
    assert_eq!(content, b"new data!".to_vec());
    assert_eq!(w.local.get("m/b/k.txt"), Some(&b"new data!".to_vec()));
    assert_eq!(w.remote_calls, 1);
}

#[test]
fn test_write_through_round_trip() {
    let mut w = World::new();
    let cfg = cfg_mb();
    let path = run_write(&cfg, Some(String::from("a/b.txt")), b"payload", &mut w).unwrap();
    assert_eq!(path, "m/b/a/b.txt");
    assert_eq!(w.remote.get("a/b.txt"), Some(&b"payload".to_vec()));
    assert_eq!(w.uploads, 1);
    let (path2, content) = run_open(&cfg, Some(String::from("a/b.txt")), &mut w).unwrap();
    assert_eq!(path2, "m/b/a/b.txt");
    assert_eq!(content, b"payload".to_vec());
    assert_eq!(w.uploads, 1);
    assert_eq!(w.remote_calls, 1);
}

#[test]
fn test_open_fetch_failure_cleanup() {
    let mut w = World::new();
    let cfg = cfg_mb();
    let err = run_open(&cfg, Some(String::from("missing.txt")), &mut w).unwrap_err();
    assert_eq!(
        err,
        S3FilesystemError::S3 {
            op: RemoteOp::Fetch,
            message: String::from("no such key"),
        }
    );
    assert!(!w.local.contains_key("m/b/missing.txt"));
    assert!(w.local.is_empty());
}

#[test]
fn test_stream_failure_cleanup() {
    let mut w = World::new();
    w.remote
        .insert(String::from("big.bin"), vec![7u8; 10]);
    w.fail_stream_after = Some(1);
    let cfg = cfg_mb();
    let err = run_open(&cfg, Some(String::from("big.bin")), &mut w).unwrap_err();
    assert_eq!(
        err,
        S3FilesystemError::ByteStream {
            message: String::from("connection reset"),
        }
    );
    assert!(!w.local.contains_key("m/b/big.bin"));
}

#[test]
fn test_write_upload_failure_cleanup() {
    let mut w = World::new();
    w.fail_upload = true;
    let cfg = cfg_mb();
    let err = run_write(&cfg, Some(String::from("a/b.txt")), b"payload", &mut w).unwrap_err();
    assert_eq!(
        err,
        S3FilesystemError::S3 {
            op: RemoteOp::Upload,
            message: String::from("access denied"),
        }
    );
    assert!(!w.local.contains_key("m/b/a/b.txt"));
    assert!(w.remote.is_empty());
    assert_eq!(w.uploads, 0);
}

#[test]
fn test_invalid_key_rejected_before_io() {
    let mut w = World::new();
    let cfg = cfg_mb();
    let err = run_open(&cfg, None, &mut w).unwrap_err();
    assert_eq!(err, S3FilesystemError::InvalidInput);
    let werr = run_write(&cfg, None, b"x", &mut w).unwrap_err();
    assert_eq!(werr, S3FilesystemError::InvalidInput);
    assert_eq!(w.remote_calls, 0);
    assert!(w.local.is_empty());
}

#[test]
fn test_concrete_scenario() {
    let mut w = World::new();
    w.remote
        .insert(String::from("a/b.txt"), b"hello".to_vec());
    let cfg = OpenOptions::new(String::from("b")).mount_path(String::from("m"));
    let (path, content) = run_open(&cfg, Some(String::from("a/b.txt")), &mut w).unwrap();
    assert_eq!(path, "m/b/a/b.txt");
    assert_eq!(w.local.get("m/b/a/b.txt"), Some(&b"hello".to_vec()));
    assert_eq!(content, b"hello".to_vec());
    let calls_after_first = w.remote_calls;
    let (path2, content2) = run_open(&cfg, Some(String::from("a/b.txt")), &mut w).unwrap();
    assert_eq!(w.remote_calls, calls_after_first);
    assert_eq!(path2, path);
    assert_eq!(content2, content);
}

#[test]
fn test_separator_styles_share_mirror() {
    let mut w = World::new();
    w.remote
        .insert(String::from("a/b.txt"), b"x1".to_vec());
    let cfg = cfg_mb();
    let (path, content) = run_open(&cfg, Some(String::from("a\\b.txt")), &mut w).unwrap();
    assert_eq!(path, "m/b/a/b.txt");
    assert_eq!(content, b"x1".to_vec());
    assert_eq!(w.remote_calls, 1);
    let (path2, content2) = run_open(&cfg, Some(String::from("a/b.txt")), &mut w).unwrap();
    assert_eq!(path2, "m/b/a/b.txt");
    assert_eq!(content2, b"x1".to_vec());
    assert_eq!(w.remote_calls, 1);
}

#[test]
fn test_chunked_download_keeps_order() {
    let mut w = World::new();
    w.chunk_size = 3;
    let data: Vec<u8> = (0u8..32).collect();
    w.remote.insert(String::from("blob"), data.clone());
    let cfg = cfg_mb();
    let (_, content) = run_open(&cfg, Some(String::from("blob")), &mut w).unwrap();
    assert_eq!(content, data);
}

#[test]
fn test_empty_remote_object() {
    let mut w = World::new();
    w.remote.insert(String::from("empty"), Vec::new());
    let cfg = cfg_mb();
    let (path, content) = run_open(&cfg, Some(String::from("empty")), &mut w).unwrap();
    assert_eq!(path, "m/b/empty");
    assert_eq!(content, Vec::<u8>::new());
    assert_eq!(w.local.get("m/b/empty"), Some(&Vec::new()));
}

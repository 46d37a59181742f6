//! Configuration, path derivation and listing behavior.
use s3_filesystem::fs::default_data_store;
use s3_filesystem::paths::join_path;
use s3_filesystem::paths::key_is_folder;
use s3_filesystem::paths::normalize_key;
use s3_filesystem::paths::parent_dir;
use s3_filesystem::DirEntry;
use s3_filesystem::OpenOptions;
use s3_filesystem::RemoteObject;
use s3_filesystem::RemoteOp;
use s3_filesystem::S3FilesystemError;

#[test]
fn test_new_defaults() {
    let cfg = OpenOptions::new(String::from("my-bucket"));
    assert_eq!(cfg.bucket, "my-bucket");
    assert_eq!(cfg.mount_path, "target/temp");
    assert_eq!(cfg.mount_path, default_data_store());
    assert!(!cfg.force_download);
}

#[test]
fn test_mount_path_builder() {
    let cfg = OpenOptions::new(String::from("b")).mount_path(String::from("data/test/"));
    assert_eq!(cfg.bucket, "b");
    assert_eq!(cfg.mount_path, "data/test/");
    assert!(!cfg.force_download);
}

#[test]
fn test_force_download_builder() {
    let cfg = OpenOptions::new(String::from("b"))
        .mount_path(String::from("m"))
        .force_download(true);
    assert_eq!(cfg.bucket, "b");
    assert_eq!(cfg.mount_path, "m");
    assert!(cfg.force_download);
    let back = cfg.force_download(false);
    assert!(!back.force_download);
}

#[test]
fn test_local_path_layout() {
    let cfg = OpenOptions::new(String::from("b")).mount_path(String::from("m"));
    assert_eq!(cfg.local_path("a/b.txt"), "m/b/a/b.txt");
    let trailing = OpenOptions::new(String::from("bkt")).mount_path(String::from("data/test/"));
    assert_eq!(trailing.local_path("f.csv"), "data/test/bkt/f.csv");
    let empty_mount = OpenOptions::new(String::from("b")).mount_path(String::new());
    assert_eq!(empty_mount.local_path("k"), "b/k");
}

#[test]
fn test_local_path_normalizes_separators() {
    let cfg = OpenOptions::new(String::from("b")).mount_path(String::from("m"));
    assert_eq!(cfg.local_path("a\\b.txt"), cfg.local_path("a/b.txt"));
    assert_eq!(cfg.local_path("a\\b.txt"), "m/b/a/b.txt");
}

#[test]
fn test_normalize_key_exec() {
    assert_eq!(normalize_key("a\\b\\c.txt"), "a/b/c.txt");
    assert_eq!(normalize_key("a/b.txt"), "a/b.txt");
    assert_eq!(normalize_key(""), "");
    let once = normalize_key("x\\y");
    assert_eq!(normalize_key(&once), once);
}

#[test]
fn test_join_path_exec() {
    assert_eq!(join_path("m", "b"), "m/b");
    assert_eq!(join_path("data/test/", "b"), "data/test/b");
    assert_eq!(join_path("", "b"), "b");
}

#[test]
fn test_parent_dir_exec() {
    assert_eq!(parent_dir("m/b/a/b.txt"), Some(String::from("m/b/a")));
    assert_eq!(parent_dir("file"), None);
    assert_eq!(parent_dir(""), None);
    assert_eq!(parent_dir("dir/"), Some(String::from("dir")));
}

#[test]
fn test_key_is_folder_exec() {
    assert!(key_is_folder("android/"));
    assert!(!key_is_folder("android"));
    assert!(!key_is_folder(""));
    assert!(key_is_folder("/"));
}

#[test]
fn test_walkdir_request_carries_prefix_verbatim() {
    let cfg = OpenOptions::new(String::from("my-bucket"));
    let req = cfg.walkdir_request(Some(String::from("redasa1-Q1-20"))).unwrap();
    assert_eq!(req.bucket, "my-bucket");
    assert_eq!(req.prefix, "redasa1-Q1-20");
    let whole = cfg.walkdir_request(Some(String::new())).unwrap();
    assert_eq!(whole.prefix, "");
}

#[test]
fn test_walkdir_request_rejects_unrepresentable_prefix() {
    let cfg = OpenOptions::new(String::from("b"));
    let err = cfg.walkdir_request(None).unwrap_err();
    assert_eq!(err, S3FilesystemError::InvalidInput);
}

#[test]
fn test_walkdir_finish_folder_flags() {
    let objs = vec![
        RemoteObject { key: Some(String::from("android/")), size: 42 },
        RemoteObject { key: Some(String::from("android/app.apk")), size: 7 },
        RemoteObject { key: None, size: 9 },
        RemoteObject { key: Some(String::from("manifest.txt")), size: 0 },
    ];
    let entries = s3_filesystem::fs::walkdir_finish(Ok(objs)).unwrap();
    assert_eq!(
        entries,
        vec![
            DirEntry { path: String::from("android/"), size: 0, folder: true },
            DirEntry { path: String::from("android/app.apk"), size: 7, folder: false },
            DirEntry { path: String::from("manifest.txt"), size: 0, folder: false },
        ]
    );
}

#[test]
fn test_walkdir_finish_folder_size_zeroed() {
    let objs = vec![RemoteObject { key: Some(String::from("d/")), size: 123 }];
    let entries = s3_filesystem::fs::walkdir_finish(Ok(objs)).unwrap();
    assert_eq!(entries.len(), 1);
    assert!(entries[0].folder);
    assert_eq!(entries[0].size, 0);
    assert_eq!(entries[0].path, "d/");
}

#[test]
fn test_walkdir_finish_propagates_store_error() {
    let err = s3_filesystem::fs::walkdir_finish(Err(String::from("throttled"))).unwrap_err();
    assert_eq!(
        err,
        S3FilesystemError::S3 { op: RemoteOp::List, message: String::from("throttled") }
    );
}

#[test]
fn test_walkdir_finish_empty_listing() {
    let entries = s3_filesystem::fs::walkdir_finish(Ok(Vec::new())).unwrap();
    assert!(entries.is_empty());
}

#[test]
fn test_error_describe() {
    assert_eq!(
        S3FilesystemError::InvalidInput.describe(),
        "IO Error: Invalid File Path"
    );
    let io = S3FilesystemError::Io { message: String::from("permission denied") };
    assert_eq!(io.describe(), "IO Error: permission denied");
    let s3 = S3FilesystemError::S3 { op: RemoteOp::Fetch, message: String::from("no such key") };
    assert_eq!(s3.describe(), "S3 Error: no such key");
    let bs = S3FilesystemError::ByteStream { message: String::from("reset") };
    assert_eq!(bs.describe(), "ByteStream error: reset");
}

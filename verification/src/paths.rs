//! Key normalization and local mirror path derivation.
//!
//! A logical key addresses an object in the remote store with `/`-separated
//! segments. A key typed with the local platform's `\` separator is accepted
//! and normalized to the remote form before any use. The local mirror path
//! for a key is `mount_root / bucket / normalized-key`, so two buckets
//! mounted at the same root never collide.
use vstd::prelude::*;

verus! {

/// The remote form of a key: every local-native `\` separator replaced by
/// the remote store's `/` separator.
pub open spec fn normalize_key_spec(key: Seq<char>) -> Seq<char> {
    key.map_values(|c: char| if c == '\\' { '/' } else { c })
}

/// Path concatenation: `base` and `tail` joined by a single `/`, except that
/// an empty `base` contributes nothing and a `base` already ending in `/`
/// gains no second separator.
pub open spec fn join_spec(base: Seq<char>, tail: Seq<char>) -> Seq<char> {
    if base.len() == 0 {
        tail
    } else if base.last() == '/' {
        base + tail
    } else {
        base + seq!['/'] + tail
    }
}

/// The local mirror path of a key: the mount root, then the bucket as a
/// namespace, then the key's normalized segments.
pub open spec fn local_path_spec(mount: Seq<char>, bucket: Seq<char>, key: Seq<char>) -> Seq<char> {
    join_spec(join_spec(mount, bucket), normalize_key_spec(key))
}

/// The directory part of a path: everything before the last `/`, or `None`
/// for a path without any separator (which needs no directory created).
pub open spec fn parent_dir_spec(path: Seq<char>) -> Option<Seq<char>>
    decreases path.len(),
{
    if path.len() == 0 {
        None
    } else if path.last() == '/' {
        Some(path.drop_last())
    } else {
        parent_dir_spec(path.drop_last())
    }
}

/// A key names a folder marker exactly when it ends in `/`.
pub open spec fn is_folder_key(key: Seq<char>) -> bool {
    key.len() > 0 && key.last() == '/'
}

/// Replace every `\` in `key` by `/`.
pub fn normalize_key(key: &str) -> (res: String)
    ensures
        res@ == normalize_key_spec(key@),
{
    let n: usize = key.unicode_len();
    let mut out = String::new();
    let mut i: usize = 0;
    while i < n
        invariant
            n == key@.len(),
            i <= n,
            out@ == normalize_key_spec(key@.take(i as int)),
        decreases n - i,
    {
        let c = key.get_char(i);
        if c == '\\' {
            out.append("/");
            proof {
                reveal_strlit("/");
                assert(out@ =~= normalize_key_spec(key@.take(i + 1 as int)));
            }
        } else {
            let piece = key.substring_char(i, i + 1);
            out.append(piece);
            proof {
                assert(out@ =~= normalize_key_spec(key@.take(i + 1 as int)));
            }
        }
        i = i + 1;
    }
    proof {
        assert(key@.take(n as int) =~= key@);
    }
    out
}

/// Join `base` and `tail` with a single `/` separator, as `join_spec` says.
pub fn join_path(base: &str, tail: &str) -> (res: String)
    ensures
        res@ == join_spec(base@, tail@),
{
    let n: usize = base.unicode_len();
    if n == 0 {
        String::from_str(tail)
    } else if base.get_char(n - 1) == '/' {
        String::from_str(base).concat(tail)
    } else {
        let mut out = String::from_str(base);
        out.append("/");
        let res = out.concat(tail);
        proof {
            reveal_strlit("/");
            assert(res@ =~= base@ + seq!['/'] + tail@);
        }
        res
    }
}

/// The directory part of `path`, as `parent_dir_spec` says.
pub fn parent_dir(path: &str) -> (res: Option<String>)
    ensures
        match res {
            Some(dir) => parent_dir_spec(path@) == Some(dir@),
            None => parent_dir_spec(path@) is None,
        },
{
    let n: usize = path.unicode_len();
    let mut i: usize = n;
    proof {
        assert(path@.take(n as int) =~= path@);
    }
    while i > 0
        invariant
            n == path@.len(),
            i <= n,
            parent_dir_spec(path@) == parent_dir_spec(path@.take(i as int)),
        decreases i,
    {
        let c = path.get_char(i - 1);
        proof {
            assert(path@.take(i as int).last() == path@[i - 1]);
            assert(path@.take(i as int).drop_last() =~= path@.take(i - 1));
        }
        if c == '/' {
            let dir = path.substring_char(0, i - 1);
            proof {
                assert(dir@ =~= path@.take(i - 1));
            }
            return Some(String::from_str(dir));
        }
        i = i - 1;
    }
    proof {
        assert(path@.take(0) =~= Seq::<char>::empty());
    }
    None
}

/// Whether `key` names a folder marker, as `is_folder_key` says.
pub fn key_is_folder(key: &str) -> (res: bool)
    ensures
        res == is_folder_key(key@),
{
    let n: usize = key.unicode_len();
    if n == 0 {
        false
    } else {
        key.get_char(n - 1) == '/'
    }
}

/// Normalization is idempotent: normalizing an already-normalized key
/// changes nothing, so a key may be normalized any number of times.
pub proof fn lemma_normalize_idempotent(key: Seq<char>)
    ensures
        normalize_key_spec(normalize_key_spec(key)) == normalize_key_spec(key),
{
    assert(normalize_key_spec(normalize_key_spec(key)) =~= normalize_key_spec(key));
}

/// The same logical key written with either separator style resolves to the
/// same local mirror path: mirroring a key and mirroring its normalized form
/// agree, for every mount root and bucket.
pub proof fn lemma_local_path_separator_insensitive(
    mount: Seq<char>,
    bucket: Seq<char>,
    key: Seq<char>,
)
    ensures
        local_path_spec(mount, bucket, normalize_key_spec(key)) == local_path_spec(
            mount,
            bucket,
            key,
        ),
{
    lemma_normalize_idempotent(key);
}

} // verus!

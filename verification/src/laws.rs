//! The engine's laws: properties of whole runs of the sync machines.
//!
//! Each proof function here states a guarantee of the engine over every
//! run of a machine — sequences of actions, not single steps — and is
//! proved from the transition relations alone.
use crate::fs::OpenOptions;
use crate::open_sync::open_run;
use crate::open_sync::open_start_ok;
use crate::open_sync::open_transition;
use crate::open_sync::OpenAction;
use crate::open_sync::OpenEvent;
use crate::open_sync::OpenChunk;
use crate::open_sync::OpenState;
use crate::paths::local_path_spec;
use crate::write_sync::write_run;
use crate::write_sync::write_start_ok;
use crate::write_sync::write_transition;
use crate::write_sync::WriteAction;
use crate::write_sync::WriteEvent;
use crate::write_sync::WriteState;
use vstd::prelude::*;

verus! {

/// States from which a run can only return the already-open handle or
/// report a failure: the cache-hit tail of the open machine.
pub open spec fn open_cache_phase(state: OpenState) -> bool {
    ||| state is OpeningCached
    ||| state is Done
    ||| state is Failed
}

proof fn lemma_cache_phase_actions(cfg: OpenOptions, state: OpenState, events: Seq<OpenEvent>)
    requires
        open_cache_phase(state),
    ensures
        forall|i: int|
            0 <= i < open_run(cfg, state, events).len() ==> ((#[trigger] open_run(
                cfg,
                state,
                events,
            )[i]) is Finish || open_run(cfg, state, events)[i] is Fail),
    decreases events.len(),
{
    if events.len() > 0 {
        let step = open_transition(cfg, state, events[0]);
        if step is Some {
            let s2 = step.unwrap().0;
            let a = step.unwrap().1;
            assert(open_cache_phase(s2));
            assert(a is Finish || a is Fail);
            lemma_cache_phase_actions(cfg, s2, events.drop_first());
            let acts = open_run(cfg, state, events);
            let rest = open_run(cfg, s2, events.drop_first());
            assert(acts == seq![a] + rest);
            assert forall|i: int| 0 <= i < acts.len() implies ((#[trigger] acts[i]) is Finish
                || acts[i] is Fail) by {
                if i > 0 {
                    assert(acts[i] == rest[i - 1]);
                }
            }
        }
    }
}

/// Cache-hit purity: with freshness "trust local" and the mirror file
/// reported present, an open run issues no remote call at all. Its first
/// action after the existence check is the read-only open of the mirror
/// path, and every action of the whole run is that open, the final
/// `Finish`, or a `Fail` report — never a `Fetch`, and never a write or
/// delete of any file.
pub proof fn lemma_cache_hit_purity(
    cfg: OpenOptions,
    key: Seq<char>,
    start: (OpenState, OpenAction),
    events: Seq<OpenEvent>,
)
    requires
        cfg.force_download == false,
        open_start_ok(cfg, key, start),
        events.len() >= 1,
        events[0] == (OpenEvent::StatDone { exists: true }),
    ensures
        ({
            let acts = open_run(cfg, start.0, events);
            let lp = local_path_spec(cfg.mount_path@, cfg.bucket@, key);
            &&& acts.len() >= 1
            &&& acts[0] matches OpenAction::OpenRead { path } && path@ == lp
            &&& forall|i: int|
                0 <= i < acts.len() ==> (((#[trigger] acts[i]) matches OpenAction::OpenRead {
                    path,
                } && path@ == lp) || acts[i] is Finish || acts[i] is Fail)
        }),
{
    let lp = local_path_spec(cfg.mount_path@, cfg.bucket@, key);
    match start.0 {
        OpenState::StatLocal { local, remote, parent } => {
            let step = open_transition(cfg, start.0, events[0]);
            assert(step == Some(
                (OpenState::OpeningCached, OpenAction::OpenRead { path: local }),
            ));
            let acts = open_run(cfg, start.0, events);
            let rest = open_run(cfg, OpenState::OpeningCached, events.drop_first());
            assert(acts == seq![OpenAction::OpenRead { path: local }] + rest);
            lemma_cache_phase_actions(cfg, OpenState::OpeningCached, events.drop_first());
            assert forall|i: int| 0 <= i < acts.len() implies (((#[trigger] acts[i])
                matches OpenAction::OpenRead { path } && path@ == lp) || acts[i] is Finish
                || acts[i] is Fail) by {
                if i > 0 {
                    assert(acts[i] == rest[i - 1]);
                }
            }
        },
        _ => {},
    }
}

/// No state but the initial one can open the cached copy: once the machine
/// has moved past the existence check, a read-only open of the local file
/// is no longer among its actions.
proof fn lemma_no_cached_open_past_stat(cfg: OpenOptions, state: OpenState, events: Seq<OpenEvent>)
    requires
        !(state is StatLocal),
    ensures
        forall|i: int|
            0 <= i < open_run(cfg, state, events).len() ==> !((#[trigger] open_run(
                cfg,
                state,
                events,
            )[i]) is OpenRead),
    decreases events.len(),
{
    if events.len() > 0 {
        let step = open_transition(cfg, state, events[0]);
        if step is Some {
            let s2 = step.unwrap().0;
            let a = step.unwrap().1;
            assert(!(s2 is StatLocal));
            assert(!(a is OpenRead));
            lemma_no_cached_open_past_stat(cfg, s2, events.drop_first());
            let acts = open_run(cfg, state, events);
            let rest = open_run(cfg, s2, events.drop_first());
            assert(acts == seq![a] + rest);
            assert forall|i: int| 0 <= i < acts.len() implies !((#[trigger] acts[i]) is OpenRead)
                by {
                if i > 0 {
                    assert(acts[i] == rest[i - 1]);
                }
            }
        }
    }
}

/// Forced refresh overrides the cache: with freshness "always refresh",
/// the run never opens the existing local copy directly. Even when the
/// existence check reports the file present, the machine proceeds to the
/// fetch path — its next action creates the mirror's parent directories —
/// and no action of any run is a read-only open of the stale file.
pub proof fn lemma_forced_refresh_overrides_cache(
    cfg: OpenOptions,
    key: Seq<char>,
    start: (OpenState, OpenAction),
    events: Seq<OpenEvent>,
)
    requires
        cfg.force_download == true,
        open_start_ok(cfg, key, start),
    ensures
        forall|i: int|
            0 <= i < open_run(cfg, start.0, events).len() ==> !((#[trigger] open_run(
                cfg,
                start.0,
                events,
            )[i]) is OpenRead),
        events.len() >= 1 && events[0] is StatDone ==> open_run(cfg, start.0, events)[0]
            is CreateDirAll,
{
    match start.0 {
        OpenState::StatLocal { local, remote, parent } => {
            let acts = open_run(cfg, start.0, events);
            if events.len() >= 1 {
                let step = open_transition(cfg, start.0, events[0]);
                if step is Some {
                    let s2 = step.unwrap().0;
                    let a = step.unwrap().1;
                    assert(!(s2 is StatLocal));
                    assert(!(a is OpenRead));
                    lemma_no_cached_open_past_stat(cfg, s2, events.drop_first());
                    let rest = open_run(cfg, s2, events.drop_first());
                    assert(acts == seq![a] + rest);
                    assert forall|i: int| 0 <= i < acts.len() implies !((#[trigger] acts[i])
                        is OpenRead) by {
                        if i > 0 {
                            assert(acts[i] == rest[i - 1]);
                        }
                    }
                }
            }
        },
        _ => {},
    }
}

/// Whether every mirror-path field the open machine still carries equals
/// `lp`: the path a run never strays from.
pub open spec fn open_tracks_path(lp: Seq<char>, state: OpenState) -> bool {
    match state {
        OpenState::StatLocal { local, remote, parent } => local@ == lp,
        OpenState::CreatingDirs { local, remote } => local@ == lp,
        OpenState::CreatingFile { local, remote } => local@ == lp,
        OpenState::Fetching { local } => local@ == lp,
        OpenState::Streaming { local } => local@ == lp,
        _ => true,
    }
}

proof fn lemma_open_cleanup_pairs(
    cfg: OpenOptions,
    lp: Seq<char>,
    state: OpenState,
    events: Seq<OpenEvent>,
)
    requires
        open_tracks_path(lp, state),
    ensures
        ({
            let acts = open_run(cfg, state, events);
            &&& forall|i: int|
                0 <= i < acts.len() && (#[trigger] acts[i]) is Fail && (acts[i]->error is S3
                    || acts[i]->error is ByteStream) ==> ((i == 0 && state is CleaningUp) || (i > 0
                    && acts[i - 1] is Delete && acts[i - 1]->Delete_path@ == lp))
            &&& forall|i: int|
                0 <= i < acts.len() && (#[trigger] acts[i]) is Delete ==> acts[i]->Delete_path@
                    == lp
        }),
    decreases events.len(),
{
    if events.len() > 0 {
        let step = open_transition(cfg, state, events[0]);
        if step is Some {
            let s2 = step.unwrap().0;
            let a = step.unwrap().1;
            assert(open_tracks_path(lp, s2));
            lemma_open_cleanup_pairs(cfg, lp, s2, events.drop_first());
            let acts = open_run(cfg, state, events);
            let rest = open_run(cfg, s2, events.drop_first());
            assert(acts == seq![a] + rest);
            assert forall|i: int|
                0 <= i < acts.len() && (#[trigger] acts[i]) is Fail && (acts[i]->error is S3
                    || acts[i]->error is ByteStream) implies ((i == 0 && state is CleaningUp) || (i
                > 0 && acts[i - 1] is Delete && acts[i - 1]->Delete_path@ == lp)) by {
                if i == 0 {
                    assert(acts[0] == a);
                } else {
                    assert(acts[i] == rest[i - 1]);
                    if i == 1 {
                        // rest's first action is a Fail held by a CleaningUp
                        // state, which this step can only have entered by
                        // deleting the tracked path.
                        assert(s2 is CleaningUp);
                        assert(a is Delete && a->Delete_path@ == lp);
                        assert(acts[0] == a);
                    } else {
                        assert(acts[i - 1] == rest[i - 2]);
                    }
                }
            }
            assert forall|i: int|
                0 <= i < acts.len() && (#[trigger] acts[i]) is Delete implies acts[i]->Delete_path@
                == lp by {
                if i > 0 {
                    assert(acts[i] == rest[i - 1]);
                }
            }
        }
    }
}

/// Failure cleanup for `open`: whenever a run started for `key` reports a
/// remote-fetch or body-transfer failure, the action immediately before
/// the report deleted the key's mirror file — the mirror is never left
/// holding a partial object after such a failure. Moreover the mirror
/// path is the only path a run ever deletes.
pub proof fn lemma_open_failure_cleanup(
    cfg: OpenOptions,
    key: Seq<char>,
    start: (OpenState, OpenAction),
    events: Seq<OpenEvent>,
)
    requires
        open_start_ok(cfg, key, start),
    ensures
        ({
            let acts = open_run(cfg, start.0, events);
            let lp = local_path_spec(cfg.mount_path@, cfg.bucket@, key);
            &&& forall|i: int|
                0 <= i < acts.len() && (#[trigger] acts[i]) is Fail && (acts[i]->error is S3
                    || acts[i]->error is ByteStream) ==> (i > 0 && acts[i - 1] is Delete && acts[i
                    - 1]->Delete_path@ == lp)
            &&& forall|i: int|
                0 <= i < acts.len() && (#[trigger] acts[i]) is Delete ==> acts[i]->Delete_path@
                    == lp
        }),
{
    let lp = local_path_spec(cfg.mount_path@, cfg.bucket@, key);
    lemma_open_cleanup_pairs(cfg, lp, start.0, events);
}

/// Whether every mirror-path field the write machine still carries equals
/// `lp`.
pub open spec fn write_tracks_path(lp: Seq<char>, state: WriteState) -> bool {
    match state {
        WriteState::CreatingDirs { local, remote } => local@ == lp,
        WriteState::CreatingFile { local, remote } => local@ == lp,
        WriteState::Writing { local, remote } => local@ == lp,
        WriteState::BuildingBody { local, remote } => local@ == lp,
        WriteState::Uploading { local } => local@ == lp,
        _ => true,
    }
}

proof fn lemma_write_cleanup_pairs(
    cfg: OpenOptions,
    lp: Seq<char>,
    state: WriteState,
    events: Seq<WriteEvent>,
)
    requires
        write_tracks_path(lp, state),
    ensures
        ({
            let acts = write_run(cfg, state, events);
            &&& forall|i: int|
                0 <= i < acts.len() && (#[trigger] acts[i]) is Fail && acts[i]->error is S3 ==> ((
                i == 0 && state is CleaningUp) || (i > 0 && acts[i - 1] is Delete && acts[i
                    - 1]->Delete_path@ == lp))
            &&& forall|i: int|
                0 <= i < acts.len() && (#[trigger] acts[i]) is Delete ==> acts[i]->Delete_path@
                    == lp
        }),
    decreases events.len(),
{
    if events.len() > 0 {
        let step = write_transition(cfg, state, events[0]);
        if step is Some {
            let s2 = step.unwrap().0;
            let a = step.unwrap().1;
            assert(write_tracks_path(lp, s2));
            lemma_write_cleanup_pairs(cfg, lp, s2, events.drop_first());
            let acts = write_run(cfg, state, events);
            let rest = write_run(cfg, s2, events.drop_first());
            assert(acts == seq![a] + rest);
            assert forall|i: int|
                0 <= i < acts.len() && (#[trigger] acts[i]) is Fail && acts[i]->error is S3
                    implies ((i == 0 && state is CleaningUp) || (i > 0 && acts[i - 1] is Delete
                && acts[i - 1]->Delete_path@ == lp)) by {
                if i == 0 {
                    assert(acts[0] == a);
                } else {
                    assert(acts[i] == rest[i - 1]);
                    if i == 1 {
                        assert(s2 is CleaningUp);
                        assert(a is Delete && a->Delete_path@ == lp);
                        assert(acts[0] == a);
                    } else {
                        assert(acts[i - 1] == rest[i - 2]);
                    }
                }
            }
            assert forall|i: int|
                0 <= i < acts.len() && (#[trigger] acts[i]) is Delete implies acts[i]->Delete_path@
                == lp by {
                if i > 0 {
                    assert(acts[i] == rest[i - 1]);
                }
            }
        }
    }
}

/// Failure cleanup for `write`: whenever a run started for `key` reports a
/// remote-upload failure, the action immediately before the report deleted
/// the key's mirror file — a failed upload never leaves a local file
/// pretending to be the synced copy. Moreover the mirror path is the only
/// path a run ever deletes.
pub proof fn lemma_write_failure_cleanup(
    cfg: OpenOptions,
    key: Seq<char>,
    start: (WriteState, WriteAction),
    events: Seq<WriteEvent>,
)
    requires
        write_start_ok(cfg, key, start),
    ensures
        ({
            let acts = write_run(cfg, start.0, events);
            let lp = local_path_spec(cfg.mount_path@, cfg.bucket@, key);
            &&& forall|i: int|
                0 <= i < acts.len() && (#[trigger] acts[i]) is Fail && acts[i]->error is S3 ==> (i
                    > 0 && acts[i - 1] is Delete && acts[i - 1]->Delete_path@ == lp)
            &&& forall|i: int|
                0 <= i < acts.len() && (#[trigger] acts[i]) is Delete ==> acts[i]->Delete_path@
                    == lp
        }),
{
    let lp = local_path_spec(cfg.mount_path@, cfg.bucket@, key);
    lemma_write_cleanup_pairs(cfg, lp, start.0, events);
}

proof fn lemma_no_upload_after(cfg: OpenOptions, state: WriteState, events: Seq<WriteEvent>)
    requires
        state is Uploading || state is CleaningUp || state is Done || state is Failed,
    ensures
        forall|i: int|
            0 <= i < write_run(cfg, state, events).len() ==> !((#[trigger] write_run(
                cfg,
                state,
                events,
            )[i]) is Upload),
    decreases events.len(),
{
    if events.len() > 0 {
        let step = write_transition(cfg, state, events[0]);
        if step is Some {
            let s2 = step.unwrap().0;
            let a = step.unwrap().1;
            assert(!(a is Upload));
            lemma_no_upload_after(cfg, s2, events.drop_first());
            let acts = write_run(cfg, state, events);
            let rest = write_run(cfg, s2, events.drop_first());
            assert(acts == seq![a] + rest);
            assert forall|i: int| 0 <= i < acts.len() implies !((#[trigger] acts[i]) is Upload)
                by {
                if i > 0 {
                    assert(acts[i] == rest[i - 1]);
                }
            }
        }
    }
}

/// A write run uploads at most once: no run of the write machine, from any
/// state and under any events, contains two `Upload` actions.
pub proof fn lemma_write_at_most_one_upload(
    cfg: OpenOptions,
    state: WriteState,
    events: Seq<WriteEvent>,
)
    ensures
        forall|i: int, j: int|
            0 <= i < j < write_run(cfg, state, events).len() ==> !((#[trigger] write_run(
                cfg,
                state,
                events,
            )[i]) is Upload && (#[trigger] write_run(cfg, state, events)[j]) is Upload),
    decreases events.len(),
{
    if events.len() > 0 {
        let step = write_transition(cfg, state, events[0]);
        if step is Some {
            let s2 = step.unwrap().0;
            let a = step.unwrap().1;
            lemma_write_at_most_one_upload(cfg, s2, events.drop_first());
            let acts = write_run(cfg, state, events);
            let rest = write_run(cfg, s2, events.drop_first());
            assert(acts == seq![a] + rest);
            assert forall|i: int, j: int|
                0 <= i < j < acts.len() implies !((#[trigger] acts[i]) is Upload && (
            #[trigger] acts[j]) is Upload) by {
                assert(acts[j] == rest[j - 1]);
                if i == 0 {
                    if a is Upload {
                        // An upload is issued only on the way into the
                        // Uploading state, past which no further upload
                        // exists in any run.
                        assert(s2 is Uploading);
                        lemma_no_upload_after(cfg, s2, events.drop_first());
                    }
                } else {
                    assert(acts[i] == rest[i - 1]);
                }
            }
        }
    }
}

/// The events of a write run in which every step succeeds: directory
/// creation, file open, buffer write, body construction and upload.
pub open spec fn write_success_events() -> Seq<WriteEvent> {
    seq![
        WriteEvent::IoDone { result: Ok(()) },
        WriteEvent::IoDone { result: Ok(()) },
        WriteEvent::IoDone { result: Ok(()) },
        WriteEvent::BodyDone { result: Ok(()) },
        WriteEvent::UploadDone { result: Ok(()) },
    ]
}

/// The successful write run, step by step: after the parent directories of
/// the mirror path exist, the run opens the mirror file, writes the whole
/// buffer to it, builds the upload body from that file — so the bytes
/// shipped are the bytes on disk — uploads it once under the normalized
/// key, and only then returns the handle. In particular exactly one action
/// of the run is an `Upload`.
pub proof fn lemma_write_success_run(
    cfg: OpenOptions,
    key: Seq<char>,
    start: (WriteState, WriteAction),
)
    requires
        write_start_ok(cfg, key, start),
    ensures
        ({
            let acts = write_run(cfg, start.0, write_success_events());
            start.0 matches WriteState::CreatingDirs { local, remote } && acts == seq![
                WriteAction::OpenRw { path: local },
                WriteAction::WriteAll,
                WriteAction::MakeBodyFromFile { path: local },
                WriteAction::Upload { bucket: cfg.bucket, key: remote },
                WriteAction::Finish,
            ]
        }),
{
    match start.0 {
        WriteState::CreatingDirs { local, remote } => {
            let e = write_success_events();
            let e1 = e.drop_first();
            let e2 = e1.drop_first();
            let e3 = e2.drop_first();
            let e4 = e3.drop_first();
            let e5 = e4.drop_first();
            assert(e1 =~= seq![
                WriteEvent::IoDone { result: Ok(()) },
                WriteEvent::IoDone { result: Ok(()) },
                WriteEvent::BodyDone { result: Ok(()) },
                WriteEvent::UploadDone { result: Ok(()) },
            ]);
            assert(e2 =~= seq![
                WriteEvent::IoDone { result: Ok(()) },
                WriteEvent::BodyDone { result: Ok(()) },
                WriteEvent::UploadDone { result: Ok(()) },
            ]);
            assert(e3 =~= seq![
                WriteEvent::BodyDone { result: Ok(()) },
                WriteEvent::UploadDone { result: Ok(()) },
            ]);
            assert(e4 =~= seq![WriteEvent::UploadDone { result: Ok(()) }]);
            assert(e5 =~= Seq::<WriteEvent>::empty());
            let s1 = WriteState::CreatingFile { local: local, remote: remote };
            let s2 = WriteState::Writing { local: local, remote: remote };
            let s3 = WriteState::BuildingBody { local: local, remote: remote };
            let s4 = WriteState::Uploading { local: local };
            assert(write_run(cfg, s4, e4) == seq![WriteAction::Finish] + write_run(
                cfg,
                WriteState::Done,
                e5,
            ));
            assert(write_run(cfg, s3, e3) == seq![
                WriteAction::Upload { bucket: cfg.bucket, key: remote },
            ] + write_run(cfg, s4, e4));
            assert(write_run(cfg, s2, e2) == seq![
                WriteAction::MakeBodyFromFile { path: local },
            ] + write_run(cfg, s3, e3));
            assert(write_run(cfg, s1, e1) == seq![WriteAction::WriteAll] + write_run(cfg, s2, e2));
            assert(write_run(cfg, start.0, e) == seq![WriteAction::OpenRw { path: local }]
                + write_run(cfg, s1, e1));
            assert(write_run(cfg, start.0, e) =~= seq![
                WriteAction::OpenRw { path: local },
                WriteAction::WriteAll,
                WriteAction::MakeBodyFromFile { path: local },
                WriteAction::Upload { bucket: cfg.bucket, key: remote },
                WriteAction::Finish,
            ]);
        },
        _ => {},
    }
}

/// The events of an open run for a key absent locally in which every step
/// succeeds and the fetched body arrives in `chunks` chunks.
pub open spec fn open_miss_success_events(chunks: nat) -> Seq<OpenEvent> {
    seq![
        OpenEvent::StatDone { exists: false },
        OpenEvent::IoDone { result: Ok(()) },
        OpenEvent::IoDone { result: Ok(()) },
        OpenEvent::FetchDone { result: Ok(()) },
    ] + Seq::new(chunks, |i: int| OpenEvent::ChunkDone { chunk: OpenChunk::Wrote }) + seq![
        OpenEvent::ChunkDone { chunk: OpenChunk::End },
        OpenEvent::IoDone { result: Ok(()) },
    ]
}

proof fn lemma_streaming_run(cfg: OpenOptions, local: String, chunks: nat)
    ensures
        open_run(
            cfg,
            OpenState::Streaming { local },
            Seq::new(chunks, |i: int| OpenEvent::ChunkDone { chunk: OpenChunk::Wrote }) + seq![
                OpenEvent::ChunkDone { chunk: OpenChunk::End },
                OpenEvent::IoDone { result: Ok(()) },
            ],
        ) == Seq::new(chunks, |i: int| OpenAction::ReadChunkAndAppend) + seq![
            OpenAction::SeekStart,
            OpenAction::Finish,
        ],
    decreases chunks,
{
    let tailseq = seq![
        OpenEvent::ChunkDone { chunk: OpenChunk::End },
        OpenEvent::IoDone { result: Ok(()) },
    ];
    let e = Seq::new(chunks, |i: int| OpenEvent::ChunkDone { chunk: OpenChunk::Wrote }) + tailseq;
    if chunks == 0 {
        assert(e =~= tailseq);
        assert(e[0] == (OpenEvent::ChunkDone { chunk: OpenChunk::End }));
        let e1 = e.drop_first();
        assert(e1 =~= seq![OpenEvent::IoDone { result: Ok(()) }]);
        assert(open_run(cfg, OpenState::SeekingStart, e1) == seq![OpenAction::Finish] + open_run(
            cfg,
            OpenState::Done,
            e1.drop_first(),
        ));
        assert(open_run(cfg, OpenState::Streaming { local }, e) == seq![OpenAction::SeekStart]
            + open_run(cfg, OpenState::SeekingStart, e1));
        assert(open_run(cfg, OpenState::Streaming { local }, e) =~= Seq::new(
            0nat,
            |i: int| OpenAction::ReadChunkAndAppend,
        ) + seq![OpenAction::SeekStart, OpenAction::Finish]);
    } else {
        assert(e[0] == (OpenEvent::ChunkDone { chunk: OpenChunk::Wrote }));
        let e1 = e.drop_first();
        assert(e1 =~= Seq::new(
            (chunks - 1) as nat,
            |i: int| OpenEvent::ChunkDone { chunk: OpenChunk::Wrote },
        ) + tailseq);
        lemma_streaming_run(cfg, local, (chunks - 1) as nat);
        assert(open_run(cfg, OpenState::Streaming { local }, e) == seq![
            OpenAction::ReadChunkAndAppend,
        ] + open_run(cfg, OpenState::Streaming { local }, e1));
        assert(open_run(cfg, OpenState::Streaming { local }, e) =~= Seq::new(
            chunks,
            |i: int| OpenAction::ReadChunkAndAppend,
        ) + seq![OpenAction::SeekStart, OpenAction::Finish]);
    }
}

/// The successful cache-miss run, step by step: for a key reported absent
/// (or under forced refresh), the run creates the mirror's parent
/// directories, creates the mirror file, fetches the normalized key from
/// the configured bucket, appends each arriving chunk of the body in
/// order, repositions the cursor to the file's start, and only then
/// returns the handle.
pub proof fn lemma_cache_miss_run(
    cfg: OpenOptions,
    key: Seq<char>,
    start: (OpenState, OpenAction),
    chunks: nat,
)
    requires
        open_start_ok(cfg, key, start),
    ensures
        ({
            let acts = open_run(cfg, start.0, open_miss_success_events(chunks));
            start.0 matches OpenState::StatLocal { local, remote, parent } && acts == seq![
                OpenAction::CreateDirAll { path: parent },
                OpenAction::OpenRw { path: local },
                OpenAction::Fetch { bucket: cfg.bucket, key: remote },
            ] + Seq::new((chunks + 1) as nat, |i: int| OpenAction::ReadChunkAndAppend) + seq![
                OpenAction::SeekStart,
                OpenAction::Finish,
            ]
        }),
{
    match start.0 {
        OpenState::StatLocal { local, remote, parent } => {
            let e = open_miss_success_events(chunks);
            let streamseq = Seq::new(
                chunks,
                |i: int| OpenEvent::ChunkDone { chunk: OpenChunk::Wrote },
            ) + seq![
                OpenEvent::ChunkDone { chunk: OpenChunk::End },
                OpenEvent::IoDone { result: Ok(()) },
            ];
            let e1 = e.drop_first();
            let e2 = e1.drop_first();
            let e3 = e2.drop_first();
            let e4 = e3.drop_first();
            assert(e1 =~= seq![
                OpenEvent::IoDone { result: Ok(()) },
                OpenEvent::IoDone { result: Ok(()) },
                OpenEvent::FetchDone { result: Ok(()) },
            ] + streamseq);
            assert(e2 =~= seq![
                OpenEvent::IoDone { result: Ok(()) },
                OpenEvent::FetchDone { result: Ok(()) },
            ] + streamseq);
            assert(e3 =~= seq![OpenEvent::FetchDone { result: Ok(()) }] + streamseq);
            assert(e4 =~= streamseq);
            assert(e[0] == (OpenEvent::StatDone { exists: false }));
            assert(e1[0] == (OpenEvent::IoDone { result: Ok::<(), String>(()) }));
            assert(e2[0] == (OpenEvent::IoDone { result: Ok::<(), String>(()) }));
            assert(e3[0] == (OpenEvent::FetchDone { result: Ok::<(), String>(()) }));
            let s1 = OpenState::CreatingDirs { local: local, remote: remote };
            let s2 = OpenState::CreatingFile { local: local, remote: remote };
            let s3 = OpenState::Fetching { local: local };
            let s4 = OpenState::Streaming { local: local };
            lemma_streaming_run(cfg, local, chunks);
            assert(open_run(cfg, s3, e3) == seq![OpenAction::ReadChunkAndAppend] + open_run(
                cfg,
                s4,
                e4,
            ));
            assert(open_run(cfg, s2, e2) == seq![
                OpenAction::Fetch { bucket: cfg.bucket, key: remote },
            ] + open_run(cfg, s3, e3));
            assert(open_run(cfg, s1, e1) == seq![OpenAction::OpenRw { path: local }] + open_run(
                cfg,
                s2,
                e2,
            ));
            assert(open_run(cfg, start.0, e) == seq![OpenAction::CreateDirAll { path: parent }]
                + open_run(cfg, s1, e1));
            assert(open_run(cfg, start.0, e) =~= seq![
                OpenAction::CreateDirAll { path: parent },
                OpenAction::OpenRw { path: local },
                OpenAction::Fetch { bucket: cfg.bucket, key: remote },
            ] + Seq::new((chunks + 1) as nat, |i: int| OpenAction::ReadChunkAndAppend) + seq![
                OpenAction::SeekStart,
                OpenAction::Finish,
            ]);
        },
        _ => {},
    }
}

proof fn lemma_finish_pairs(cfg: OpenOptions, state: OpenState, events: Seq<OpenEvent>)
    requires
        !(state is StatLocal),
        !(state is OpeningCached),
    ensures
        ({
            let acts = open_run(cfg, state, events);
            forall|i: int|
                0 <= i < acts.len() && (#[trigger] acts[i]) is Finish ==> ((i == 0 && state
                    is SeekingStart) || (i > 0 && acts[i - 1] is SeekStart))
        }),
    decreases events.len(),
{
    if events.len() > 0 {
        let step = open_transition(cfg, state, events[0]);
        if step is Some {
            let s2 = step.unwrap().0;
            let a = step.unwrap().1;
            assert(!(s2 is StatLocal));
            assert(!(s2 is OpeningCached));
            lemma_finish_pairs(cfg, s2, events.drop_first());
            let acts = open_run(cfg, state, events);
            let rest = open_run(cfg, s2, events.drop_first());
            assert(acts == seq![a] + rest);
            assert forall|i: int|
                0 <= i < acts.len() && (#[trigger] acts[i]) is Finish implies ((i == 0 && state
                is SeekingStart) || (i > 0 && acts[i - 1] is SeekStart)) by {
                if i == 0 {
                    assert(acts[0] == a);
                } else {
                    assert(acts[i] == rest[i - 1]);
                    if i == 1 {
                        // rest's first action is a Finish, so this step
                        // entered SeekingStart, which only a successful
                        // SeekStart does.
                        assert(s2 is SeekingStart);
                        assert(a is SeekStart);
                        assert(acts[0] == a);
                    } else {
                        assert(acts[i - 1] == rest[i - 2]);
                    }
                }
            }
        }
    }
}

/// Cache-miss cursor reset: in any open run that did not take the
/// cache-hit path — the existence check reported the mirror file absent,
/// or freshness is "always refresh" — the handle is returned (`Finish`)
/// only immediately after the cursor was repositioned to the file's start
/// (a successful `SeekStart`), so the caller always reads from byte 0.
pub proof fn lemma_miss_finish_only_after_seek(
    cfg: OpenOptions,
    key: Seq<char>,
    start: (OpenState, OpenAction),
    events: Seq<OpenEvent>,
)
    requires
        open_start_ok(cfg, key, start),
        events.len() >= 1,
        events[0] is StatDone,
        events[0]->exists ==> cfg.force_download,
    ensures
        ({
            let acts = open_run(cfg, start.0, events);
            forall|i: int|
                0 <= i < acts.len() && (#[trigger] acts[i]) is Finish ==> (i > 0 && acts[i - 1]
                    is SeekStart)
        }),
{
    match start.0 {
        OpenState::StatLocal { local, remote, parent } => {
            let step = open_transition(cfg, start.0, events[0]);
            let s2 = step.unwrap().0;
            let a = step.unwrap().1;
            assert(s2 is CreatingDirs && a is CreateDirAll);
            lemma_finish_pairs(cfg, s2, events.drop_first());
            let acts = open_run(cfg, start.0, events);
            let rest = open_run(cfg, s2, events.drop_first());
            assert(acts == seq![a] + rest);
            assert forall|i: int|
                0 <= i < acts.len() && (#[trigger] acts[i]) is Finish implies (i > 0 && acts[i
                - 1] is SeekStart) by {
                assert(acts[i] == rest[i - 1]);
                if i == 1 {
                    assert(s2 is SeekingStart || rest[0] !is Finish);
                } else {
                    assert(acts[i - 1] == rest[i - 2]);
                }
            }
        },
        _ => {},
    }
}

/// Write-through round trip: a write of `key` followed by an open of the
/// same `key` under the same configuration with freshness "trust local"
/// resolves both runs to one and the same mirror path; the successful
/// write uploads exactly once; and the open run performs no remote call at
/// all — its one I/O action re-opens, read-only, exactly the file the
/// write produced. (No action of the open machine uploads anything, so no
/// later open adds a second upload.)
pub proof fn lemma_write_then_open_round_trip(
    cfg: OpenOptions,
    key: Seq<char>,
    wstart: (WriteState, WriteAction),
    ostart: (OpenState, OpenAction),
    events: Seq<OpenEvent>,
)
    requires
        cfg.force_download == false,
        write_start_ok(cfg, key, wstart),
        open_start_ok(cfg, key, ostart),
        events.len() >= 1,
        events[0] == (OpenEvent::StatDone { exists: true }),
    ensures
        wstart.0->CreatingDirs_local@ == ostart.0->StatLocal_local@,
        ({
            let wacts = write_run(cfg, wstart.0, write_success_events());
            &&& wacts.len() == 5
            &&& wacts[3] is Upload
            &&& forall|i: int|
                0 <= i < wacts.len() && i != 3 ==> !((#[trigger] wacts[i]) is Upload)
        }),
        ({
            let oacts = open_run(cfg, ostart.0, events);
            let lp = local_path_spec(cfg.mount_path@, cfg.bucket@, key);
            &&& oacts.len() >= 1
            &&& oacts[0] matches OpenAction::OpenRead { path } && path@
                == wstart.0->CreatingDirs_local@
            &&& forall|i: int| 0 <= i < oacts.len() ==> !((#[trigger] oacts[i]) is Fetch)
        }),
{
    lemma_write_success_run(cfg, key, wstart);
    lemma_cache_hit_purity(cfg, key, ostart, events);
}

} // verus!

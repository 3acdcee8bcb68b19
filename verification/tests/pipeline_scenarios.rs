use ingest_core::metadata::{UploadItemInput, UploadItemMetadata};
use ingest_core::pipeline::{Action, UploadPipeline};
use ingest_core::status::UploadStatus;
use ingest_core::error::{TranscodingError, UploadError};

fn meta(title: &str, artist: &str, album: &str, year: i32) -> UploadItemMetadata {
    UploadItemMetadata {
        title: Some(title.to_string()),
        artist: Some(artist.to_string()),
        album: Some(album.to_string()),
        track_number: Some(1),
        duration_sec: Some(180),
        genre: Some("Rock".to_string()),
        composer: None,
        year: Some(year),
        comments: None,
    }
}

fn input(path: &str, m: UploadItemMetadata) -> UploadItemInput {
    UploadItemInput { id: "client-1".to_string(), path: path.to_string(), metadata: m }
}

fn statuses_for(p: &UploadPipeline, id: u64) -> Vec<UploadStatus> {
    p.progress_events()
        .iter()
        .filter(|e| e.item_id == id)
        .map(|e| e.status.clone())
        .collect()
}

fn is_forward(a: &Action) -> bool {
    matches!(
        a,
        Action::Transcode { .. }
            | Action::PutBlob { .. }
            | Action::FindAlbum { .. }
            | Action::InsertAlbum { .. }
            | Action::InsertTrack { .. }
    )
}

#[test]
fn s1_happy_path() {
    let mut p = UploadPipeline::new(true, true);
    let m = meta("Track A", "X", "Alb", 2020);
    p.start_upload_queue(vec![input("/tmp/in/Track A.wav", m)], vec![true]).unwrap();

    let a = p.resume();
    match a {
        Action::Transcode { input_path } => assert_eq!(input_path, "/tmp/in/Track A.wav"),
        other => panic!("expected transcode, got {:?}", other),
    }

    let a = p.on_transcode_result(Ok("/tmp/tx/part1.m4a".to_string()));
    match a {
        Action::PutBlob { key, source_path, mime_type } => {
            assert_eq!(key, "tracks/original/Track_A.wav");
            assert_eq!(source_path, "/tmp/in/Track A.wav");
            assert_eq!(mime_type, "audio/wav");
        },
        other => panic!("expected put of original, got {:?}", other),
    }

    let a = p.on_put_result(Ok(()));
    match a {
        Action::PutBlob { key, source_path, mime_type } => {
            assert_eq!(key, "tracks/aac/part1.m4a");
            assert_eq!(source_path, "/tmp/tx/part1.m4a");
            assert_eq!(mime_type, "audio/m4a");
        },
        other => panic!("expected put of compressed, got {:?}", other),
    }

    let a = p.on_put_result(Ok(()));
    match a {
        Action::FindAlbum { name, artist } => {
            assert_eq!(name, "Alb");
            assert_eq!(artist, "X");
        },
        other => panic!("expected album lookup, got {:?}", other),
    }

    let a = p.on_find_album_result(Ok(None));
    match a {
        Action::InsertAlbum { album } => {
            assert_eq!(album.name, "Alb");
            assert_eq!(album.artist, "X");
            assert_eq!(album.year, Some(2020));
            assert_eq!(album.genres, vec!["Rock".to_string()]);
            assert_eq!(album.art_path, None);
        },
        other => panic!("expected album insert, got {:?}", other),
    }

    let a = p.on_insert_album_result(Ok("album-1".to_string()));
    match a {
        Action::InsertTrack { track } => {
            assert_eq!(track.title, "Track A");
            assert_eq!(track.filename, "Track A.wav");
            assert_eq!(track.album_id, "album-1");
            assert_eq!(track.artists, vec!["X".to_string()]);
            assert_eq!(track.original_path, "/tmp/in/Track A.wav");
            assert_eq!(track.mime_type, "audio/wav");
            assert_eq!(track.extension, "wav");
            assert_eq!(track.duration_sec, Some(180));
            assert_eq!(track.track_number, Some(1));
            assert_eq!(track.r2_original_key, "tracks/original/Track_A.wav");
            assert_eq!(track.r2_aac_key, Some("tracks/aac/part1.m4a".to_string()));
        },
        other => panic!("expected track insert, got {:?}", other),
    }

    let a = p.on_insert_track_result(Ok("track-1".to_string()));
    match a {
        Action::DeleteTempFile { path } => assert_eq!(path, "/tmp/tx/part1.m4a"),
        other => panic!("expected temp file cleanup, got {:?}", other),
    }

    let a = p.on_delete_result(Ok(()));
    assert!(matches!(a, Action::ItemDone));
    let a = p.resume();
    assert!(matches!(a, Action::BatchDone));

    assert_eq!(
        statuses_for(&p, 0),
        vec![
            UploadStatus::Pending,
            UploadStatus::Transcoding,
            UploadStatus::UploadingOriginal,
            UploadStatus::UploadingAAC,
            UploadStatus::StoringMetadata,
            UploadStatus::Complete,
        ]
    );
    let last = p.query_progress(0).unwrap();
    assert_eq!(last.status, UploadStatus::Complete);
    assert_eq!(last.error_message, None);
    assert_eq!(last.title, Some("Track A".to_string()));
    assert_eq!(last.album, Some("Alb".to_string()));
}

#[test]
fn s2_transcode_failure() {
    let mut p = UploadPipeline::new(true, true);
    let m = meta("Track A", "X", "Alb", 2020);
    p.start_upload_queue(vec![input("/tmp/in/Track A.wav", m)], vec![true]).unwrap();
    let a = p.resume();
    assert!(matches!(a, Action::Transcode { .. }));

    let a = p.on_transcode_result(Err(TranscodingError::ProcessExecutionFailed {
        status: Some(1),
        stderr: "bad input".to_string(),
    }));
    assert!(matches!(a, Action::ItemDone));
    let a = p.resume();
    assert!(matches!(a, Action::BatchDone));

    let st = statuses_for(&p, 0);
    assert_eq!(st.len(), 3);
    assert_eq!(
        st[2],
        UploadStatus::Error("Transcoding failed: ExecFailed(Some(1), \"bad input\")".to_string())
    );
    let last = p.query_progress(0).unwrap();
    assert_eq!(
        last.error_message,
        Some("ExecFailed(Some(1), \"bad input\")".to_string())
    );
}

#[test]
fn s3_mid_pipeline_cancel() {
    let mut p = UploadPipeline::new(true, true);
    let items = vec![
        input("/tmp/in/a.wav", meta("A", "X", "Alb", 2020)),
        input("/tmp/in/b.wav", meta("B", "X", "Alb", 2020)),
        input("/tmp/in/c.wav", meta("C", "X", "Alb", 2020)),
    ];
    p.start_upload_queue(items, vec![true, true, true]).unwrap();

    let a = p.resume();
    assert!(matches!(a, Action::Transcode { .. }));
    let a = p.on_transcode_result(Ok("/tmp/tx/a.m4a".to_string()));
    assert!(matches!(a, Action::PutBlob { .. }));

    // The put of the original is in flight; the user cancels now.
    p.cancel_upload_queue();
    let mut batch_done = 0;
    let mut a = p.on_put_result(Ok(()));
    // Item 0 committed its temp file and its original blob; both must be
    // deleted, and from here on no new forward call may start.
    match &a {
        Action::DeleteBlob { key } => assert_eq!(key, "tracks/original/a.wav"),
        other => panic!("expected original blob cleanup, got {:?}", other),
    }
    loop {
        assert!(!is_forward(&a));
        a = match a {
            Action::DeleteBlob { .. } | Action::DeleteTempFile { .. } | Action::DeleteTrackDoc { .. } => {
                p.on_delete_result(Ok(()))
            },
            Action::ItemDone => p.resume(),
            Action::BatchDone => {
                batch_done += 1;
                break;
            },
            other => panic!("unexpected action {:?}", other),
        };
    }
    assert_eq!(batch_done, 1);

    assert_eq!(
        statuses_for(&p, 0),
        vec![
            UploadStatus::Pending,
            UploadStatus::Transcoding,
            UploadStatus::UploadingOriginal,
            UploadStatus::Cancelled,
        ]
    );
    assert_eq!(statuses_for(&p, 1), vec![UploadStatus::Pending, UploadStatus::Cancelled]);
    assert_eq!(statuses_for(&p, 2), vec![UploadStatus::Pending, UploadStatus::Cancelled]);
    for id in 0..3 {
        assert!(p.query_progress(id).unwrap().status.is_terminal());
    }
}

#[test]
fn s4_doc_insert_failure() {
    let mut p = UploadPipeline::new(true, true);
    p.start_upload_queue(
        vec![input("/tmp/in/a.wav", meta("A", "X", "Alb", 2020))],
        vec![true],
    )
    .unwrap();
    p.resume();
    p.on_transcode_result(Ok("/tmp/tx/a.m4a".to_string()));
    p.on_put_result(Ok(()));
    p.on_put_result(Ok(()));
    let a = p.on_find_album_result(Ok(Some("album-9".to_string())));
    assert!(matches!(a, Action::InsertTrack { .. }));

    let a = p.on_insert_track_result(Err("write refused".to_string()));
    // Compensating cleanup: no track document was inserted, so the
    // compressed blob goes first, then the original, then the temp file.
    match a {
        Action::DeleteBlob { key } => assert_eq!(key, "tracks/aac/a.m4a"),
        other => panic!("expected compressed blob cleanup, got {:?}", other),
    }
    let a = p.on_delete_result(Ok(()));
    match a {
        Action::DeleteBlob { key } => assert_eq!(key, "tracks/original/a.wav"),
        other => panic!("expected original blob cleanup, got {:?}", other),
    }
    let a = p.on_delete_result(Ok(()));
    match a {
        Action::DeleteTempFile { path } => assert_eq!(path, "/tmp/tx/a.m4a"),
        other => panic!("expected temp file cleanup, got {:?}", other),
    }
    let a = p.on_delete_result(Ok(()));
    assert!(matches!(a, Action::ItemDone));
    let a = p.resume();
    assert!(matches!(a, Action::BatchDone));

    let last = p.query_progress(0).unwrap();
    assert_eq!(
        last.status,
        UploadStatus::Error(
            "Metadata storage failed: MongoDB operation failed: Track insert failed: write refused"
                .to_string()
        )
    );
}

#[test]
fn s5_duplicate_album() {
    let mut p = UploadPipeline::new(true, true);
    let items = vec![
        input("/tmp/in/a.wav", meta("A", "X", "Alb", 2020)),
        input("/tmp/in/b.wav", meta("B", "X", "Alb", 2020)),
    ];
    p.start_upload_queue(items, vec![true, true]).unwrap();

    // First item creates the album.
    p.resume();
    p.on_transcode_result(Ok("/tmp/tx/a.m4a".to_string()));
    p.on_put_result(Ok(()));
    p.on_put_result(Ok(()));
    let a = p.on_find_album_result(Ok(None));
    assert!(matches!(a, Action::InsertAlbum { .. }));
    let a = p.on_insert_album_result(Ok("album-1".to_string()));
    let track_album_1 = match a {
        Action::InsertTrack { track } => track.album_id.clone(),
        other => panic!("expected track insert, got {:?}", other),
    };
    p.on_insert_track_result(Ok("track-1".to_string()));
    p.on_delete_result(Ok(()));

    // Second item finds it.
    p.resume();
    p.on_transcode_result(Ok("/tmp/tx/b.m4a".to_string()));
    p.on_put_result(Ok(()));
    p.on_put_result(Ok(()));
    let a = p.on_find_album_result(Ok(Some("album-1".to_string())));
    let track_album_2 = match a {
        Action::InsertTrack { track } => track.album_id.clone(),
        other => panic!("expected track insert, got {:?}", other),
    };
    p.on_insert_track_result(Ok("track-2".to_string()));
    p.on_delete_result(Ok(()));
    let a = p.resume();
    assert!(matches!(a, Action::BatchDone));

    assert_eq!(track_album_1, "album-1");
    assert_eq!(track_album_2, "album-1");
    assert_eq!(p.query_progress(0).unwrap().status, UploadStatus::Complete);
    assert_eq!(p.query_progress(1).unwrap().status, UploadStatus::Complete);
}

#[test]
fn s6_missing_input_file() {
    let mut p = UploadPipeline::new(true, true);
    p.start_upload_queue(
        vec![input("/tmp/in/missing.wav", meta("A", "X", "Alb", 2020))],
        vec![false],
    )
    .unwrap();
    // The item terminated at admission; the drain finds an empty queue.
    let a = p.resume();
    assert!(matches!(a, Action::BatchDone));

    let st = statuses_for(&p, 0);
    assert_eq!(st, vec![UploadStatus::Error("File not found".to_string())]);
    let last = p.query_progress(0).unwrap();
    assert_eq!(last.error_message, Some("Input file does not exist.".to_string()));
}

#[test]
fn admission_rejections() {
    let mut p = UploadPipeline::new(false, true);
    let e = p
        .start_upload_queue(vec![input("/tmp/a.wav", meta("A", "X", "Alb", 2020))], vec![true])
        .unwrap_err();
    assert!(matches!(e, UploadError::R2ClientNotInitialized));
    assert_eq!(e.message(), "R2 client not initialized. Configure credentials.");

    let mut p = UploadPipeline::new(true, false);
    let e = p
        .start_upload_queue(vec![input("/tmp/a.wav", meta("A", "X", "Alb", 2020))], vec![true])
        .unwrap_err();
    assert!(matches!(e, UploadError::MongoDbClientNotInitialized));
    assert_eq!(e.message(), "MongoDB client not initialized. Configure credentials.");

    let mut p = UploadPipeline::new(true, true);
    let e = p.start_upload_queue(vec![], vec![]).unwrap_err();
    match &e {
        UploadError::InvalidInput(m) => assert_eq!(m, "No items provided for upload."),
        other => panic!("expected invalid input, got {:?}", other),
    }
    assert_eq!(e.message(), "Invalid input: No items provided for upload.");
}

#[test]
fn upload_failure_messages() {
    let mut p = UploadPipeline::new(true, true);
    p.start_upload_queue(
        vec![input("/tmp/in/a.wav", meta("A", "X", "Alb", 2020))],
        vec![true],
    )
    .unwrap();
    p.resume();
    p.on_transcode_result(Ok("/tmp/tx/a.m4a".to_string()));
    // The original's upload fails: only the temp file was committed.
    let a = p.on_put_result(Err("connection reset".to_string()));
    match a {
        Action::DeleteTempFile { path } => assert_eq!(path, "/tmp/tx/a.m4a"),
        other => panic!("expected temp file cleanup, got {:?}", other),
    }
    let a = p.on_delete_result(Ok(()));
    assert!(matches!(a, Action::ItemDone));
    assert!(matches!(p.resume(), Action::BatchDone));

    let last = p.query_progress(0).unwrap();
    assert_eq!(
        last.status,
        UploadStatus::Error(
            "Original upload failed: R2 upload failed: connection reset".to_string()
        )
    );
    assert_eq!(
        last.error_message,
        Some("R2 upload failed: connection reset".to_string())
    );
}

#[test]
fn album_lookup_failure_message() {
    let mut p = UploadPipeline::new(true, true);
    p.start_upload_queue(
        vec![input("/tmp/in/a.wav", meta("A", "X", "Alb", 2020))],
        vec![true],
    )
    .unwrap();
    p.resume();
    p.on_transcode_result(Ok("/tmp/tx/a.m4a".to_string()));
    p.on_put_result(Ok(()));
    p.on_put_result(Ok(()));
    let mut a = p.on_find_album_result(Err("no primary".to_string()));
    while matches!(
        a,
        Action::DeleteBlob { .. } | Action::DeleteTempFile { .. } | Action::DeleteTrackDoc { .. }
    ) {
        a = p.on_delete_result(Ok(()));
    }
    assert!(matches!(a, Action::ItemDone));

    let last = p.query_progress(0).unwrap();
    assert_eq!(
        last.status,
        UploadStatus::Error(
            "Metadata storage failed: MongoDB operation failed: Album lookup failed: no primary"
                .to_string()
        )
    );
}

#[test]
fn cancellation_is_prompt_and_idempotent() {
    // Two pipelines, identically driven; one receives a single cancel, the
    // other several. Every action after the cancel must agree, and none may
    // start new outside work.
    let drive = |cancels: usize| -> (UploadPipeline, Vec<String>) {
        let mut p = UploadPipeline::new(true, true);
        let items = vec![
            input("/tmp/in/a.wav", meta("A", "X", "Alb", 2020)),
            input("/tmp/in/b.wav", meta("B", "X", "Alb", 2020)),
        ];
        p.start_upload_queue(items, vec![true, true]).unwrap();
        p.resume();
        p.on_transcode_result(Ok("/tmp/tx/a.m4a".to_string()));
        for _ in 0..cancels {
            p.cancel_upload_queue();
        }
        let mut trace = Vec::new();
        let mut a = p.on_put_result(Ok(()));
        loop {
            assert!(!is_forward(&a));
            trace.push(format!("{:?}", a));
            a = match a {
                Action::BatchDone => break,
                Action::ItemDone => p.resume(),
                _ => p.on_delete_result(Ok(())),
            };
        }
        (p, trace)
    };
    let (p1, t1) = drive(1);
    let (p3, t3) = drive(3);
    assert_eq!(t1, t3);
    assert_eq!(p1.progress_events(), p3.progress_events());
    assert_eq!(statuses_for(&p1, 1), vec![UploadStatus::Pending, UploadStatus::Cancelled]);
}

#[test]
fn cancelled_before_start_drains_everything() {
    let mut p = UploadPipeline::new(true, true);
    p.start_upload_queue(
        vec![input("/tmp/in/a.wav", meta("A", "X", "Alb", 2020))],
        vec![true],
    )
    .unwrap();
    p.cancel_upload_queue();
    let a = p.resume();
    assert!(matches!(a, Action::BatchDone));
    assert_eq!(statuses_for(&p, 0), vec![UploadStatus::Pending, UploadStatus::Cancelled]);
    assert!(p.query_progress(7).is_none());
}

#[test]
fn failed_cleanup_is_not_retried() {
    // A delete that fails is logged and never re-raised: cleanup moves on
    // to the next committed effect and the item still terminates.
    let mut p = UploadPipeline::new(true, true);
    p.start_upload_queue(
        vec![input("/tmp/in/a.wav", meta("A", "X", "Alb", 2020))],
        vec![true],
    )
    .unwrap();
    p.resume();
    p.on_transcode_result(Ok("/tmp/tx/a.m4a".to_string()));
    p.on_put_result(Ok(()));
    let a = p.on_put_result(Err("denied".to_string()));
    match a {
        Action::DeleteBlob { key } => assert_eq!(key, "tracks/original/a.wav"),
        other => panic!("expected original blob cleanup, got {:?}", other),
    }
    let a = p.on_delete_result(Err("still denied".to_string()));
    match a {
        Action::DeleteTempFile { path } => assert_eq!(path, "/tmp/tx/a.m4a"),
        other => panic!("expected temp file cleanup, got {:?}", other),
    }
    let a = p.on_delete_result(Ok(()));
    assert!(matches!(a, Action::ItemDone));
    assert!(matches!(p.resume(), Action::BatchDone));
    assert!(matches!(
        p.query_progress(0).unwrap().status,
        UploadStatus::Error(_)
    ));
}

#[test]
fn submitting_twice_appends_to_live_queue() {
    let mut p = UploadPipeline::new(true, true);
    p.start_upload_queue(
        vec![input("/tmp/in/a.wav", meta("A", "X", "Alb", 2020))],
        vec![true],
    )
    .unwrap();
    let a = p.resume();
    assert!(matches!(a, Action::Transcode { .. }));
    // A second batch arrives while the first item is in flight.
    p.start_upload_queue(
        vec![input("/tmp/in/b.wav", meta("B", "X", "Alb", 2020))],
        vec![true],
    )
    .unwrap();
    // The in-flight item continues, then the appended item is pulled.
    p.on_transcode_result(Err(TranscodingError::FFmpegNotFound));
    let a = p.resume();
    match a {
        Action::Transcode { input_path } => assert_eq!(input_path, "/tmp/in/b.wav"),
        other => panic!("expected transcode of second item, got {:?}", other),
    }
    let last = p.query_progress(0).unwrap();
    assert_eq!(
        last.status,
        UploadStatus::Error("Transcoding failed: ToolNotFound".to_string())
    );
}

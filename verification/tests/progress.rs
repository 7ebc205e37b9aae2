use drop_core::error::IrohError;
use drop_core::metadata::{CollectionMetadata, FileTransfer};
use drop_core::progress::{Action, ListingEntry, Phase, ProgressReconciler, TransferEvent};

fn table(files: &[FileTransfer]) -> Vec<(String, u64, u64)> {
    files.iter().map(|f| (f.name.clone(), f.transferred, f.total)).collect()
}

fn emitted(action: Action) -> Vec<(String, u64, u64)> {
    match action {
        Action::Emit(files) => table(&files),
        other => panic!("expected a snapshot, got {:?}", other),
    }
}

fn row(name: &str, transferred: u64, total: u64) -> (String, u64, u64) {
    (name.to_string(), transferred, total)
}

fn resolved(names: &[&str]) -> ProgressReconciler {
    let mut r = ProgressReconciler::new();
    let action = r.step(TransferEvent::HashSequenceFound { hash: "root".to_string() });
    assert!(matches!(action, Action::FetchHashSequence(h) if h == "root"));
    assert_eq!(r.phase(), Phase::AwaitingHashSequence);
    let mut hashes = vec!["meta".to_string()];
    hashes.extend(names.iter().map(|n| format!("hash-{}", n)));
    let action = r.step(TransferEvent::HashSequenceLoaded { hashes });
    assert!(matches!(action, Action::FetchMetadata(h) if h == "meta"));
    assert_eq!(r.phase(), Phase::AwaitingMetadata);
    let metadata = CollectionMetadata::new(names.iter().map(|n| n.to_string()).collect());
    let action = r.step(TransferEvent::MetadataLoaded { bytes: metadata.to_bytes() });
    assert!(matches!(action, Action::Nothing));
    assert_eq!(r.phase(), Phase::Streaming);
    r
}

fn entry(name: &str, hash: &str, size: u64) -> ListingEntry {
    ListingEntry { name: name.to_string(), hash: hash.to_string(), size }
}

#[test]
fn one_file_from_found_to_all_done() {
    let mut r = resolved(&["report.pdf"]);
    let found = TransferEvent::ItemFound { id: 1, hash: "hash-report.pdf".to_string(), size: 100 };
    assert_eq!(emitted(r.step(found)), vec![row("report.pdf", 0, 100)]);
    assert_eq!(
        emitted(r.step(TransferEvent::Progress { id: 1, offset: 40 })),
        vec![row("report.pdf", 40, 100)]
    );
    assert_eq!(
        emitted(r.step(TransferEvent::Progress { id: 1, offset: 100 })),
        vec![row("report.pdf", 100, 100)]
    );
    assert_eq!(
        emitted(r.step(TransferEvent::ItemDone { id: 1 })),
        vec![row("report.pdf", 100, 100)]
    );
    assert!(matches!(r.step(TransferEvent::AllDone), Action::FetchListing));
    assert_eq!(r.phase(), Phase::AwaitingListing);
    let listing = vec![entry("report.pdf", "hash-report.pdf", 100)];
    match r.step(TransferEvent::ListingLoaded { entries: listing }) {
        Action::Finish(files, collection) => {
            assert_eq!(table(&files), vec![row("report.pdf", 100, 100)]);
            let pairs: Vec<(String, String)> = collection.iter().cloned().collect();
            assert_eq!(pairs, vec![("report.pdf".to_string(), "hash-report.pdf".to_string())]);
        }
        other => panic!("expected the final snapshot, got {:?}", other),
    }
    assert_eq!(r.phase(), Phase::Finished);
    assert!(r.is_terminal());
    assert_eq!(table(&r.snapshot()), vec![row("report.pdf", 100, 100)]);
}

#[test]
fn snapshots_never_move_backwards() {
    let mut r = resolved(&["a", "b"]);
    let events = vec![
        TransferEvent::ItemFound { id: 7, hash: "hash-a".to_string(), size: 10 },
        TransferEvent::Progress { id: 7, offset: 3 },
        TransferEvent::ItemFound { id: 8, hash: "hash-b".to_string(), size: 20 },
        TransferEvent::Progress { id: 8, offset: 5 },
        TransferEvent::Progress { id: 7, offset: 10 },
        TransferEvent::ItemDone { id: 7 },
        TransferEvent::Progress { id: 8, offset: 20 },
        TransferEvent::ItemDone { id: 8 },
    ];
    let mut previous: Vec<(String, u64, u64)> = Vec::new();
    for event in events {
        let now = emitted(r.step(event));
        assert!(now.len() >= previous.len());
        for (before, after) in previous.iter().zip(now.iter()) {
            assert_eq!(before.0, after.0);
            assert!(before.1 <= after.1);
            assert!(after.1 <= after.2);
        }
        previous = now;
    }
    assert_eq!(previous, vec![row("a", 10, 10), row("b", 20, 20)]);
}

#[test]
fn item_done_snaps_to_the_total() {
    let mut r = resolved(&["a"]);
    r.step(TransferEvent::ItemFound { id: 1, hash: "hash-a".to_string(), size: 50 });
    r.step(TransferEvent::Progress { id: 1, offset: 20 });
    assert_eq!(emitted(r.step(TransferEvent::ItemDone { id: 1 })), vec![row("a", 50, 50)]);
}

#[test]
fn stream_end_without_all_done_falls_back_to_the_listing() {
    let mut r = resolved(&["a", "b"]);
    r.step(TransferEvent::ItemFound { id: 1, hash: "hash-a".to_string(), size: 10 });
    r.step(TransferEvent::Progress { id: 1, offset: 4 });
    assert!(matches!(r.step(TransferEvent::StreamEnded), Action::FetchListing));
    let listing = vec![entry("a", "hash-a", 10), entry("b", "hash-b", 20)];
    match r.step(TransferEvent::ListingLoaded { entries: listing }) {
        Action::Finish(files, collection) => {
            assert_eq!(table(&files), vec![row("a", 10, 10), row("b", 20, 20)]);
            let pairs: Vec<(String, String)> = collection.iter().cloned().collect();
            assert_eq!(
                pairs,
                vec![
                    ("a".to_string(), "hash-a".to_string()),
                    ("b".to_string(), "hash-b".to_string())
                ]
            );
        }
        other => panic!("expected success, got {:?}", other),
    }
    assert_eq!(r.phase(), Phase::Finished);
}

#[test]
fn unknown_ids_change_nothing() {
    let mut r = resolved(&["a", "b"]);
    r.step(TransferEvent::ItemFound { id: 1, hash: "hash-a".to_string(), size: 10 });
    r.step(TransferEvent::ItemFound { id: 2, hash: "hash-b".to_string(), size: 20 });
    r.step(TransferEvent::Progress { id: 1, offset: 4 });
    let before = table(&r.snapshot());
    assert_eq!(emitted(r.step(TransferEvent::Progress { id: 99, offset: 7 })), before);
    assert_eq!(emitted(r.step(TransferEvent::ItemDone { id: 99 })), before);
    assert_eq!(table(&r.snapshot()), before);
    assert_eq!(r.phase(), Phase::Streaming);
    let mut fresh = ProgressReconciler::new();
    assert_eq!(emitted(fresh.step(TransferEvent::Progress { id: 1, offset: 7 })), Vec::new());
    assert_eq!(emitted(fresh.step(TransferEvent::ItemDone { id: 1 })), Vec::new());
}

#[test]
fn item_found_before_the_hash_sequence_is_fatal() {
    let mut r = ProgressReconciler::new();
    let action = r.step(TransferEvent::ItemFound { id: 1, hash: "h".to_string(), size: 1 });
    assert!(matches!(action, Action::Fail(IrohError::DownloadError(_))));
    assert_eq!(r.phase(), Phase::Failed);
    assert!(matches!(r.step(TransferEvent::AllDone), Action::Nothing));
    assert_eq!(r.phase(), Phase::Failed);
}

#[test]
fn item_found_with_a_foreign_hash_is_fatal() {
    let mut r = resolved(&["a"]);
    let action = r.step(TransferEvent::ItemFound { id: 1, hash: "nope".to_string(), size: 1 });
    assert!(matches!(action, Action::Fail(IrohError::DownloadError(_))));
    assert_eq!(r.phase(), Phase::Failed);
}

#[test]
fn the_metadata_blob_itself_gives_no_record() {
    let mut r = resolved(&["a"]);
    let action = r.step(TransferEvent::ItemFound { id: 0, hash: "meta".to_string(), size: 30 });
    assert!(matches!(action, Action::Nothing));
    assert!(r.snapshot().is_empty());
    assert_eq!(emitted(r.step(TransferEvent::Progress { id: 0, offset: 30 })), Vec::new());
}

#[test]
fn local_content_completes_an_existing_record() {
    let mut r = resolved(&["a", "b"]);
    r.step(TransferEvent::ItemFound { id: 1, hash: "hash-a".to_string(), size: 10 });
    let out = emitted(r.step(TransferEvent::LocalFound { hash: "hash-a".to_string(), size: 12 }));
    assert_eq!(out, vec![row("a", 12, 12)]);
    let out = emitted(r.step(TransferEvent::LocalFound { hash: "hash-b".to_string(), size: 5 }));
    assert_eq!(out, vec![row("a", 12, 12)]);
    let out = emitted(r.step(TransferEvent::LocalFound { hash: "other".to_string(), size: 5 }));
    assert_eq!(out, vec![row("a", 12, 12)]);
}

#[test]
fn updates_go_to_the_first_record_of_a_name() {
    let mut r = resolved(&["same", "same"]);
    r.step(TransferEvent::ItemFound { id: 1, hash: "hash-same".to_string(), size: 10 });
    r.step(TransferEvent::ItemFound { id: 2, hash: "hash-same".to_string(), size: 10 });
    let out = emitted(r.step(TransferEvent::Progress { id: 2, offset: 6 }));
    assert_eq!(out, vec![row("same", 6, 10), row("same", 0, 10)]);
}

#[test]
fn invalid_metadata_is_fatal() {
    let mut r = ProgressReconciler::new();
    r.step(TransferEvent::HashSequenceFound { hash: "root".to_string() });
    r.step(TransferEvent::HashSequenceLoaded { hashes: vec!["meta".to_string()] });
    let action = r.step(TransferEvent::MetadataLoaded { bytes: b"not metadata".to_vec() });
    match action {
        Action::Fail(e) => {
            assert_eq!(e.to_string(), "Invalid metadata: bytes are not a metadata record")
        }
        other => panic!("expected failure, got {:?}", other),
    }
    assert_eq!(r.phase(), Phase::Failed);
}

#[test]
fn metadata_that_does_not_fit_the_hash_sequence_is_fatal() {
    let mut r = ProgressReconciler::new();
    r.step(TransferEvent::HashSequenceFound { hash: "root".to_string() });
    let hashes = vec!["meta".to_string(), "h1".to_string(), "h2".to_string()];
    r.step(TransferEvent::HashSequenceLoaded { hashes });
    let metadata = CollectionMetadata::new(vec!["only".to_string()]);
    let action = r.step(TransferEvent::MetadataLoaded { bytes: metadata.to_bytes() });
    match action {
        Action::Fail(e) => assert_eq!(
            e.to_string(),
            "Invalid metadata: name count does not match the hash sequence"
        ),
        other => panic!("expected failure, got {:?}", other),
    }
    assert_eq!(r.phase(), Phase::Failed);
}

#[test]
fn an_empty_hash_sequence_is_fatal() {
    let mut r = ProgressReconciler::new();
    r.step(TransferEvent::HashSequenceFound { hash: "root".to_string() });
    let action = r.step(TransferEvent::HashSequenceLoaded { hashes: Vec::new() });
    assert!(matches!(action, Action::Fail(IrohError::InvalidMetadata(_))));
    assert_eq!(r.phase(), Phase::Failed);
}

#[test]
fn a_failed_store_read_is_a_download_error() {
    for stage in 0..4 {
        let mut r = ProgressReconciler::new();
        if stage >= 1 {
            r.step(TransferEvent::HashSequenceFound { hash: "root".to_string() });
        }
        if stage >= 2 {
            r.step(TransferEvent::HashSequenceLoaded { hashes: vec!["meta".to_string()] });
        }
        if stage >= 3 {
            let metadata = CollectionMetadata::new(Vec::new());
            r.step(TransferEvent::MetadataLoaded { bytes: metadata.to_bytes() });
            r.step(TransferEvent::AllDone);
        }
        match r.step(TransferEvent::StoreFailed { reason: "disk gone".to_string() }) {
            Action::Fail(e) => assert_eq!(e.to_string(), "Download error: disk gone"),
            other => panic!("expected failure, got {:?}", other),
        }
        assert_eq!(r.phase(), Phase::Failed);
    }
}

#[test]
fn an_answer_nobody_asked_for_is_fatal() {
    let mut r = ProgressReconciler::new();
    let action = r.step(TransferEvent::ListingLoaded { entries: Vec::new() });
    assert!(matches!(action, Action::Fail(IrohError::DownloadError(_))));
    let mut r = ProgressReconciler::new();
    r.step(TransferEvent::HashSequenceFound { hash: "root".to_string() });
    let action = r.step(TransferEvent::Progress { id: 1, offset: 1 });
    assert!(matches!(action, Action::Fail(IrohError::DownloadError(_))));
    assert_eq!(r.phase(), Phase::Failed);
}

#[test]
fn other_events_are_ignored() {
    let mut r = resolved(&["a"]);
    assert!(matches!(r.step(TransferEvent::Other), Action::Nothing));
    assert_eq!(r.phase(), Phase::Streaming);
    assert!(r.snapshot().is_empty());
}

#[test]
fn a_finished_reconciler_ignores_everything() {
    let mut r = resolved(&[]);
    r.step(TransferEvent::AllDone);
    r.step(TransferEvent::ListingLoaded { entries: Vec::new() });
    assert_eq!(r.phase(), Phase::Finished);
    assert!(matches!(r.step(TransferEvent::Progress { id: 1, offset: 1 }), Action::Nothing));
    let again = TransferEvent::StoreFailed { reason: "late".to_string() };
    assert!(matches!(r.step(again), Action::Nothing));
    assert_eq!(r.phase(), Phase::Finished);
}

#[test]
fn an_id_stands_for_one_name_for_the_whole_session() {
    let mut r = resolved(&["a", "b"]);
    r.step(TransferEvent::ItemFound { id: 1, hash: "hash-a".to_string(), size: 10 });
    let again = TransferEvent::ItemFound { id: 1, hash: "hash-b".to_string(), size: 20 };
    assert!(matches!(r.step(again), Action::Fail(IrohError::DownloadError(_))));
    assert_eq!(r.phase(), Phase::Failed);
    assert_eq!(table(&r.snapshot()), vec![row("a", 0, 10)]);
}

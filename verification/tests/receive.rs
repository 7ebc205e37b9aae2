use drop_core::collection::Collection;
use drop_core::error::IrohError;
use drop_core::metadata::FileTransfer;
use drop_core::receive::{connecting_snapshot, AnnouncedFile, ReceiveTracker};
use drop_core::sink::{continues_after, delivery, FileTransferHandle};

fn announced(id: &str, name: &str, len: u64) -> AnnouncedFile {
    AnnouncedFile {
        id: id.to_string(),
        name: name.to_string(),
        len,
        location: format!("/in/{}", name),
    }
}

fn rows(files: &[FileTransfer]) -> Vec<(String, u64, u64)> {
    files.iter().map(|f| (f.name.clone(), f.transferred, f.total)).collect()
}

fn row(record: Option<FileTransfer>) -> Option<(String, u64, u64)> {
    record.map(|f| (f.name, f.transferred, f.total))
}

fn tracker(files: Vec<AnnouncedFile>) -> ReceiveTracker {
    let mut collection = Collection::new();
    let mut tracker = ReceiveTracker::new();
    tracker.announce(&mut collection, files);
    tracker
}

#[test]
fn connecting_snapshot_lists_every_file_at_zero() {
    let files = vec![announced("1", "a", 10), announced("2", "b", 0), announced("3", "c", u64::MAX)];
    assert_eq!(
        rows(&connecting_snapshot(&files)),
        vec![
            ("a".to_string(), 0, 10),
            ("b".to_string(), 0, 0),
            ("c".to_string(), 0, u64::MAX)
        ]
    );
    assert!(connecting_snapshot(&Vec::new()).is_empty());
}

#[test]
fn announced_files_are_recorded_in_order_with_their_locations() {
    let mut collection = Collection::new();
    collection.add_file("old".to_string(), "/in/old".to_string());
    let mut tracker = ReceiveTracker::new();
    tracker.announce(&mut collection, vec![announced("0", "old", 1)]);
    tracker.announce(&mut collection, vec![announced("1", "a", 10), announced("2", "b", 20)]);
    let pairs: Vec<(String, String)> = collection.iter().cloned().collect();
    assert_eq!(
        pairs,
        vec![
            ("old".to_string(), "/in/old".to_string()),
            ("old".to_string(), "/in/old".to_string()),
            ("a".to_string(), "/in/a".to_string()),
            ("b".to_string(), "/in/b".to_string()),
        ]
    );
    assert_eq!(tracker.len(), 3);
    assert_eq!(tracker.location(&"2".to_string()), Some("/in/b".to_string()));
    assert_eq!(tracker.location(&"9".to_string()), None);
}

#[test]
fn chunks_of_one_file_add_up_to_its_total() {
    let mut t = tracker(vec![announced("1", "a.txt", 100)]);
    let first = row(t.receive(&"1".to_string(), 40));
    assert_eq!(first, Some(("a.txt".to_string(), 40, 100)));
    let last = row(t.receive(&"1".to_string(), 60));
    assert_eq!(last, Some(("a.txt".to_string(), 100, 100)));
}

#[test]
fn records_never_go_down_and_never_pass_the_total() {
    let mut t = tracker(vec![announced("1", "a", 10), announced("2", "b", 25)]);
    let mut previous = 0;
    for chunk in [0u64, 3, 3, 0, 10, 7, u64::MAX, 1] {
        let (name, transferred, total) = row(t.receive(&"2".to_string(), chunk)).unwrap();
        assert_eq!(name, "b");
        assert_eq!(total, 25);
        assert!(previous <= transferred);
        assert!(transferred <= total);
        previous = transferred;
    }
    assert_eq!(previous, 25);
    assert_eq!(row(t.receive(&"1".to_string(), 4)), Some(("a".to_string(), 4, 10)));
}

#[test]
fn data_is_counted_for_the_first_file_of_an_id() {
    let mut t = tracker(vec![announced("1", "a", 10), announced("2", "b", 20), announced("2", "c", 30)]);
    assert_eq!(row(t.receive(&"2".to_string(), 7)), Some(("b".to_string(), 7, 20)));
    assert_eq!(row(t.receive(&"2".to_string(), 7)), Some(("b".to_string(), 14, 20)));
    assert_eq!(t.location(&"2".to_string()), Some("/in/b".to_string()));
}

#[test]
fn data_under_an_unknown_id_gives_no_record() {
    let mut t = tracker(vec![announced("1", "a", 10)]);
    assert!(t.receive(&"9".to_string(), 7).is_none());
    assert_eq!(row(t.receive(&"1".to_string(), 1)), Some(("a".to_string(), 1, 10)));
    let mut empty = ReceiveTracker::new();
    assert!(empty.receive(&"1".to_string(), 7).is_none());
    assert_eq!(empty.len(), 0);
}

#[test]
fn handle_delivers_snapshots_in_order() {
    let (tx, rx) = std::sync::mpsc::channel();
    let handle = FileTransferHandle(tx);
    let first = vec![FileTransfer { name: "a".to_string(), transferred: 1, total: 2 }];
    let second = vec![FileTransfer { name: "a".to_string(), transferred: 2, total: 2 }];
    assert!(handle.send(first).is_ok());
    assert!(handle.send(second).is_ok());
    assert_eq!(rows(&rx.recv().unwrap()), vec![("a".to_string(), 1, 2)]);
    assert_eq!(rows(&rx.recv().unwrap()), vec![("a".to_string(), 2, 2)]);
}

#[test]
fn a_lost_consumer_is_a_send_error_and_the_transfer_continues() {
    let (tx, rx) = std::sync::mpsc::channel();
    let handle = FileTransferHandle(tx);
    drop(rx);
    let e = handle.send(Vec::new()).unwrap_err();
    assert!(matches!(e, IrohError::SendError));
    assert!(continues_after(&e));
    assert!(!continues_after(&IrohError::Cancelled));
    assert!(!continues_after(&IrohError::DownloadError("x".to_string())));
}

#[test]
fn delivery_is_a_send_error_exactly_when_the_snapshot_was_not_taken() {
    assert!(delivery(true).is_ok());
    assert!(matches!(delivery(false), Err(IrohError::SendError)));
}

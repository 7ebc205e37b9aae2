use drop_core::error::IrohError;
use drop_core::send::{
    check_paths, notice, sending_progress, ProviderEvent, SendCommand, SendInput, SendSession,
    SenderPath,
};
use drop_core::session::SessionState;

fn good(name: &str, len: u64) -> SenderPath {
    SenderPath {
        display: format!("/tmp/{}", name),
        exists: true,
        is_file: true,
        file_name: Some(name.to_string()),
        length: Ok(len),
    }
}

fn error_text(r: Result<Vec<drop_core::send::SenderFile>, IrohError>) -> String {
    r.unwrap_err().to_string()
}

#[test]
fn an_empty_list_is_refused() {
    assert_eq!(error_text(check_paths(&Vec::new())), "Node error: Cannot send an empty list of files");
}

#[test]
fn every_path_must_exist_and_be_a_file() {
    let mut missing = good("b", 2);
    missing.exists = false;
    missing.is_file = false;
    let mut dir = good("c", 3);
    dir.is_file = false;
    let paths = vec![good("a", 1), dir, missing];
    assert_eq!(error_text(check_paths(&paths)), "Node error: Path is not a file: /tmp/c");
    let mut missing = good("b", 2);
    missing.exists = false;
    let paths = vec![good("a", 1), missing];
    assert_eq!(error_text(check_paths(&paths)), "Node error: File does not exist: /tmp/b");
}

#[test]
fn access_errors_come_before_ingest_errors() {
    let mut nameless = good("a", 1);
    nameless.file_name = None;
    let mut missing = good("b", 2);
    missing.exists = false;
    let paths = vec![nameless, missing];
    assert_eq!(error_text(check_paths(&paths)), "Node error: File does not exist: /tmp/b");
}

#[test]
fn every_file_needs_a_name_and_a_length() {
    let mut nameless = good("a", 1);
    nameless.file_name = None;
    assert_eq!(error_text(check_paths(&vec![good("x", 1), nameless])), "Node error: Invalid file name");
    let mut unreadable = good("a", 1);
    unreadable.length = Err("permission denied".to_string());
    assert_eq!(
        error_text(check_paths(&vec![unreadable, good("x", 1)])),
        "Node error: Failed to get file metadata: permission denied"
    );
}

#[test]
fn good_paths_give_one_file_each_in_order() {
    let files = check_paths(&vec![good("a", 1), good("b", 22), good("a", 333)]).unwrap();
    let pairs: Vec<(String, u64)> = files.iter().map(|f| (f.name.clone(), f.len)).collect();
    assert_eq!(
        pairs,
        vec![("a".to_string(), 1), ("b".to_string(), 22), ("a".to_string(), 333)]
    );
}

#[test]
fn notices_for_engine_reports() {
    let n = notice(&ProviderEvent::ClientConnected { connection_id: 12 }).unwrap();
    assert_eq!(n.message, "12 client connected");
    let completed = ProviderEvent::TransferBlobCompleted {
        connection_id: 3,
        hash: "abcd".to_string(),
        index: 4,
        size: 1024,
    };
    assert_eq!(notice(&completed).unwrap().message, "3 transfer blob completed abcd 4 1024");
    let done = ProviderEvent::TransferCompleted {
        connection_id: 0,
        stats: "TransferStats { sent: 5 }".to_string(),
    };
    assert_eq!(notice(&done).unwrap().message, "0 transfer completed TransferStats { sent: 5 }");
    let aborted = ProviderEvent::TransferAborted { connection_id: u64::MAX };
    assert_eq!(notice(&aborted).unwrap().message, format!("{} transfer aborted", u64::MAX));
    assert!(notice(&ProviderEvent::Other).is_none());
}

#[test]
fn sending_progress_adds_sent_and_remaining() {
    let record = sending_progress("a.bin".to_string(), 30, 70);
    assert_eq!(record.name, "a.bin");
    assert_eq!(record.transferred, 30);
    assert_eq!(record.total, 100);
    let record = sending_progress("b.bin".to_string(), 0, u64::MAX);
    assert_eq!(record.total, u64::MAX);
}

#[test]
fn sending_progress_takes_every_input() {
    let record = sending_progress("c.bin".to_string(), u64::MAX, 1);
    assert_eq!((record.transferred, record.total), (u64::MAX, u64::MAX));
    let record = sending_progress("d.bin".to_string(), 5, u64::MAX);
    assert_eq!((record.transferred, record.total), (5, u64::MAX));
}

#[test]
fn send_session_runs_to_completion() {
    let mut s = SendSession::new();
    assert_eq!(s.state(), SessionState::Created);
    match s.advance(SendInput::Begin { paths: vec![good("a", 1), good("b", 2)] }) {
        SendCommand::Share { files, profile_name } => {
            assert_eq!(files.len(), 2);
            assert_eq!(files[1].name, "b");
            assert_eq!(profile_name, "Anonymous");
        }
        other => panic!("unexpected command {:?}", other),
    }
    assert_eq!(s.state(), SessionState::Negotiating);
    match s.advance(SendInput::Shared { locator: "nodeabc".to_string(), confirmation: 200 }) {
        SendCommand::Publish { ticket } => assert_eq!(ticket.to_string(), "nodeabc:200"),
        other => panic!("unexpected command {:?}", other),
    }
    assert_eq!(s.state(), SessionState::Active);
    assert!(matches!(s.advance(SendInput::Polled { finished: false }), SendCommand::Poll));
    assert!(!s.is_finished());
    assert!(matches!(s.advance(SendInput::Polled { finished: true }), SendCommand::Complete));
    assert_eq!(s.state(), SessionState::Completed);
    assert!(s.is_finished());
    assert!(matches!(s.advance(SendInput::Polled { finished: false }), SendCommand::Idle));
    assert!(s.is_finished());
}

#[test]
fn send_session_fails_before_sharing_on_bad_paths() {
    let mut s = SendSession::new();
    match s.advance(SendInput::Begin { paths: Vec::new() }) {
        SendCommand::Abort(e) => {
            assert_eq!(e.to_string(), "Node error: Cannot send an empty list of files")
        }
        other => panic!("unexpected command {:?}", other),
    }
    assert_eq!(s.state(), SessionState::Failed);
}

#[test]
fn send_session_reports_a_failed_share() {
    let mut s = SendSession::new();
    s.advance(SendInput::Begin { paths: vec![good("a", 1)] });
    match s.advance(SendInput::ShareFailed { reason: "no relay".to_string() }) {
        SendCommand::Abort(e) => assert_eq!(e.to_string(), "Node error: no relay"),
        other => panic!("unexpected command {:?}", other),
    }
    assert_eq!(s.state(), SessionState::Failed);
}

#[test]
fn send_session_cancel_is_idempotent() {
    let mut s = SendSession::new();
    s.advance(SendInput::Begin { paths: vec![good("a", 1)] });
    assert!(matches!(s.cancel(), SendCommand::Abort(IrohError::Cancelled)));
    assert!(s.is_cancelled());
    assert!(matches!(s.cancel(), SendCommand::Idle));
    assert!(matches!(s.advance(SendInput::Polled { finished: true }), SendCommand::Idle));
    assert_eq!(s.state(), SessionState::Cancelled);
    assert!(!s.is_finished());
}

#[test]
fn send_session_rejects_inputs_out_of_turn() {
    let mut s = SendSession::new();
    assert!(matches!(
        s.advance(SendInput::Polled { finished: true }),
        SendCommand::Abort(IrohError::Unknown)
    ));
    assert_eq!(s.state(), SessionState::Failed);
}

use drop_core::error::IrohError;
use drop_core::instance::{DropCoreAdapter, IrohInstance};
use drop_core::progress::Phase;
use drop_core::session::{
    poll_verdict, receiving_dir_name, PollVerdict, ReceiveCommand, ReceiveInput, ReceiveSession,
    SessionState,
};

fn active_session() -> ReceiveSession {
    let mut s = ReceiveSession::new();
    let begin = ReceiveInput::Begin { ticket: "nodeabcdefgh:17".to_string(), now_secs: 1700000000 };
    assert!(matches!(s.advance(begin), ReceiveCommand::EnsureOutputDir));
    assert_eq!(s.state(), SessionState::Negotiating);
    match s.advance(ReceiveInput::StepSucceeded) {
        ReceiveCommand::CreateReceivingDir { name } => {
            assert_eq!(name, "drop_transfer_1700000000")
        }
        other => panic!("unexpected command {:?}", other),
    }
    match s.advance(ReceiveInput::StepSucceeded) {
        ReceiveCommand::Connect { ticket, confirmation, profile_name } => {
            assert_eq!(ticket, "nodeabcdefgh");
            assert_eq!(confirmation, 17);
            assert_eq!(profile_name, "Anonymous");
        }
        other => panic!("unexpected command {:?}", other),
    }
    assert!(matches!(s.advance(ReceiveInput::StepSucceeded), ReceiveCommand::Start));
    assert_eq!(s.state(), SessionState::Negotiating);
    assert!(matches!(s.advance(ReceiveInput::StepSucceeded), ReceiveCommand::Poll));
    assert_eq!(s.state(), SessionState::Active);
    s
}

#[test]
fn poll_verdicts() {
    assert_eq!(poll_verdict(false, false), PollVerdict::Wait);
    assert_eq!(poll_verdict(true, false), PollVerdict::Finished);
    assert_eq!(poll_verdict(false, true), PollVerdict::Cancelled);
    assert_eq!(poll_verdict(true, true), PollVerdict::Cancelled);
}

#[test]
fn receiving_directory_names() {
    assert_eq!(receiving_dir_name(0), "drop_transfer_0");
    assert_eq!(receiving_dir_name(1761681600), "drop_transfer_1761681600");
    assert_eq!(receiving_dir_name(u64::MAX), format!("drop_transfer_{}", u64::MAX));
}

#[test]
fn terminal_states() {
    assert!(SessionState::Completed.is_terminal());
    assert!(SessionState::Cancelled.is_terminal());
    assert!(SessionState::Failed.is_terminal());
    assert!(!SessionState::Created.is_terminal());
    assert!(!SessionState::Negotiating.is_terminal());
    assert!(!SessionState::Active.is_terminal());
}

#[test]
fn receive_session_runs_to_completion() {
    let mut s = active_session();
    let waiting = ReceiveInput::Polled { finished: false, cancelled: false };
    assert!(matches!(s.advance(waiting), ReceiveCommand::Poll));
    assert_eq!(s.state(), SessionState::Active);
    assert!(!s.is_finished());
    let done = ReceiveInput::Polled { finished: true, cancelled: false };
    assert!(matches!(s.advance(done), ReceiveCommand::Complete));
    assert_eq!(s.state(), SessionState::Completed);
    assert!(s.is_finished());
    assert!(!s.is_cancelled());
}

#[test]
fn a_bad_ticket_fails_the_session_before_any_step() {
    let mut s = IrohInstance::new().receive_session();
    assert_eq!(s.state(), SessionState::Created);
    let begin = ReceiveInput::Begin { ticket: "short".to_string(), now_secs: 1 };
    assert!(matches!(s.advance(begin), ReceiveCommand::Abort(IrohError::InvalidTicket)));
    assert_eq!(s.state(), SessionState::Failed);
}

#[test]
fn a_failed_step_is_reported_with_its_stage() {
    let expected = [
        "Download error: Failed to create output directory: denied",
        "Download error: Failed to create receiving directory: denied",
        "Download error: Failed to connect to sender: denied",
        "Download error: Failed to start receiving: denied",
        "Download error: denied",
    ];
    for (steps, message) in expected.iter().enumerate() {
        let mut s = ReceiveSession::new();
        s.advance(ReceiveInput::Begin { ticket: "abc:1".to_string(), now_secs: 5 });
        for _ in 0..steps {
            s.advance(ReceiveInput::StepSucceeded);
        }
        match s.advance(ReceiveInput::StepFailed { reason: "denied".to_string() }) {
            ReceiveCommand::Abort(e) => assert_eq!(&e.to_string(), message),
            other => panic!("unexpected command {:?}", other),
        }
        assert_eq!(s.state(), SessionState::Failed);
    }
}

#[test]
fn cancellation_wins_over_completion_and_is_final() {
    let mut s = active_session();
    let both = ReceiveInput::Polled { finished: true, cancelled: true };
    assert!(matches!(s.advance(both), ReceiveCommand::Abort(IrohError::Cancelled)));
    assert_eq!(s.state(), SessionState::Cancelled);
    assert!(s.is_cancelled());
    let done = ReceiveInput::Polled { finished: true, cancelled: false };
    assert!(matches!(s.advance(done), ReceiveCommand::Idle));
    assert_eq!(s.state(), SessionState::Cancelled);
    assert!(!s.is_finished());
}

#[test]
fn cancel_is_idempotent_and_harmless_after_completion() {
    let mut s = active_session();
    assert!(matches!(s.cancel(), ReceiveCommand::Abort(IrohError::Cancelled)));
    assert!(matches!(s.cancel(), ReceiveCommand::Idle));
    assert_eq!(s.state(), SessionState::Cancelled);
    let mut s = active_session();
    s.advance(ReceiveInput::Polled { finished: true, cancelled: false });
    assert!(matches!(s.cancel(), ReceiveCommand::Idle));
    assert_eq!(s.state(), SessionState::Completed);
    let mut s = ReceiveSession::new();
    assert!(matches!(s.cancel(), ReceiveCommand::Abort(IrohError::Cancelled)));
    assert_eq!(s.state(), SessionState::Cancelled);
}

#[test]
fn an_input_out_of_turn_fails_the_session() {
    let mut s = ReceiveSession::new();
    assert!(matches!(s.advance(ReceiveInput::StepSucceeded), ReceiveCommand::Abort(IrohError::Unknown)));
    assert_eq!(s.state(), SessionState::Failed);
    let mut s = active_session();
    let begin = ReceiveInput::Begin { ticket: "abc:1".to_string(), now_secs: 5 };
    assert!(matches!(s.advance(begin), ReceiveCommand::Abort(IrohError::Unknown)));
    assert_eq!(s.state(), SessionState::Failed);
}

#[test]
fn an_instance_hands_out_fresh_sessions() {
    let instance: DropCoreAdapter = IrohInstance::new();
    assert_eq!(instance.send_session().state(), SessionState::Created);
    assert_eq!(instance.receive_session().state(), SessionState::Created);
    let reconciler = instance.reconciler();
    assert_eq!(reconciler.phase(), Phase::Streaming);
    assert!(reconciler.snapshot().is_empty());
    assert!(!reconciler.is_terminal());
}

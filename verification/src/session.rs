//! The lifecycle of one transfer: start, negotiation, activity, and a
//! terminal state that never changes again.
//!
//! A session does no I/O. `advance` takes what the caller observed and
//! answers with the command the caller is to carry out next.

use crate::error::{IrohError, IrohErrorView};
use crate::text::{decimal_digits, push_decimal};
use crate::ticket::{decode_spec, TicketWrapper};
use vstd::prelude::*;
use vstd::string::StringExecFns;

verus! {

/// The states of a session. `Completed`, `Cancelled` and `Failed` are
/// terminal.
#[derive(Debug, Clone, Copy, PartialEq, Eq, Structural)]
pub enum SessionState {
    Created,
    Negotiating,
    Active,
    Completed,
    Cancelled,
    Failed,
}

impl SessionState {
    /// True for the three terminal states.
    pub open spec fn terminal(self) -> bool {
        self == SessionState::Completed || self == SessionState::Cancelled || self
            == SessionState::Failed
    }

    /// Whether the session has ended.
    pub fn is_terminal(&self) -> (b: bool)
        ensures
            b == self.terminal(),
    {
        match self {
            SessionState::Completed => true,
            SessionState::Cancelled => true,
            SessionState::Failed => true,
            _ => false,
        }
    }
}

/// What one poll of a running transfer means.
#[derive(Debug, Clone, Copy, PartialEq, Eq, Structural)]
pub enum PollVerdict {
    /// Neither finished nor cancelled: wait and poll again.
    Wait,
    /// The transfer finished.
    Finished,
    /// The transfer was cancelled; this wins over finished.
    Cancelled,
}

/// The verdict on one poll. A cancellation is never reported as success.
pub open spec fn poll_verdict_spec(finished: bool, cancelled: bool) -> PollVerdict {
    if cancelled {
        PollVerdict::Cancelled
    } else if finished {
        PollVerdict::Finished
    } else {
        PollVerdict::Wait
    }
}

/// The verdict on one poll.
pub fn poll_verdict(finished: bool, cancelled: bool) -> (v: PollVerdict)
    ensures
        v == poll_verdict_spec(finished, cancelled),
{
    if cancelled {
        PollVerdict::Cancelled
    } else if finished {
        PollVerdict::Finished
    } else {
        PollVerdict::Wait
    }
}

/// The name under which both sides announce themselves.
pub open spec fn default_profile_name() -> Seq<char> {
    "Anonymous"@
}

/// Name of the directory that receives one transfer, started at `secs`
/// seconds after the epoch.
pub open spec fn receiving_dir_name_spec(secs: u64) -> Seq<char> {
    "drop_transfer_"@ + decimal_digits(secs as nat)
}

/// Name of the directory that receives one transfer.
pub fn receiving_dir_name(secs: u64) -> (name: String)
    ensures
        name@ == receiving_dir_name_spec(secs),
{
    let mut name = String::from_str("drop_transfer_");
    push_decimal(&mut name, secs);
    name
}

// ---------------------------------------------------------------------
// Receiving
// ---------------------------------------------------------------------
/// Where a receive session stands.
#[derive(Debug, Clone, Copy, PartialEq, Eq, Structural)]
pub enum ReceiveStage {
    Created,
    EnsuringOutputDir,
    CreatingReceivingDir,
    Connecting,
    Starting,
    Active,
    Completed,
    Cancelled,
    Failed,
}

impl ReceiveStage {
    /// The lifecycle state that this stage belongs to.
    pub open spec fn state(self) -> SessionState {
        match self {
            ReceiveStage::Created => SessionState::Created,
            ReceiveStage::EnsuringOutputDir => SessionState::Negotiating,
            ReceiveStage::CreatingReceivingDir => SessionState::Negotiating,
            ReceiveStage::Connecting => SessionState::Negotiating,
            ReceiveStage::Starting => SessionState::Negotiating,
            ReceiveStage::Active => SessionState::Active,
            ReceiveStage::Completed => SessionState::Completed,
            ReceiveStage::Cancelled => SessionState::Cancelled,
            ReceiveStage::Failed => SessionState::Failed,
        }
    }
}

/// What the caller tells a receive session.
#[derive(Debug, Clone)]
pub enum ReceiveInput {
    /// Start: the ticket as the user gave it, and the time in seconds
    /// since the epoch.
    Begin { ticket: String, now_secs: u64 },
    /// The last command was carried out.
    StepSucceeded,
    /// The last command could not be carried out.
    StepFailed { reason: String },
    /// What a poll of the transfer showed.
    Polled { finished: bool, cancelled: bool },
    /// The user asked to cancel.
    CancelRequested,
}

/// The mathematical value of an input.
pub enum ReceiveInputView {
    Begin { ticket: Seq<char>, now_secs: u64 },
    StepSucceeded,
    StepFailed { reason: Seq<char> },
    Polled { finished: bool, cancelled: bool },
    CancelRequested,
}

impl View for ReceiveInput {
    type V = ReceiveInputView;

    open spec fn view(&self) -> ReceiveInputView {
        match self {
            ReceiveInput::Begin { ticket, now_secs } => ReceiveInputView::Begin {
                ticket: ticket@,
                now_secs: *now_secs,
            },
            ReceiveInput::StepSucceeded => ReceiveInputView::StepSucceeded,
            ReceiveInput::StepFailed { reason } => ReceiveInputView::StepFailed { reason: reason@ },
            ReceiveInput::Polled { finished, cancelled } => ReceiveInputView::Polled {
                finished: *finished,
                cancelled: *cancelled,
            },
            ReceiveInput::CancelRequested => ReceiveInputView::CancelRequested,
        }
    }
}

/// What the caller of a receive session is to do next.
#[derive(Debug)]
pub enum ReceiveCommand {
    /// Nothing: the session has ended.
    Idle,
    /// Create the output directory if it does not exist.
    EnsureOutputDir,
    /// Create the directory of this name inside the output directory.
    CreateReceivingDir { name: String },
    /// Open the connection to the sender.
    Connect { ticket: String, confirmation: u8, profile_name: String },
    /// Start receiving.
    Start,
    /// Wait one interval, then report whether the transfer has finished or
    /// was cancelled.
    Poll,
    /// Hand out the result: the transfer is complete.
    Complete,
    /// Stop serving and release what is held; end with this error.
    Abort(IrohError),
}

/// The mathematical value of a command.
pub enum ReceiveCommandView {
    Idle,
    EnsureOutputDir,
    CreateReceivingDir { name: Seq<char> },
    Connect { ticket: Seq<char>, confirmation: u8, profile_name: Seq<char> },
    Start,
    Poll,
    Complete,
    Abort(IrohErrorView),
}

impl View for ReceiveCommand {
    type V = ReceiveCommandView;

    open spec fn view(&self) -> ReceiveCommandView {
        match self {
            ReceiveCommand::Idle => ReceiveCommandView::Idle,
            ReceiveCommand::EnsureOutputDir => ReceiveCommandView::EnsureOutputDir,
            ReceiveCommand::CreateReceivingDir { name } => ReceiveCommandView::CreateReceivingDir {
                name: name@,
            },
            ReceiveCommand::Connect { ticket, confirmation, profile_name } => {
                ReceiveCommandView::Connect {
                    ticket: ticket@,
                    confirmation: *confirmation,
                    profile_name: profile_name@,
                }
            },
            ReceiveCommand::Start => ReceiveCommandView::Start,
            ReceiveCommand::Poll => ReceiveCommandView::Poll,
            ReceiveCommand::Complete => ReceiveCommandView::Complete,
            ReceiveCommand::Abort(e) => ReceiveCommandView::Abort(e@),
        }
    }
}

/// The mathematical value of a receive session.
pub struct ReceiveSessionView {
    pub stage: ReceiveStage,
    pub ticket: Seq<char>,
    pub confirmation: u8,
    pub started_at: u64,
}

/// The failed session and the command that reports the error.
pub open spec fn receive_abort(s: ReceiveSessionView, e: IrohErrorView) -> (
    ReceiveSessionView,
    ReceiveCommandView,
) {
    (ReceiveSessionView { stage: ReceiveStage::Failed, ..s }, ReceiveCommandView::Abort(e))
}

/// What a failed step of the negotiation is reported as.
pub open spec fn receive_step_error(stage: ReceiveStage, reason: Seq<char>) -> IrohErrorView {
    match stage {
        ReceiveStage::EnsuringOutputDir => IrohErrorView::DownloadError(
            "Failed to create output directory: "@ + reason,
        ),
        ReceiveStage::CreatingReceivingDir => IrohErrorView::DownloadError(
            "Failed to create receiving directory: "@ + reason,
        ),
        ReceiveStage::Connecting => IrohErrorView::DownloadError(
            "Failed to connect to sender: "@ + reason,
        ),
        ReceiveStage::Starting => IrohErrorView::DownloadError(
            "Failed to start receiving: "@ + reason,
        ),
        _ => IrohErrorView::DownloadError(reason),
    }
}

/// The transition function of a receive session.
///
/// A session that has ended ignores everything. A request to cancel ends
/// any other session as cancelled. Otherwise each stage accepts the
/// outcome of the command it gave, and anything else is a failure.
pub open spec fn receive_step(s: ReceiveSessionView, input: ReceiveInputView) -> (
    ReceiveSessionView,
    ReceiveCommandView,
) {
    if s.stage.state().terminal() {
        (s, ReceiveCommandView::Idle)
    } else if input is CancelRequested {
        (
            ReceiveSessionView { stage: ReceiveStage::Cancelled, ..s },
            ReceiveCommandView::Abort(IrohErrorView::Cancelled),
        )
    } else if input is StepFailed {
        receive_abort(s, receive_step_error(s.stage, input->reason))
    } else if s.stage == ReceiveStage::Created && input is Begin {
        match decode_spec(input->ticket) {
            None => receive_abort(s, IrohErrorView::InvalidTicket),
            Some(parts) => (
                ReceiveSessionView {
                    stage: ReceiveStage::EnsuringOutputDir,
                    ticket: parts.0,
                    confirmation: parts.1,
                    started_at: input->now_secs,
                },
                ReceiveCommandView::EnsureOutputDir,
            ),
        }
    } else if s.stage == ReceiveStage::EnsuringOutputDir && input is StepSucceeded {
        (
            ReceiveSessionView { stage: ReceiveStage::CreatingReceivingDir, ..s },
            ReceiveCommandView::CreateReceivingDir { name: receiving_dir_name_spec(s.started_at) },
        )
    } else if s.stage == ReceiveStage::CreatingReceivingDir && input is StepSucceeded {
        (
            ReceiveSessionView { stage: ReceiveStage::Connecting, ..s },
            ReceiveCommandView::Connect {
                ticket: s.ticket,
                confirmation: s.confirmation,
                profile_name: default_profile_name(),
            },
        )
    } else if s.stage == ReceiveStage::Connecting && input is StepSucceeded {
        (ReceiveSessionView { stage: ReceiveStage::Starting, ..s }, ReceiveCommandView::Start)
    } else if s.stage == ReceiveStage::Starting && input is StepSucceeded {
        (ReceiveSessionView { stage: ReceiveStage::Active, ..s }, ReceiveCommandView::Poll)
    } else if s.stage == ReceiveStage::Active && input is Polled {
        match poll_verdict_spec(input->finished, input->cancelled) {
            PollVerdict::Cancelled => (
                ReceiveSessionView { stage: ReceiveStage::Cancelled, ..s },
                ReceiveCommandView::Abort(IrohErrorView::Cancelled),
            ),
            PollVerdict::Finished => (
                ReceiveSessionView { stage: ReceiveStage::Completed, ..s },
                ReceiveCommandView::Complete,
            ),
            PollVerdict::Wait => (s, ReceiveCommandView::Poll),
        }
    } else {
        receive_abort(s, IrohErrorView::Unknown)
    }
}

/// One receive operation.
pub struct ReceiveSession {
    stage: ReceiveStage,
    ticket: String,
    confirmation: u8,
    started_at: u64,
}

impl View for ReceiveSession {
    type V = ReceiveSessionView;

    closed spec fn view(&self) -> ReceiveSessionView {
        ReceiveSessionView {
            stage: self.stage,
            ticket: self.ticket@,
            confirmation: self.confirmation,
            started_at: self.started_at,
        }
    }
}

impl ReceiveSession {
    /// The session before it is started.
    pub open spec fn created() -> ReceiveSessionView {
        ReceiveSessionView {
            stage: ReceiveStage::Created,
            ticket: Seq::empty(),
            confirmation: 0,
            started_at: 0,
        }
    }

    /// A session that has not been started.
    pub fn new() -> (s: Self)
        ensures
            s@ == Self::created(),
    {
        ReceiveSession {
            stage: ReceiveStage::Created,
            ticket: String::new(),
            confirmation: 0,
            started_at: 0,
        }
    }

    /// The lifecycle state.
    pub fn state(&self) -> (st: SessionState)
        ensures
            st == self@.stage.state(),
    {
        match self.stage {
            ReceiveStage::Created => SessionState::Created,
            ReceiveStage::EnsuringOutputDir => SessionState::Negotiating,
            ReceiveStage::CreatingReceivingDir => SessionState::Negotiating,
            ReceiveStage::Connecting => SessionState::Negotiating,
            ReceiveStage::Starting => SessionState::Negotiating,
            ReceiveStage::Active => SessionState::Active,
            ReceiveStage::Completed => SessionState::Completed,
            ReceiveStage::Cancelled => SessionState::Cancelled,
            ReceiveStage::Failed => SessionState::Failed,
        }
    }

    /// Whether the transfer completed. Once true, always true.
    pub fn is_finished(&self) -> (b: bool)
        ensures
            b == (self@.stage == ReceiveStage::Completed),
    {
        match self.stage {
            ReceiveStage::Completed => true,
            _ => false,
        }
    }

    /// Whether the transfer was cancelled. Once true, always true.
    pub fn is_cancelled(&self) -> (b: bool)
        ensures
            b == (self@.stage == ReceiveStage::Cancelled),
    {
        match self.stage {
            ReceiveStage::Cancelled => true,
            _ => false,
        }
    }

    /// Ends the session as failed.
    fn abort(&mut self, e: IrohError) -> (c: ReceiveCommand)
        ensures
            (final(self)@, c@) == receive_abort(old(self)@, e@),
    {
        self.stage = ReceiveStage::Failed;
        ReceiveCommand::Abort(e)
    }

    /// The error for a step of the negotiation that failed.
    fn step_error(&self, reason: String) -> (e: IrohError)
        ensures
            e@ == receive_step_error(self@.stage, reason@),
    {
        let prefix = match self.stage {
            ReceiveStage::EnsuringOutputDir => "Failed to create output directory: ",
            ReceiveStage::CreatingReceivingDir => "Failed to create receiving directory: ",
            ReceiveStage::Connecting => "Failed to connect to sender: ",
            ReceiveStage::Starting => "Failed to start receiving: ",
            _ => {
                return IrohError::DownloadError(reason);
            },
        };
        IrohError::DownloadError(String::from_str(prefix).concat(reason.as_str()))
    }

    /// Cancels the session. Safe at any time: on a session that has ended
    /// it changes nothing.
    pub fn cancel(&mut self) -> (c: ReceiveCommand)
        ensures
            (final(self)@, c@) == receive_step(old(self)@, ReceiveInputView::CancelRequested),
    {
        self.advance(ReceiveInput::CancelRequested)
    }

    /// Takes what the caller observed and answers with the next command.
    /// State and command are exactly those of `receive_step`.
    pub fn advance(&mut self, input: ReceiveInput) -> (c: ReceiveCommand)
        ensures
            (final(self)@, c@) == receive_step(old(self)@, input@),
    {
        if self.state().is_terminal() {
            return ReceiveCommand::Idle;
        }
        match input {
            ReceiveInput::CancelRequested => {
                self.stage = ReceiveStage::Cancelled;
                ReceiveCommand::Abort(IrohError::Cancelled)
            },
            ReceiveInput::StepFailed { reason } => {
                let e = self.step_error(reason);
                self.abort(e)
            },
            ReceiveInput::Begin { ticket, now_secs } => match self.stage {
                ReceiveStage::Created => match TicketWrapper::parse(ticket.as_str()) {
                    Err(e) => self.abort(e),
                    Ok((locator, confirmation)) => {
                        self.stage = ReceiveStage::EnsuringOutputDir;
                        self.ticket = locator;
                        self.confirmation = confirmation;
                        self.started_at = now_secs;
                        ReceiveCommand::EnsureOutputDir
                    },
                },
                _ => self.abort(IrohError::Unknown),
            },
            ReceiveInput::StepSucceeded => match self.stage {
                ReceiveStage::EnsuringOutputDir => {
                    self.stage = ReceiveStage::CreatingReceivingDir;
                    ReceiveCommand::CreateReceivingDir { name: receiving_dir_name(self.started_at) }
                },
                ReceiveStage::CreatingReceivingDir => {
                    self.stage = ReceiveStage::Connecting;
                    ReceiveCommand::Connect {
                        ticket: self.ticket.clone(),
                        confirmation: self.confirmation,
                        profile_name: String::from_str("Anonymous"),
                    }
                },
                ReceiveStage::Connecting => {
                    self.stage = ReceiveStage::Starting;
                    ReceiveCommand::Start
                },
                ReceiveStage::Starting => {
                    self.stage = ReceiveStage::Active;
                    ReceiveCommand::Poll
                },
                _ => self.abort(IrohError::Unknown),
            },
            ReceiveInput::Polled { finished, cancelled } => match self.stage {
                ReceiveStage::Active => match poll_verdict(finished, cancelled) {
                    PollVerdict::Cancelled => {
                        self.stage = ReceiveStage::Cancelled;
                        ReceiveCommand::Abort(IrohError::Cancelled)
                    },
                    PollVerdict::Finished => {
                        self.stage = ReceiveStage::Completed;
                        ReceiveCommand::Complete
                    },
                    PollVerdict::Wait => ReceiveCommand::Poll,
                },
                _ => self.abort(IrohError::Unknown),
            },
        }
    }
}

/// A receive session that has ended stays as it is, whatever it is told:
/// finished stays finished, cancelled stays cancelled.
pub proof fn lemma_receive_terminal_is_final(s: ReceiveSessionView, input: ReceiveInputView)
    requires
        s.stage.state().terminal(),
    ensures
        receive_step(s, input) == (s, ReceiveCommandView::Idle),
{
}

/// A poll that shows a cancellation never completes the session, and no
/// later input does.
pub proof fn lemma_receive_cancel_wins(
    s: ReceiveSessionView,
    finished: bool,
    later: ReceiveInputView,
)
    requires
        s.stage == ReceiveStage::Active,
    ensures
        receive_step(s, ReceiveInputView::Polled { finished, cancelled: true }).0.stage
            == ReceiveStage::Cancelled,
        receive_step(
            receive_step(s, ReceiveInputView::Polled { finished, cancelled: true }).0,
            later,
        ).0.stage == ReceiveStage::Cancelled,
{
}

/// Cancelling is idempotent: a second request changes nothing.
pub proof fn lemma_receive_cancel_idempotent(s: ReceiveSessionView)
    ensures
        receive_step(
            receive_step(s, ReceiveInputView::CancelRequested).0,
            ReceiveInputView::CancelRequested,
        ).0 == receive_step(s, ReceiveInputView::CancelRequested).0,
{
}

} // verus!

//! The sending side: checking what is to be sent, the lifecycle of a send
//! session, and the notices that go to the user interface while peers
//! download.

use crate::error::{IrohError, IrohErrorView};
use crate::metadata::{FileTransfer, FileTransferView};
use crate::session::{default_profile_name, SessionState};
use crate::text::{decimal_digits, push_decimal};
use crate::ticket::TicketWrapper;
use vstd::prelude::*;
use vstd::string::StringExecFns;

verus! {

// ---------------------------------------------------------------------
// Notices
// ---------------------------------------------------------------------
/// A line of text for the user interface.
#[derive(Debug, Clone)]
pub struct SendEvent {
    pub message: String,
}

/// What travels to the user interface: progress snapshots and notices.
#[derive(Debug)]
pub enum Event {
    Files(Vec<FileTransfer>),
    Send(SendEvent),
}

/// What the transfer engine reports while it serves a collection, in plain
/// values: connection ids and sizes as numbers, hashes and statistics in
/// their textual form.
#[derive(Debug, Clone)]
pub enum ProviderEvent {
    ClientConnected { connection_id: u64 },
    TransferBlobCompleted { connection_id: u64, hash: String, index: u64, size: u64 },
    TransferCompleted { connection_id: u64, stats: String },
    TransferAborted { connection_id: u64 },
    /// Any other report; it gives no notice.
    Other,
}

/// The mathematical value of an engine report.
pub enum ProviderEventView {
    ClientConnected { connection_id: u64 },
    TransferBlobCompleted { connection_id: u64, hash: Seq<char>, index: u64, size: u64 },
    TransferCompleted { connection_id: u64, stats: Seq<char> },
    TransferAborted { connection_id: u64 },
    Other,
}

impl View for ProviderEvent {
    type V = ProviderEventView;

    open spec fn view(&self) -> ProviderEventView {
        match self {
            ProviderEvent::ClientConnected { connection_id } => ProviderEventView::ClientConnected {
                connection_id: *connection_id,
            },
            ProviderEvent::TransferBlobCompleted { connection_id, hash, index, size } => {
                ProviderEventView::TransferBlobCompleted {
                    connection_id: *connection_id,
                    hash: hash@,
                    index: *index,
                    size: *size,
                }
            },
            ProviderEvent::TransferCompleted { connection_id, stats } => {
                ProviderEventView::TransferCompleted {
                    connection_id: *connection_id,
                    stats: stats@,
                }
            },
            ProviderEvent::TransferAborted { connection_id } => ProviderEventView::TransferAborted {
                connection_id: *connection_id,
            },
            ProviderEvent::Other => ProviderEventView::Other,
        }
    }
}

/// The notice that an engine report gives, if it gives one.
pub open spec fn notice_spec(e: ProviderEventView) -> Option<Seq<char>> {
    match e {
        ProviderEventView::ClientConnected { connection_id } => Some(
            decimal_digits(connection_id as nat) + " client connected"@,
        ),
        ProviderEventView::TransferBlobCompleted { connection_id, hash, index, size } => Some(
            decimal_digits(connection_id as nat) + " transfer blob completed "@ + hash + " "@
                + decimal_digits(index as nat) + " "@ + decimal_digits(size as nat),
        ),
        ProviderEventView::TransferCompleted { connection_id, stats } => Some(
            decimal_digits(connection_id as nat) + " transfer completed "@ + stats,
        ),
        ProviderEventView::TransferAborted { connection_id } => Some(
            decimal_digits(connection_id as nat) + " transfer aborted"@,
        ),
        ProviderEventView::Other => None,
    }
}

/// The notice that an engine report gives, if it gives one.
pub fn notice(event: &ProviderEvent) -> (r: Option<SendEvent>)
    ensures
        match r {
            Some(n) => notice_spec(event@) == Some(n.message@),
            None => notice_spec(event@) is None,
        },
{
    let mut message = String::new();
    match event {
        ProviderEvent::ClientConnected { connection_id } => {
            push_decimal(&mut message, *connection_id);
            message.append(" client connected");
        },
        ProviderEvent::TransferBlobCompleted { connection_id, hash, index, size } => {
            push_decimal(&mut message, *connection_id);
            message.append(" transfer blob completed ");
            message.append(hash.as_str());
            message.append(" ");
            push_decimal(&mut message, *index);
            message.append(" ");
            push_decimal(&mut message, *size);
        },
        ProviderEvent::TransferCompleted { connection_id, stats } => {
            push_decimal(&mut message, *connection_id);
            message.append(" transfer completed ");
            message.append(stats.as_str());
        },
        ProviderEvent::TransferAborted { connection_id } => {
            push_decimal(&mut message, *connection_id);
            message.append(" transfer aborted");
        },
        ProviderEvent::Other => {
            return None;
        },
    }
    assert(notice_spec(event@) is Some);
    assert(message@ =~= notice_spec(event@)->0);
    Some(SendEvent { message })
}

/// The total of a file that is being sent: what was sent and what remains,
/// or the largest count there is where the two add up to more.
pub open spec fn sending_total(sent: u64, remaining: u64) -> u64 {
    if sent + remaining <= u64::MAX {
        (sent + remaining) as u64
    } else {
        u64::MAX
    }
}

/// The progress record for a file that is being sent: what was sent, out
/// of what was sent and what remains. Every input is taken, and the record
/// never shows more sent than its total.
pub fn sending_progress(name: String, sent: u64, remaining: u64) -> (r: FileTransfer)
    ensures
        r@ == (FileTransferView {
            name: name@,
            transferred: sent,
            total: sending_total(sent, remaining),
        }),
        r.transferred <= r.total,
{
    FileTransfer { name, transferred: sent, total: sent.saturating_add(remaining) }
}

// ---------------------------------------------------------------------
// What is to be sent
// ---------------------------------------------------------------------
/// What the file system says of one path that is to be sent.
#[derive(Debug)]
pub struct SenderPath {
    /// The path as it is shown to the user.
    pub display: String,
    /// Whether anything exists at the path.
    pub exists: bool,
    /// Whether it is a regular file.
    pub is_file: bool,
    /// The last component of the path, if it has one.
    pub file_name: Option<String>,
    /// The file's length, or why it could not be had.
    pub length: Result<u64, String>,
}

/// The mathematical value of a `SenderPath`.
pub struct SenderPathView {
    pub display: Seq<char>,
    pub exists: bool,
    pub is_file: bool,
    pub file_name: Option<Seq<char>>,
    pub length: Result<u64, Seq<char>>,
}

impl View for SenderPath {
    type V = SenderPathView;

    open spec fn view(&self) -> SenderPathView {
        SenderPathView {
            display: self.display@,
            exists: self.exists,
            is_file: self.is_file,
            file_name: match self.file_name {
                Some(n) => Some(n@),
                None => None,
            },
            length: match self.length {
                Ok(n) => Ok(n),
                Err(e) => Err(e@),
            },
        }
    }
}

impl DeepView for SenderPath {
    type V = SenderPathView;

    open spec fn deep_view(&self) -> SenderPathView {
        self@
    }
}

/// A file that passed every check: its name in the collection and its
/// length.
#[derive(Debug, Clone)]
pub struct SenderFile {
    pub name: String,
    pub len: u64,
}

/// The mathematical value of a `SenderFile`.
pub struct SenderFileView {
    pub name: Seq<char>,
    pub len: u64,
}

impl View for SenderFile {
    type V = SenderFileView;

    open spec fn view(&self) -> SenderFileView {
        SenderFileView { name: self.name@, len: self.len }
    }
}

impl DeepView for SenderFile {
    type V = SenderFileView;

    open spec fn deep_view(&self) -> SenderFileView {
        self@
    }
}

/// Why a path cannot be sent at all: nothing is there, or it is no regular
/// file.
pub open spec fn access_error(p: SenderPathView) -> Option<IrohErrorView> {
    if !p.exists {
        Some(IrohErrorView::NodeError("File does not exist: "@ + p.display))
    } else if !p.is_file {
        Some(IrohErrorView::NodeError("Path is not a file: "@ + p.display))
    } else {
        None
    }
}

/// Why a path that is a file cannot be taken in: it has no file name, or
/// its length could not be had.
pub open spec fn ingest_error(p: SenderPathView) -> Option<IrohErrorView> {
    if p.file_name is None {
        Some(IrohErrorView::NodeError("Invalid file name"@))
    } else {
        match p.length {
            Err(reason) => Some(
                IrohErrorView::NodeError("Failed to get file metadata: "@ + reason),
            ),
            Ok(_) => None,
        }
    }
}

/// The first access error among the paths, in order.
pub open spec fn first_access_error(paths: Seq<SenderPathView>) -> Option<IrohErrorView>
    decreases paths.len(),
{
    if paths.len() == 0 {
        None
    } else if access_error(paths[0]) is Some {
        access_error(paths[0])
    } else {
        first_access_error(paths.drop_first())
    }
}

/// The first ingest error among the paths, in order.
pub open spec fn first_ingest_error(paths: Seq<SenderPathView>) -> Option<IrohErrorView>
    decreases paths.len(),
{
    if paths.len() == 0 {
        None
    } else if ingest_error(paths[0]) is Some {
        ingest_error(paths[0])
    } else {
        first_ingest_error(paths.drop_first())
    }
}

/// The files that the paths stand for, where every path passed.
pub open spec fn sender_files(paths: Seq<SenderPathView>) -> Seq<SenderFileView> {
    paths.map_values(
        |p: SenderPathView| SenderFileView { name: p.file_name->0, len: p.length->Ok_0 },
    )
}

/// What is to be sent, or why nothing is: an empty list is refused; then
/// the first path that does not exist or is no file; then the first path
/// without a file name or length. Otherwise one file per path, in order.
pub open spec fn check_paths_spec(paths: Seq<SenderPathView>) -> Result<
    Seq<SenderFileView>,
    IrohErrorView,
> {
    if paths.len() == 0 {
        Err(IrohErrorView::NodeError("Cannot send an empty list of files"@))
    } else if first_access_error(paths) is Some {
        Err(first_access_error(paths)->0)
    } else if first_ingest_error(paths) is Some {
        Err(first_ingest_error(paths)->0)
    } else {
        Ok(sender_files(paths))
    }
}

/// Where no path has an access error, there is no first one; and the
/// other way round.
pub proof fn lemma_first_access_error(paths: Seq<SenderPathView>)
    ensures
        first_access_error(paths) is None <==> forall|i: int|
            0 <= i < paths.len() ==> access_error(#[trigger] paths[i]) is None,
    decreases paths.len(),
{
    if paths.len() > 0 {
        let rest = paths.drop_first();
        lemma_first_access_error(rest);
        if access_error(paths[0]) is None {
            if first_access_error(rest) is None {
                assert forall|i: int| 0 <= i < paths.len() implies access_error(
                    #[trigger] paths[i],
                ) is None by {
                    if i > 0 {
                        assert(paths[i] == rest[i - 1]);
                    }
                }
            } else {
                let j = choose|j: int| 0 <= j < rest.len() && !(access_error(rest[j]) is None);
                assert(paths[j + 1] == rest[j]);
            }
        }
    }
}

/// Where no path has an ingest error, there is no first one; and the other
/// way round.
pub proof fn lemma_first_ingest_error(paths: Seq<SenderPathView>)
    ensures
        first_ingest_error(paths) is None <==> forall|i: int|
            0 <= i < paths.len() ==> ingest_error(#[trigger] paths[i]) is None,
    decreases paths.len(),
{
    if paths.len() > 0 {
        let rest = paths.drop_first();
        lemma_first_ingest_error(rest);
        if ingest_error(paths[0]) is None {
            if first_ingest_error(rest) is None {
                assert forall|i: int| 0 <= i < paths.len() implies ingest_error(
                    #[trigger] paths[i],
                ) is None by {
                    if i > 0 {
                        assert(paths[i] == rest[i - 1]);
                    }
                }
            } else {
                let j = choose|j: int| 0 <= j < rest.len() && !(ingest_error(rest[j]) is None);
                assert(paths[j + 1] == rest[j]);
            }
        }
    }
}

/// The access error of one path.
fn access_error_of(p: &SenderPath) -> (r: Option<IrohError>)
    ensures
        match r {
            Some(e) => access_error(p@) == Some(e@),
            None => access_error(p@) is None,
        },
{
    if !p.exists {
        Some(
            IrohError::NodeError(
                String::from_str("File does not exist: ").concat(p.display.as_str()),
            ),
        )
    } else if !p.is_file {
        Some(
            IrohError::NodeError(String::from_str("Path is not a file: ").concat(p.display.as_str())),
        )
    } else {
        None
    }
}

/// The file that one path stands for, or its ingest error.
fn ingest(p: &SenderPath) -> (r: Result<SenderFile, IrohError>)
    ensures
        match r {
            Ok(f) => ingest_error(p@) is None && f@ == (SenderFileView {
                name: p@.file_name->0,
                len: p@.length->Ok_0,
            }),
            Err(e) => ingest_error(p@) == Some(e@),
        },
{
    match &p.file_name {
        None => Err(IrohError::NodeError(String::from_str("Invalid file name"))),
        Some(name) => match &p.length {
            Err(reason) => Err(
                IrohError::NodeError(
                    String::from_str("Failed to get file metadata: ").concat(reason.as_str()),
                ),
            ),
            Ok(len) => Ok(SenderFile { name: name.clone(), len: *len }),
        },
    }
}

/// Checks what is to be sent, before anything is exposed to the network.
/// The result is exactly that of `check_paths_spec`.
pub fn check_paths(paths: &Vec<SenderPath>) -> (r: Result<Vec<SenderFile>, IrohError>)
    ensures
        match r {
            Ok(files) => check_paths_spec(paths.deep_view()) == Ok::<
                Seq<SenderFileView>,
                IrohErrorView,
            >(files.deep_view()),
            Err(e) => check_paths_spec(paths.deep_view()) == Err::<
                Seq<SenderFileView>,
                IrohErrorView,
            >(e@),
        },
{
    let ghost all = paths.deep_view();
    if paths.len() == 0 {
        return Err(IrohError::NodeError(String::from_str("Cannot send an empty list of files")));
    }
    let mut i: usize = 0;
    assert(all.skip(0) =~= all);
    while i < paths.len()
        invariant
            i <= paths.len(),
            all == paths.deep_view(),
            first_access_error(all) == first_access_error(all.skip(i as int)),
        decreases paths.len() - i,
    {
        assert(all.skip(i as int)[0] == paths@[i as int]@);
        assert(all.skip(i as int).drop_first() =~= all.skip(i + 1));
        match access_error_of(&paths[i]) {
            Some(e) => {
                return Err(e);
            },
            None => {},
        }
        i = i + 1;
    }
    assert(all.skip(i as int).len() == 0);
    let mut files: Vec<SenderFile> = Vec::new();
    let mut k: usize = 0;
    while k < paths.len()
        invariant
            k <= paths.len(),
            all == paths.deep_view(),
            all.len() > 0,
            first_access_error(all) is None,
            first_ingest_error(all) == first_ingest_error(all.skip(k as int)),
            files.deep_view() == sender_files(all).subrange(0, k as int),
        decreases paths.len() - k,
    {
        assert(all.skip(k as int)[0] == paths@[k as int]@);
        assert(all.skip(k as int).drop_first() =~= all.skip(k + 1));
        match ingest(&paths[k]) {
            Err(e) => {
                return Err(e);
            },
            Ok(file) => {
                let ghost before = files.deep_view();
                files.push(file);
                assert(files.deep_view() =~= before.push(file@));
                assert(files.deep_view() =~= sender_files(all).subrange(0, k + 1));
            },
        }
        k = k + 1;
    }
    assert(all.skip(k as int).len() == 0);
    assert(sender_files(all).subrange(0, k as int) =~= sender_files(all));
    Ok(files)
}

// ---------------------------------------------------------------------
// The send session
// ---------------------------------------------------------------------
/// Where a send session stands.
#[derive(Debug, Clone, Copy, PartialEq, Eq, Structural)]
pub enum SendStage {
    Created,
    Sharing,
    Active,
    Completed,
    Cancelled,
    Failed,
}

impl SendStage {
    /// The lifecycle state that this stage belongs to.
    pub open spec fn state(self) -> SessionState {
        match self {
            SendStage::Created => SessionState::Created,
            SendStage::Sharing => SessionState::Negotiating,
            SendStage::Active => SessionState::Active,
            SendStage::Completed => SessionState::Completed,
            SendStage::Cancelled => SessionState::Cancelled,
            SendStage::Failed => SessionState::Failed,
        }
    }
}

/// What the caller tells a send session.
#[derive(Debug)]
pub enum SendInput {
    /// Start, with what the file system says of each path.
    Begin { paths: Vec<SenderPath> },
    /// The collection is shared: the engine's locator and confirmation.
    Shared { locator: String, confirmation: u8 },
    /// The engine could not share the collection.
    ShareFailed { reason: String },
    /// What a poll of the transfer showed.
    Polled { finished: bool },
    /// The user asked to cancel.
    CancelRequested,
}

/// The mathematical value of an input.
pub enum SendInputView {
    Begin { paths: Seq<SenderPathView> },
    Shared { locator: Seq<char>, confirmation: u8 },
    ShareFailed { reason: Seq<char> },
    Polled { finished: bool },
    CancelRequested,
}

impl View for SendInput {
    type V = SendInputView;

    open spec fn view(&self) -> SendInputView {
        match self {
            SendInput::Begin { paths } => SendInputView::Begin { paths: paths.deep_view() },
            SendInput::Shared { locator, confirmation } => SendInputView::Shared {
                locator: locator@,
                confirmation: *confirmation,
            },
            SendInput::ShareFailed { reason } => SendInputView::ShareFailed { reason: reason@ },
            SendInput::Polled { finished } => SendInputView::Polled { finished: *finished },
            SendInput::CancelRequested => SendInputView::CancelRequested,
        }
    }
}

/// What the caller of a send session is to do next.
#[derive(Debug)]
pub enum SendCommand {
    /// Nothing: the session has ended.
    Idle,
    /// Import these files and share them as one collection.
    Share { files: Vec<SenderFile>, profile_name: String },
    /// Hand this ticket out, keep serving, and poll.
    Publish { ticket: TicketWrapper },
    /// Wait one interval, then report whether the transfer has finished.
    Poll,
    /// Release what is held: every peer is served.
    Complete,
    /// Stop serving and release what is held; end with this error.
    Abort(IrohError),
}

/// The mathematical value of a command.
pub enum SendCommandView {
    Idle,
    Share { files: Seq<SenderFileView>, profile_name: Seq<char> },
    Publish { locator: Seq<char>, confirmation: u8 },
    Poll,
    Complete,
    Abort(IrohErrorView),
}

impl View for SendCommand {
    type V = SendCommandView;

    open spec fn view(&self) -> SendCommandView {
        match self {
            SendCommand::Idle => SendCommandView::Idle,
            SendCommand::Share { files, profile_name } => SendCommandView::Share {
                files: files.deep_view(),
                profile_name: profile_name@,
            },
            SendCommand::Publish { ticket } => SendCommandView::Publish {
                locator: ticket.locator_spec(),
                confirmation: ticket.confirmation_spec(),
            },
            SendCommand::Poll => SendCommandView::Poll,
            SendCommand::Complete => SendCommandView::Complete,
            SendCommand::Abort(e) => SendCommandView::Abort(e@),
        }
    }
}

/// The failed stage and the command that reports the error.
pub open spec fn send_abort(e: IrohErrorView) -> (SendStage, SendCommandView) {
    (SendStage::Failed, SendCommandView::Abort(e))
}

/// The transition function of a send session.
///
/// A session that has ended ignores everything. A request to cancel ends
/// any other session as cancelled. Otherwise each stage accepts the
/// outcome of the command it gave, and anything else is a failure.
pub open spec fn send_step(stage: SendStage, input: SendInputView) -> (SendStage, SendCommandView) {
    if stage.state().terminal() {
        (stage, SendCommandView::Idle)
    } else if input is CancelRequested {
        (SendStage::Cancelled, SendCommandView::Abort(IrohErrorView::Cancelled))
    } else if stage == SendStage::Created && input is Begin {
        match check_paths_spec(input->paths) {
            Err(e) => send_abort(e),
            Ok(files) => (
                SendStage::Sharing,
                SendCommandView::Share { files, profile_name: default_profile_name() },
            ),
        }
    } else if stage == SendStage::Sharing && input is Shared {
        (
            SendStage::Active,
            SendCommandView::Publish {
                locator: input->locator,
                confirmation: input->confirmation,
            },
        )
    } else if stage == SendStage::Sharing && input is ShareFailed {
        send_abort(IrohErrorView::NodeError(input->reason))
    } else if stage == SendStage::Active && input is Polled {
        if input->finished {
            (SendStage::Completed, SendCommandView::Complete)
        } else {
            (SendStage::Active, SendCommandView::Poll)
        }
    } else {
        send_abort(IrohErrorView::Unknown)
    }
}

/// One send operation.
pub struct SendSession {
    stage: SendStage,
}

impl View for SendSession {
    type V = SendStage;

    closed spec fn view(&self) -> SendStage {
        self.stage
    }
}

impl SendSession {
    /// A session that has not been started.
    pub fn new() -> (s: Self)
        ensures
            s@ == SendStage::Created,
    {
        SendSession { stage: SendStage::Created }
    }

    /// The lifecycle state.
    pub fn state(&self) -> (st: SessionState)
        ensures
            st == self@.state(),
    {
        match self.stage {
            SendStage::Created => SessionState::Created,
            SendStage::Sharing => SessionState::Negotiating,
            SendStage::Active => SessionState::Active,
            SendStage::Completed => SessionState::Completed,
            SendStage::Cancelled => SessionState::Cancelled,
            SendStage::Failed => SessionState::Failed,
        }
    }

    /// Whether every peer was served. Once true, always true.
    pub fn is_finished(&self) -> (b: bool)
        ensures
            b == (self@ == SendStage::Completed),
    {
        match self.stage {
            SendStage::Completed => true,
            _ => false,
        }
    }

    /// Whether the session was cancelled. Once true, always true.
    pub fn is_cancelled(&self) -> (b: bool)
        ensures
            b == (self@ == SendStage::Cancelled),
    {
        match self.stage {
            SendStage::Cancelled => true,
            _ => false,
        }
    }

    /// Ends the session as failed.
    fn abort(&mut self, e: IrohError) -> (c: SendCommand)
        ensures
            (final(self)@, c@) == send_abort(e@),
    {
        self.stage = SendStage::Failed;
        SendCommand::Abort(e)
    }

    /// Cancels the session. Safe at any time: on a session that has ended
    /// it changes nothing.
    pub fn cancel(&mut self) -> (c: SendCommand)
        ensures
            (final(self)@, c@) == send_step(old(self)@, SendInputView::CancelRequested),
    {
        self.advance(SendInput::CancelRequested)
    }

    /// Takes what the caller observed and answers with the next command.
    /// Stage and command are exactly those of `send_step`.
    pub fn advance(&mut self, input: SendInput) -> (c: SendCommand)
        ensures
            (final(self)@, c@) == send_step(old(self)@, input@),
    {
        if self.state().is_terminal() {
            return SendCommand::Idle;
        }
        match input {
            SendInput::CancelRequested => {
                self.stage = SendStage::Cancelled;
                SendCommand::Abort(IrohError::Cancelled)
            },
            SendInput::Begin { paths } => match self.stage {
                SendStage::Created => match check_paths(&paths) {
                    Err(e) => self.abort(e),
                    Ok(files) => {
                        self.stage = SendStage::Sharing;
                        SendCommand::Share { files, profile_name: String::from_str("Anonymous") }
                    },
                },
                _ => self.abort(IrohError::Unknown),
            },
            SendInput::Shared { locator, confirmation } => match self.stage {
                SendStage::Sharing => {
                    self.stage = SendStage::Active;
                    SendCommand::Publish { ticket: TicketWrapper::new(locator, confirmation) }
                },
                _ => self.abort(IrohError::Unknown),
            },
            SendInput::ShareFailed { reason } => match self.stage {
                SendStage::Sharing => self.abort(IrohError::NodeError(reason)),
                _ => self.abort(IrohError::Unknown),
            },
            SendInput::Polled { finished } => match self.stage {
                SendStage::Active => {
                    if finished {
                        self.stage = SendStage::Completed;
                        SendCommand::Complete
                    } else {
                        SendCommand::Poll
                    }
                },
                _ => self.abort(IrohError::Unknown),
            },
        }
    }
}

/// A send session that has ended stays as it is, whatever it is told.
pub proof fn lemma_send_terminal_is_final(stage: SendStage, input: SendInputView)
    requires
        stage.state().terminal(),
    ensures
        send_step(stage, input) == (stage, SendCommandView::Idle),
{
}

/// Nothing is shared before every path has passed: a session leaves
/// `Created` for `Sharing` only with a non-empty list of paths that all
/// exist, are regular files, and have a name and a length.
pub proof fn lemma_send_checks_first(paths: Seq<SenderPathView>)
    requires
        send_step(SendStage::Created, SendInputView::Begin { paths }).0 == SendStage::Sharing,
    ensures
        paths.len() > 0,
        forall|i: int|
            0 <= i < paths.len() ==> access_error(#[trigger] paths[i]) is None && ingest_error(
                paths[i],
            ) is None,
{
    lemma_first_access_error(paths);
    lemma_first_ingest_error(paths);
}

} // verus!

//! Progress reconciliation: folding the transport's low-level events into a
//! table of named per-file progress records.
//!
//! The reconciler does no I/O. It is a state machine: `step` takes one event
//! and answers with an action. Where the action asks for a store read, the
//! caller performs it and hands the outcome back as the next event.

use crate::collection::Collection;
use crate::error::{IrohError, IrohErrorView};
use crate::metadata::{
    decode_spec, hash_sequence_length_ok, CollectionMetadata, FileTransfer, FileTransferView,
    MetadataError,
};
use std::collections::HashMap;
use vstd::prelude::*;
use vstd::std_specs::hash::group_hash_axioms;
use vstd::string::StringExecFns;

verus! {

broadcast use group_hash_axioms;

/// Where the reconciler stands.
#[derive(Debug, Clone, Copy, PartialEq, Eq, Structural)]
pub enum Phase {
    /// Taking transport events.
    Streaming,
    /// Waiting for the hash sequence that was asked for.
    AwaitingHashSequence,
    /// Waiting for the metadata blob that was asked for.
    AwaitingMetadata,
    /// Waiting for the final collection listing.
    AwaitingListing,
    /// The final snapshot was emitted.
    Finished,
    /// A fatal error was reported.
    Failed,
}

/// One line of the store's final collection listing.
#[derive(Debug, Clone)]
pub struct ListingEntry {
    pub name: String,
    pub hash: String,
    pub size: u64,
}

/// The mathematical value of a listing line.
pub struct ListingEntryView {
    pub name: Seq<char>,
    pub hash: Seq<char>,
    pub size: u64,
}

impl View for ListingEntry {
    type V = ListingEntryView;

    open spec fn view(&self) -> ListingEntryView {
        ListingEntryView { name: self.name@, hash: self.hash@, size: self.size }
    }
}

impl DeepView for ListingEntry {
    type V = ListingEntryView;

    open spec fn deep_view(&self) -> ListingEntryView {
        self@
    }
}

/// What the reconciler is told: the transport's events, the end of the
/// stream, and the outcomes of the store reads it asked for.
#[derive(Debug, Clone)]
pub enum TransferEvent {
    /// The transport found the collection's hash sequence.
    HashSequenceFound { hash: String },
    /// The hash sequence that was asked for, parsed.
    HashSequenceLoaded { hashes: Vec<String> },
    /// The metadata blob that was asked for.
    MetadataLoaded { bytes: Vec<u8> },
    /// A sub-blob is about to be transferred.
    ItemFound { id: u64, hash: String, size: u64 },
    /// A sub-blob has been transferred up to `offset`.
    Progress { id: u64, offset: u64 },
    /// A sub-blob is complete.
    ItemDone { id: u64 },
    /// A sub-blob is already present locally.
    LocalFound { hash: String, size: u64 },
    /// The transport reports that everything is done.
    AllDone,
    /// The event stream ended.
    StreamEnded,
    /// The final collection listing that was asked for.
    ListingLoaded { entries: Vec<ListingEntry> },
    /// A store read failed.
    StoreFailed { reason: String },
    /// Any event the reconciler has no use for.
    Other,
}

/// The mathematical value of an event.
pub enum TransferEventView {
    HashSequenceFound { hash: Seq<char> },
    HashSequenceLoaded { hashes: Seq<Seq<char>> },
    MetadataLoaded { bytes: Seq<u8> },
    ItemFound { id: u64, hash: Seq<char>, size: u64 },
    Progress { id: u64, offset: u64 },
    ItemDone { id: u64 },
    LocalFound { hash: Seq<char>, size: u64 },
    AllDone,
    StreamEnded,
    ListingLoaded { entries: Seq<ListingEntryView> },
    StoreFailed { reason: Seq<char> },
    Other,
}

impl View for TransferEvent {
    type V = TransferEventView;

    open spec fn view(&self) -> TransferEventView {
        match self {
            TransferEvent::HashSequenceFound { hash } => TransferEventView::HashSequenceFound {
                hash: hash@,
            },
            TransferEvent::HashSequenceLoaded { hashes } => TransferEventView::HashSequenceLoaded {
                hashes: hashes.deep_view(),
            },
            TransferEvent::MetadataLoaded { bytes } => TransferEventView::MetadataLoaded {
                bytes: bytes@,
            },
            TransferEvent::ItemFound { id, hash, size } => TransferEventView::ItemFound {
                id: *id,
                hash: hash@,
                size: *size,
            },
            TransferEvent::Progress { id, offset } => TransferEventView::Progress {
                id: *id,
                offset: *offset,
            },
            TransferEvent::ItemDone { id } => TransferEventView::ItemDone { id: *id },
            TransferEvent::LocalFound { hash, size } => TransferEventView::LocalFound {
                hash: hash@,
                size: *size,
            },
            TransferEvent::AllDone => TransferEventView::AllDone,
            TransferEvent::StreamEnded => TransferEventView::StreamEnded,
            TransferEvent::ListingLoaded { entries } => TransferEventView::ListingLoaded {
                entries: entries.deep_view(),
            },
            TransferEvent::StoreFailed { reason } => TransferEventView::StoreFailed {
                reason: reason@,
            },
            TransferEvent::Other => TransferEventView::Other,
        }
    }
}

/// What the caller is to do after an event.
#[derive(Debug)]
pub enum Action {
    /// Nothing: the event changed nothing that a consumer can see.
    Nothing,
    /// Forward this snapshot of the table to the sink.
    Emit(Vec<FileTransfer>),
    /// Read the blob at this hash, parse it as a hash sequence, and answer
    /// with `HashSequenceLoaded`.
    FetchHashSequence(String),
    /// Read the blob at this hash and answer with `MetadataLoaded`.
    FetchMetadata(String),
    /// Read the final collection listing and answer with `ListingLoaded`.
    FetchListing,
    /// Forward the final snapshot and end the session with this result.
    Finish(Vec<FileTransfer>, Collection),
    /// End the session with this error.
    Fail(IrohError),
}

/// The mathematical value of an action.
pub enum ActionView {
    Nothing,
    Emit(Seq<FileTransferView>),
    FetchHashSequence(Seq<char>),
    FetchMetadata(Seq<char>),
    FetchListing,
    Finish(Seq<FileTransferView>, Seq<(Seq<char>, Seq<char>)>),
    Fail(IrohErrorView),
}

impl View for Action {
    type V = ActionView;

    open spec fn view(&self) -> ActionView {
        match self {
            Action::Nothing => ActionView::Nothing,
            Action::Emit(files) => ActionView::Emit(files.deep_view()),
            Action::FetchHashSequence(hash) => ActionView::FetchHashSequence(hash@),
            Action::FetchMetadata(hash) => ActionView::FetchMetadata(hash@),
            Action::FetchListing => ActionView::FetchListing,
            Action::Finish(files, collection) => ActionView::Finish(
                files.deep_view(),
                collection@,
            ),
            Action::Fail(e) => ActionView::Fail(e@),
        }
    }
}

/// The mathematical value of the reconciler.
pub struct ReconcilerView {
    pub phase: Phase,
    /// The hash sequence, once loaded: the metadata blob's hash, then one
    /// hash per file.
    pub hash_sequence: Option<Seq<Seq<char>>>,
    /// The file names from the metadata, once loaded.
    pub names: Option<Seq<Seq<char>>>,
    /// The name each transport id was resolved to.
    pub id_to_name: Map<u64, Seq<char>>,
    /// The progress table.
    pub files: Seq<FileTransferView>,
}

/// How a content hash resolves against hash sequence and metadata.
pub enum Resolution {
    /// Hash sequence or metadata is not known yet, or the hash is not in
    /// the sequence.
    Missing,
    /// The hash is in the sequence but stands for no file: it is the
    /// metadata blob, or it lies beyond the names.
    NotAFile,
    /// The hash stands for the file of this name.
    File(Seq<char>),
}

/// Resolves `hash` to a file name: the name at the hash's first position in
/// the sequence, less one for the metadata blob at position 0.
pub open spec fn resolve(
    hash_sequence: Option<Seq<Seq<char>>>,
    names: Option<Seq<Seq<char>>>,
    hash: Seq<char>,
) -> Resolution {
    if hash_sequence is None || names is None {
        Resolution::Missing
    } else {
        match hash_sequence->0.index_of_first(hash) {
            None => Resolution::Missing,
            Some(p) => if 1 <= p <= names->0.len() {
                Resolution::File(names->0[p - 1])
            } else {
                Resolution::NotAFile
            },
        }
    }
}

/// The names of the table's records, in order.
pub open spec fn record_names(files: Seq<FileTransferView>) -> Seq<Seq<char>> {
    files.map_values(|f: FileTransferView| f.name)
}

/// Index of the first record of the given name.
pub open spec fn find_record(files: Seq<FileTransferView>, name: Seq<char>) -> Option<int> {
    record_names(files).index_of_first(name)
}

/// The table with `transferred` of the first record named `name` set to
/// `offset`; the table itself when there is no such record.
pub open spec fn set_transferred(
    files: Seq<FileTransferView>,
    name: Seq<char>,
    offset: u64,
) -> Seq<FileTransferView> {
    match find_record(files, name) {
        Some(i) => files.update(i, FileTransferView { transferred: offset, ..files[i] }),
        None => files,
    }
}

/// The table with the first record named `name` snapped to completion.
pub open spec fn set_complete(files: Seq<FileTransferView>, name: Seq<char>) -> Seq<
    FileTransferView,
> {
    match find_record(files, name) {
        Some(i) => files.update(i, FileTransferView { transferred: files[i].total, ..files[i] }),
        None => files,
    }
}

/// The table with the first record named `name` complete at `size` bytes.
pub open spec fn set_local(files: Seq<FileTransferView>, name: Seq<char>, size: u64) -> Seq<
    FileTransferView,
> {
    match find_record(files, name) {
        Some(i) => files.update(
            i,
            FileTransferView { transferred: size, total: size, ..files[i] },
        ),
        None => files,
    }
}

/// The table that a final listing stands for: every file complete.
pub open spec fn completed(entries: Seq<ListingEntryView>) -> Seq<FileTransferView> {
    entries.map_values(
        |e: ListingEntryView| FileTransferView { name: e.name, transferred: e.size, total: e.size },
    )
}

/// The (name, hash) pairs of a final listing.
pub open spec fn listing_pairs(entries: Seq<ListingEntryView>) -> Seq<(Seq<char>, Seq<char>)> {
    entries.map_values(|e: ListingEntryView| (e.name, e.hash))
}

/// The error for an event that the current phase has no place for.
pub open spec fn protocol_violation() -> IrohErrorView {
    IrohErrorView::DownloadError("event does not fit the state of the transfer"@)
}

/// The error for an item whose hash resolves to nothing.
pub open spec fn unresolved_item() -> IrohErrorView {
    IrohErrorView::DownloadError("item found before its hash sequence was resolved"@)
}

/// The error for an item under an id that was resolved to a name before:
/// an id stands for one name for the whole session.
pub open spec fn reused_id() -> IrohErrorView {
    IrohErrorView::DownloadError("item found under an id that is already in use"@)
}

/// The error for a hash sequence without even the metadata blob's hash.
pub open spec fn empty_hash_sequence() -> IrohErrorView {
    IrohErrorView::InvalidMetadata("hash sequence is empty"@)
}

/// The state after a fatal error, and the action that reports it.
pub open spec fn fail(s: ReconcilerView, e: IrohErrorView) -> (ReconcilerView, ActionView) {
    (ReconcilerView { phase: Phase::Failed, ..s }, ActionView::Fail(e))
}

/// One transition while streaming.
pub open spec fn step_streaming(s: ReconcilerView, e: TransferEventView) -> (
    ReconcilerView,
    ActionView,
) {
    match e {
        TransferEventView::HashSequenceFound { hash } => (
            ReconcilerView {
                phase: Phase::AwaitingHashSequence,
                hash_sequence: None,
                names: None,
                ..s
            },
            ActionView::FetchHashSequence(hash),
        ),
        TransferEventView::ItemFound { id, hash, size } => if s.id_to_name.contains_key(id) {
            fail(s, reused_id())
        } else {
            match resolve(s.hash_sequence, s.names, hash) {
                Resolution::Missing => fail(s, unresolved_item()),
                Resolution::NotAFile => (s, ActionView::Nothing),
                Resolution::File(name) => {
                    let files = s.files.push(
                        FileTransferView { name, transferred: 0, total: size },
                    );
                    (
                        ReconcilerView { files, id_to_name: s.id_to_name.insert(id, name), ..s },
                        ActionView::Emit(files),
                    )
                },
            }
        },
        TransferEventView::Progress { id, offset } => {
            let files = if s.id_to_name.contains_key(id) {
                set_transferred(s.files, s.id_to_name[id], offset)
            } else {
                s.files
            };
            (ReconcilerView { files, ..s }, ActionView::Emit(files))
        },
        TransferEventView::ItemDone { id } => {
            let files = if s.id_to_name.contains_key(id) {
                set_complete(s.files, s.id_to_name[id])
            } else {
                s.files
            };
            (ReconcilerView { files, ..s }, ActionView::Emit(files))
        },
        TransferEventView::LocalFound { hash, size } => {
            let files = match resolve(s.hash_sequence, s.names, hash) {
                Resolution::File(name) => set_local(s.files, name, size),
                _ => s.files,
            };
            (ReconcilerView { files, ..s }, ActionView::Emit(files))
        },
        TransferEventView::AllDone => (
            ReconcilerView { phase: Phase::AwaitingListing, ..s },
            ActionView::FetchListing,
        ),
        TransferEventView::StreamEnded => (
            ReconcilerView { phase: Phase::AwaitingListing, ..s },
            ActionView::FetchListing,
        ),
        TransferEventView::Other => (s, ActionView::Nothing),
        _ => fail(s, protocol_violation()),
    }
}

/// The transition function: the state after an event, and the action the
/// caller owes.
///
/// A finished or failed reconciler ignores everything. A failed store read
/// is fatal in every other phase. While a store read is outstanding only
/// its outcome is accepted. Otherwise the event is handled as
/// `step_streaming` says.
pub open spec fn spec_step(s: ReconcilerView, e: TransferEventView) -> (
    ReconcilerView,
    ActionView,
) {
    if s.phase == Phase::Finished || s.phase == Phase::Failed {
        (s, ActionView::Nothing)
    } else if e is StoreFailed {
        fail(s, IrohErrorView::DownloadError(e->reason))
    } else if s.phase == Phase::AwaitingHashSequence {
        if e is HashSequenceLoaded {
            let hashes = e->hashes;
            if hashes.len() == 0 {
                fail(s, empty_hash_sequence())
            } else {
                (
                    ReconcilerView {
                        phase: Phase::AwaitingMetadata,
                        hash_sequence: Some(hashes),
                        names: None,
                        ..s
                    },
                    ActionView::FetchMetadata(hashes[0]),
                )
            }
        } else {
            fail(s, protocol_violation())
        }
    } else if s.phase == Phase::AwaitingMetadata {
        if e is MetadataLoaded && s.hash_sequence is Some {
            match decode_spec(e->bytes) {
                None => fail(s, MetadataError::InvalidMetadata.as_iroh_error()),
                Some(names) => if hash_sequence_length_ok(names.len(), s.hash_sequence->0.len()) {
                    (
                        ReconcilerView { phase: Phase::Streaming, names: Some(names), ..s },
                        ActionView::Nothing,
                    )
                } else {
                    fail(s, MetadataError::MetadataMismatch.as_iroh_error())
                },
            }
        } else {
            fail(s, protocol_violation())
        }
    } else if s.phase == Phase::AwaitingListing {
        if e is ListingLoaded {
            let files = completed(e->entries);
            (
                ReconcilerView { phase: Phase::Finished, files, ..s },
                ActionView::Finish(files, listing_pairs(e->entries)),
            )
        } else {
            fail(s, protocol_violation())
        }
    } else {
        step_streaming(s, e)
    }
}

/// The state before any event.
pub open spec fn initial() -> ReconcilerView {
    ReconcilerView {
        phase: Phase::Streaming,
        hash_sequence: None,
        names: None,
        id_to_name: Map::empty(),
        files: Seq::empty(),
    }
}

/// The metadata invariant: where names are known while streaming, so is the
/// hash sequence, and it has one hash more than there are names.
pub open spec fn consistent(s: ReconcilerView) -> bool {
    s.phase == Phase::Streaming && s.names is Some ==> s.hash_sequence is Some
        && hash_sequence_length_ok(s.names->0.len(), s.hash_sequence->0.len())
}

/// An element that no earlier element equals is at the position that
/// `index_of_first` reports.
pub proof fn lemma_first_occurrence<A>(s: Seq<A>, x: A, i: int)
    requires
        0 <= i < s.len(),
        s[i] == x,
        forall|j: int| 0 <= j < i ==> s[j] != x,
    ensures
        s.index_of_first(x) == Some(i),
{
    s.index_of_first_ensures(x);
    assert(s.contains(x));
}

/// A value that no element equals is at no position.
pub proof fn lemma_no_occurrence<A>(s: Seq<A>, x: A)
    requires
        forall|j: int| 0 <= j < s.len() ==> s[j] != x,
    ensures
        s.index_of_first(x) is None,
{
    s.index_of_first_ensures(x);
}

/// First position of `hash` in `hashes`.
fn position(hashes: &Vec<String>, hash: &String) -> (r: Option<usize>)
    ensures
        match r {
            Some(i) => hashes.deep_view().index_of_first(hash@) == Some(i as int) && i
                < hashes.len(),
            None => hashes.deep_view().index_of_first(hash@) is None,
        },
{
    let ghost all = hashes.deep_view();
    let mut i: usize = 0;
    while i < hashes.len()
        invariant
            i <= hashes.len(),
            all == hashes.deep_view(),
            forall|j: int| 0 <= j < i ==> all[j] != hash@,
        decreases hashes.len() - i,
    {
        assert(all[i as int] == hashes@[i as int]@);
        if hashes[i] == *hash {
            proof {
                lemma_first_occurrence(all, hash@, i as int);
            }
            return Some(i);
        }
        i = i + 1;
    }
    proof {
        lemma_no_occurrence(all, hash@);
    }
    None
}

/// Index of the first record named `name`.
fn find_record_index(files: &Vec<FileTransfer>, name: &String) -> (r: Option<usize>)
    ensures
        match r {
            Some(i) => find_record(files.deep_view(), name@) == Some(i as int) && i < files.len(),
            None => find_record(files.deep_view(), name@) is None,
        },
{
    let ghost all = record_names(files.deep_view());
    let mut i: usize = 0;
    while i < files.len()
        invariant
            i <= files.len(),
            all == record_names(files.deep_view()),
            forall|j: int| 0 <= j < i ==> all[j] != name@,
        decreases files.len() - i,
    {
        assert(all[i as int] == files@[i as int].name@);
        if files[i].name == *name {
            proof {
                lemma_first_occurrence(all, name@, i as int);
            }
            return Some(i);
        }
        i = i + 1;
    }
    proof {
        lemma_no_occurrence(all, name@);
    }
    None
}

/// A copy of the table.
fn copy_table(files: &Vec<FileTransfer>) -> (out: Vec<FileTransfer>)
    ensures
        out.deep_view() == files.deep_view(),
{
    let mut out: Vec<FileTransfer> = Vec::new();
    let mut i: usize = 0;
    while i < files.len()
        invariant
            i <= files.len(),
            out.len() == i,
            forall|j: int| 0 <= j < i ==> out@[j]@ == files@[j]@,
        decreases files.len() - i,
    {
        out.push(files[i].duplicate());
        i = i + 1;
    }
    assert(out.deep_view() =~= files.deep_view());
    out
}

/// Puts `record` in place of the record at `i`.
fn replace_record(files: &mut Vec<FileTransfer>, i: usize, record: FileTransfer)
    requires
        i < old(files).len(),
    ensures
        final(files).deep_view() == old(files).deep_view().update(i as int, record@),
{
    files.set(i, record);
    assert(files.deep_view() =~= old(files).deep_view().update(i as int, record@));
}

/// The progress reconciler: hash sequence and file names once they are known,
/// the name each transport id resolved to, and the progress table.
pub struct ProgressReconciler {
    phase: Phase,
    hash_sequence: Option<Vec<String>>,
    names: Option<Vec<String>>,
    id_to_name: HashMap<u64, String>,
    files: Vec<FileTransfer>,
}

impl View for ProgressReconciler {
    type V = ReconcilerView;

    closed spec fn view(&self) -> ReconcilerView {
        ReconcilerView {
            phase: self.phase,
            hash_sequence: match self.hash_sequence {
                Some(hashes) => Some(hashes.deep_view()),
                None => None,
            },
            names: match self.names {
                Some(names) => Some(names.deep_view()),
                None => None,
            },
            id_to_name: self.id_to_name@.map_values(|name: String| name@),
            files: self.files.deep_view(),
        }
    }
}

impl ProgressReconciler {
    /// A reconciler that has seen no event.
    pub fn new() -> (r: Self)
        ensures
            r@ == initial(),
    {
        let r = ProgressReconciler {
            phase: Phase::Streaming,
            hash_sequence: None,
            names: None,
            id_to_name: HashMap::new(),
            files: Vec::new(),
        };
        assert(r@.id_to_name =~= Map::<u64, Seq<char>>::empty());
        assert(r@.files =~= Seq::<FileTransferView>::empty());
        r
    }

    /// The current phase.
    pub fn phase(&self) -> (p: Phase)
        ensures
            p == self@.phase,
    {
        self.phase
    }

    /// Whether the reconciler has finished or failed; once true, it stays
    /// true under every event.
    pub fn is_terminal(&self) -> (b: bool)
        ensures
            b == (self@.phase == Phase::Finished || self@.phase == Phase::Failed),
    {
        match self.phase {
            Phase::Finished => true,
            Phase::Failed => true,
            _ => false,
        }
    }

    /// A full copy of the current table.
    pub fn snapshot(&self) -> (files: Vec<FileTransfer>)
        ensures
            files.deep_view() == self@.files,
    {
        copy_table(&self.files)
    }

    /// Enters the failed phase and reports `e`.
    fn fail_with(&mut self, e: IrohError) -> (action: Action)
        ensures
            (final(self)@, action@) == fail(old(self)@, e@),
    {
        self.phase = Phase::Failed;
        Action::Fail(e)
    }

    /// Reports an event that the current phase has no place for.
    fn fail_protocol(&mut self) -> (action: Action)
        ensures
            (final(self)@, action@) == fail(old(self)@, protocol_violation()),
    {
        self.fail_with(
            IrohError::DownloadError(String::from_str("event does not fit the state of the transfer")),
        )
    }

    /// The file name that `hash` resolves to.
    fn resolve_name(&self, hash: &String) -> (r: Option<Option<String>>)
        ensures
            match r {
                None => resolve(self@.hash_sequence, self@.names, hash@) is Missing,
                Some(None) => resolve(self@.hash_sequence, self@.names, hash@) is NotAFile,
                Some(Some(name)) => resolve(self@.hash_sequence, self@.names, hash@)
                    == Resolution::File(name@),
            },
    {
        match (&self.hash_sequence, &self.names) {
            (Some(hashes), Some(names)) => {
                match position(hashes, hash) {
                    None => None,
                    Some(p) => {
                        if 1 <= p && p <= names.len() {
                            assert(names.deep_view()[p - 1] == names@[p - 1]@);
                            Some(Some(names[p - 1].clone()))
                        } else {
                            Some(None)
                        }
                    },
                }
            },
            _ => None,
        }
    }

    /// Emits the current table.
    fn emit(&self) -> (action: Action)
        ensures
            action@ == ActionView::Emit(self@.files),
    {
        Action::Emit(copy_table(&self.files))
    }

    /// Handles one event while streaming.
    fn step_while_streaming(&mut self, event: TransferEvent) -> (action: Action)
        ensures
            (final(self)@, action@) == step_streaming(old(self)@, event@),
    {
        match event {
            TransferEvent::HashSequenceFound { hash } => {
                self.phase = Phase::AwaitingHashSequence;
                self.hash_sequence = None;
                self.names = None;
                Action::FetchHashSequence(hash)
            },
            TransferEvent::ItemFound { id, hash, size } => {
                if self.id_to_name.contains_key(&id) {
                    return self.fail_with(
                        IrohError::DownloadError(
                            String::from_str("item found under an id that is already in use"),
                        ),
                    );
                }
                match self.resolve_name(&hash) {
                    None => self.fail_with(
                        IrohError::DownloadError(
                            String::from_str("item found before its hash sequence was resolved"),
                        ),
                    ),
                    Some(None) => Action::Nothing,
                    Some(Some(name)) => {
                        let record = FileTransfer {
                            name: name.clone(),
                            transferred: 0,
                            total: size,
                        };
                        self.files.push(record);
                        self.id_to_name.insert(id, name);
                        proof {
                            assert(self@.files =~= old(self)@.files.push(
                                FileTransferView { name: name@, transferred: 0, total: size },
                            ));
                            assert(self@.id_to_name =~= old(self)@.id_to_name.insert(id, name@));
                        }
                        self.emit()
                    },
                }
            },
            TransferEvent::Progress { id, offset } => {
                let target = match self.id_to_name.get(&id) {
                    Some(name) => find_record_index(&self.files, name),
                    None => None,
                };
                match target {
                    Some(i) => {
                        let record = FileTransfer {
                            name: self.files[i].name.clone(),
                            transferred: offset,
                            total: self.files[i].total,
                        };
                        replace_record(&mut self.files, i, record);
                    },
                    None => {},
                }
                self.emit()
            },
            TransferEvent::ItemDone { id } => {
                let target = match self.id_to_name.get(&id) {
                    Some(name) => find_record_index(&self.files, name),
                    None => None,
                };
                match target {
                    Some(i) => {
                        let record = FileTransfer {
                            name: self.files[i].name.clone(),
                            transferred: self.files[i].total,
                            total: self.files[i].total,
                        };
                        replace_record(&mut self.files, i, record);
                    },
                    None => {},
                }
                self.emit()
            },
            TransferEvent::LocalFound { hash, size } => {
                let target = match self.resolve_name(&hash) {
                    Some(Some(name)) => find_record_index(&self.files, &name),
                    _ => None,
                };
                match target {
                    Some(i) => {
                        let record = FileTransfer {
                            name: self.files[i].name.clone(),
                            transferred: size,
                            total: size,
                        };
                        replace_record(&mut self.files, i, record);
                    },
                    None => {},
                }
                self.emit()
            },
            TransferEvent::AllDone => {
                self.phase = Phase::AwaitingListing;
                Action::FetchListing
            },
            TransferEvent::StreamEnded => {
                self.phase = Phase::AwaitingListing;
                Action::FetchListing
            },
            TransferEvent::Other => Action::Nothing,
            _ => self.fail_protocol(),
        }
    }

    /// Takes the final listing: rebuilds the table with every file
    /// complete, and finishes.
    fn finish_with(&mut self, entries: Vec<ListingEntry>) -> (action: Action)
        ensures
            final(self)@ == (ReconcilerView {
                phase: Phase::Finished,
                files: completed(entries.deep_view()),
                ..old(self)@
            }),
            action@ == ActionView::Finish(
                completed(entries.deep_view()),
                listing_pairs(entries.deep_view()),
            ),
    {
        let mut files: Vec<FileTransfer> = Vec::new();
        let mut collection = Collection::new();
        let ghost all = entries.deep_view();
        let mut i: usize = 0;
        while i < entries.len()
            invariant
                i <= entries.len(),
                all == entries.deep_view(),
                files.deep_view() == completed(all).subrange(0, i as int),
                collection@ == listing_pairs(all).subrange(0, i as int),
            decreases entries.len() - i,
        {
            let entry = &entries[i];
            assert(all[i as int] == entry@);
            let ghost before_files = files.deep_view();
            let ghost before_pairs = collection@;
            files.push(
                FileTransfer {
                    name: entry.name.clone(),
                    transferred: entry.size,
                    total: entry.size,
                },
            );
            collection.add_file(entry.name.clone(), entry.hash.clone());
            assert(files.deep_view() =~= before_files.push(completed(all)[i as int]));
            assert(files.deep_view() =~= completed(all).subrange(0, i + 1));
            assert(collection@ =~= listing_pairs(all).subrange(0, i + 1));
            i = i + 1;
        }
        assert(completed(all).subrange(0, i as int) =~= completed(all));
        assert(listing_pairs(all).subrange(0, i as int) =~= listing_pairs(all));
        let snapshot = copy_table(&files);
        self.files = files;
        self.phase = Phase::Finished;
        Action::Finish(snapshot, collection)
    }

    /// Takes one event and answers with the action the caller owes.
    ///
    /// State and action are exactly those of `spec_step`. No event makes
    /// this function fail: what is wrong with an event is reported in the
    /// action.
    pub fn step(&mut self, event: TransferEvent) -> (action: Action)
        ensures
            (final(self)@, action@) == spec_step(old(self)@, event@),
            consistent(old(self)@) ==> consistent(final(self)@),
    {
        match self.phase {
            Phase::Finished => Action::Nothing,
            Phase::Failed => Action::Nothing,
            Phase::Streaming => match event {
                TransferEvent::StoreFailed { reason } => self.fail_with(
                    IrohError::DownloadError(reason),
                ),
                other => self.step_while_streaming(other),
            },
            Phase::AwaitingHashSequence => match event {
                TransferEvent::StoreFailed { reason } => self.fail_with(
                    IrohError::DownloadError(reason),
                ),
                TransferEvent::HashSequenceLoaded { hashes } => {
                    if hashes.len() == 0 {
                        self.fail_with(
                            IrohError::InvalidMetadata(String::from_str("hash sequence is empty")),
                        )
                    } else {
                        let first = hashes[0].clone();
                        assert(hashes.deep_view()[0] == hashes@[0]@);
                        self.hash_sequence = Some(hashes);
                        self.names = None;
                        self.phase = Phase::AwaitingMetadata;
                        Action::FetchMetadata(first)
                    }
                },
                _ => self.fail_protocol(),
            },
            Phase::AwaitingMetadata => match event {
                TransferEvent::StoreFailed { reason } => self.fail_with(
                    IrohError::DownloadError(reason),
                ),
                TransferEvent::MetadataLoaded { bytes } => {
                    let hashes = match &self.hash_sequence {
                        Some(hashes) => hashes.len(),
                        None => {
                            return self.fail_protocol();
                        },
                    };
                    match CollectionMetadata::from_bytes(bytes.as_slice()) {
                        Err(e) => self.fail_with(e.to_iroh_error()),
                        Ok(metadata) => {
                            match metadata.validate_against_hash_sequence_length(hashes) {
                                Err(e) => self.fail_with(e.to_iroh_error()),
                                Ok(()) => {
                                    self.names = Some(metadata.names);
                                    self.phase = Phase::Streaming;
                                    Action::Nothing
                                },
                            }
                        },
                    }
                },
                _ => self.fail_protocol(),
            },
            Phase::AwaitingListing => match event {
                TransferEvent::StoreFailed { reason } => self.fail_with(
                    IrohError::DownloadError(reason),
                ),
                TransferEvent::ListingLoaded { entries } => self.finish_with(entries),
                _ => self.fail_protocol(),
            },
        }
    }
}

} // verus!

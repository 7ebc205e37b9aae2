//! Chunk claiming: handing out successive, non-overlapping byte ranges of
//! one file to any number of concurrent readers.
//!
//! The only shared state is a position counter and a finished flag, both
//! atomic. A claim is one atomic update of the counter, which moves it on by
//! what was asked for but never past the end of the file; the range follows
//! from the value the counter had. Reading the bytes is the caller's part.
//!
//! The rules are written once, as transitions on a plain `ReaderState`:
//! `claim_step`, `chunk_done`, `byte_step` and `byte_done`. `ChunkClaimReader`
//! applies them to the atomics.

use std::sync::atomic::{AtomicBool, AtomicU64, Ordering};
use vstd::prelude::*;

verus! {

/// A byte range of the file: `len` bytes from `offset` on.
#[derive(Debug, Clone, Copy, PartialEq, Eq, Structural)]
pub struct ChunkRange {
    pub offset: u64,
    pub len: u64,
}

/// What the readers of one file share: how far the file has been claimed,
/// and whether the reader is finished.
#[derive(Debug, Clone, Copy, PartialEq, Eq, Structural)]
pub struct ReaderState {
    pub position: u64,
    pub finished: bool,
}

/// What a reader in single-byte mode does next.
#[derive(Debug, Clone, Copy, PartialEq, Eq, Structural)]
pub enum ByteStep {
    /// Nothing: the reader is finished and has no more data.
    Finished,
    /// Open the shared handle, then read one byte.
    OpenAndRead,
    /// Read one byte from the handle that is already open.
    Read,
}

/// How reading one byte went.
#[derive(Debug, Clone, Copy, PartialEq, Eq, Structural)]
pub enum ByteOutcome {
    /// The handle could not be opened.
    OpenFailed,
    /// The read failed.
    ReadFailed,
    /// There was no byte left.
    EndOfFile,
    /// This byte was read.
    Byte(u8),
}

/// The range that a claim is granted when the counter stood at `position`:
/// none at or past the end of the file, else from `position` on, as much as
/// was asked for and the file still has.
pub open spec fn claim_at(size: u64, position: u64, requested: u64) -> Option<ChunkRange> {
    if position >= size {
        None
    } else {
        Some(
            ChunkRange {
                offset: position,
                len: if requested <= size - position {
                    requested
                } else {
                    (size - position) as u64
                },
            },
        )
    }
}

/// Where the counter stands after a claim that found it at `position`: on
/// by what was asked for, and at the end of the file where that would pass
/// it. The counter never passes the end and never wraps.
pub open spec fn advance_spec(size: u64, position: u64, requested: u64) -> u64 {
    if position >= size || requested >= size - position {
        size
    } else {
        (position + requested) as u64
    }
}

/// True when a read of `range` leaves the reader finished: the read failed,
/// or the range reaches the end of the file.
pub open spec fn chunk_finishes_spec(size: u64, range: ChunkRange, succeeded: bool) -> bool {
    !succeeded || range.offset + range.len >= size
}

/// What a read in single-byte mode does next.
pub open spec fn byte_step_spec(finished: bool, handle_open: bool) -> ByteStep {
    if finished {
        ByteStep::Finished
    } else if handle_open {
        ByteStep::Read
    } else {
        ByteStep::OpenAndRead
    }
}

/// The byte that a read in single-byte mode returns.
pub open spec fn byte_result_spec(outcome: ByteOutcome) -> Option<u8> {
    match outcome {
        ByteOutcome::Byte(b) => Some(b),
        _ => None,
    }
}

/// The state before anything is claimed.
pub open spec fn fresh() -> ReaderState {
    ReaderState { position: 0, finished: false }
}

/// One claim of `requested` bytes. A finished reader grants nothing and
/// stays as it is. Otherwise the range is the one for the counter's value,
/// and the counter moves on as `advance_spec` says; where the counter
/// already stood at or past the end, nothing is granted and the reader is
/// finished.
pub open spec fn claim_step_spec(size: u64, s: ReaderState, requested: u64) -> (
    ReaderState,
    Option<ChunkRange>,
) {
    if s.finished {
        (s, None)
    } else {
        (
            ReaderState {
                position: advance_spec(size, s.position, requested),
                finished: claim_at(size, s.position, requested) is None,
            },
            claim_at(size, s.position, requested),
        )
    }
}

/// The state after the read of a claimed range: finished if it was, or if
/// the read finishes the reader.
pub open spec fn chunk_done_spec(
    size: u64,
    s: ReaderState,
    range: ChunkRange,
    succeeded: bool,
) -> ReaderState {
    ReaderState { finished: s.finished || chunk_finishes_spec(size, range, succeeded), ..s }
}

/// The state after reading one byte, and the byte: anything but a byte
/// finishes the reader.
pub open spec fn byte_done_spec(s: ReaderState, outcome: ByteOutcome) -> (
    ReaderState,
    Option<u8>,
) {
    (
        ReaderState { finished: s.finished || byte_result_spec(outcome) is None, ..s },
        byte_result_spec(outcome),
    )
}

/// The range for a claim that found the counter at `position`.
pub fn claim_range(size: u64, position: u64, requested: u64) -> (r: Option<ChunkRange>)
    ensures
        r == claim_at(size, position, requested),
{
    if position >= size {
        None
    } else {
        let remaining = size - position;
        let len = if requested <= remaining {
            requested
        } else {
            remaining
        };
        Some(ChunkRange { offset: position, len })
    }
}

/// Whether a read of `range` leaves the reader finished.
pub fn chunk_finishes(size: u64, range: ChunkRange, succeeded: bool) -> (b: bool)
    ensures
        b == chunk_finishes_spec(size, range, succeeded),
{
    !succeeded || range.offset >= size || range.len >= size - range.offset
}

/// What a read in single-byte mode does next.
pub fn byte_step(finished: bool, handle_open: bool) -> (step: ByteStep)
    ensures
        step == byte_step_spec(finished, handle_open),
{
    if finished {
        ByteStep::Finished
    } else if handle_open {
        ByteStep::Read
    } else {
        ByteStep::OpenAndRead
    }
}

/// The byte that a read in single-byte mode returns.
pub fn byte_result(outcome: ByteOutcome) -> (r: Option<u8>)
    ensures
        r == byte_result_spec(outcome),
{
    match outcome {
        ByteOutcome::Byte(b) => Some(b),
        _ => None,
    }
}

/// Where the counter stands after a claim that found it at `position`.
pub fn advance(size: u64, position: u64, requested: u64) -> (next: u64)
    ensures
        next == advance_spec(size, position, requested),
{
    if position >= size || requested >= size - position {
        size
    } else {
        position + requested
    }
}

/// One claim of `requested` bytes on the given state.
pub fn claim_step(size: u64, s: ReaderState, requested: u64) -> (r: (
    ReaderState,
    Option<ChunkRange>,
))
    ensures
        r == claim_step_spec(size, s, requested),
{
    if s.finished {
        (s, None)
    } else {
        let range = claim_range(size, s.position, requested);
        (
            ReaderState {
                position: advance(size, s.position, requested),
                finished: range.is_none(),
            },
            range,
        )
    }
}

/// The state after the read of a claimed range.
pub fn chunk_done(size: u64, s: ReaderState, range: ChunkRange, succeeded: bool) -> (next:
    ReaderState)
    ensures
        next == chunk_done_spec(size, s, range, succeeded),
{
    ReaderState {
        position: s.position,
        finished: s.finished || chunk_finishes(size, range, succeeded),
    }
}

/// The state after reading one byte, and the byte.
pub fn byte_done(s: ReaderState, outcome: ByteOutcome) -> (r: (ReaderState, Option<u8>))
    ensures
        r == byte_done_spec(s, outcome),
{
    let byte = byte_result(outcome);
    (ReaderState { position: s.position, finished: s.finished || byte.is_none() }, byte)
}

/// `AtomicU64::fetch_update` of the standard library: in one atomic step
/// it puts `advance(size, v, requested)` in place of the counter's value
/// `v`, and returns `v`. The closure always gives a value, so the update
/// always takes place. What `v` is depends on the other threads, so nothing
/// is promised of it.
#[verifier::external_body]
fn fetch_advance(counter: &AtomicU64, size: u64, requested: u64) -> (position: u64) {
    let next = |position: u64| Some(advance(size, position, requested));
    match counter.fetch_update(Ordering::AcqRel, Ordering::Acquire, next) {
        Ok(position) => position,
        Err(position) => position,
    }
}

/// The shared state of one file's readers.
///
/// Verus sees nothing inside an atomic: what the methods below promise
/// holds whatever the other threads did. Each method applies one of the
/// transitions above to the values it read from the atomics, and the flag
/// is only ever set, never cleared.
pub struct ChunkClaimReader {
    size: u64,
    position: AtomicU64,
    finished: AtomicBool,
}

impl ChunkClaimReader {
    /// The length of the file.
    pub closed spec fn size(&self) -> u64 {
        self.size
    }

    /// A reader over a file of `size` bytes, nothing claimed yet.
    pub fn new(size: u64) -> (r: Self)
        ensures
            r.size() == size,
    {
        ChunkClaimReader { size, position: AtomicU64::new(0), finished: AtomicBool::new(false) }
    }

    /// The length of the file.
    pub fn len(&self) -> (n: u64)
        ensures
            n == self.size(),
    {
        self.size
    }

    /// Whether the reader has been marked finished.
    pub fn is_finished(&self) -> bool {
        self.finished.load(Ordering::Acquire)
    }

    /// Claims the next `requested` bytes.
    ///
    /// The result is that of `claim_step` on some state of the reader: a
    /// range, where one is returned, starts inside the file and holds as
    /// much as was asked for and the file still has from there. Without a
    /// range the caller returns no data.
    pub fn claim_chunk(&self, requested: u64) -> (r: Option<ChunkRange>)
        ensures
            exists|s: ReaderState| r == claim_step_spec(self.size(), s, requested).1,
            r matches Some(range) ==> range.offset < self.size() && range.offset + range.len
                <= self.size() && range.len <= requested,
    {
        if self.finished.load(Ordering::Acquire) {
            assert(claim_step_spec(
                self.size(),
                ReaderState { position: 0, finished: true },
                requested,
            ).1 is None);
            return None;
        }
        let position = fetch_advance(&self.position, self.size, requested);
        let seen = ReaderState { position, finished: false };
        let (next, r) = claim_step(self.size, seen, requested);
        if next.finished {
            self.finished.store(true, Ordering::Release);
        }
        assert(r == claim_step_spec(self.size(), seen, requested).1);
        r
    }

    /// Records how the read of a claimed range went, and tells whether its
    /// bytes are to be handed out. A failed read hands out nothing. The
    /// reader is marked finished where `chunk_finishes` says so.
    pub fn finish_chunk(&self, range: ChunkRange, succeeded: bool) -> (deliver: bool)
        ensures
            deliver == succeeded,
    {
        if chunk_finishes(self.size, range, succeeded) {
            self.finished.store(true, Ordering::Release);
        }
        succeeded
    }

    /// What a read in single-byte mode does next, given whether the shared
    /// handle is open. On a reader that was seen finished, nothing.
    pub fn next_byte_step(&self, handle_open: bool) -> (step: ByteStep)
        ensures
            step == byte_step_spec(true, handle_open) || step == byte_step_spec(
                false,
                handle_open,
            ),
    {
        byte_step(self.finished.load(Ordering::Relaxed), handle_open)
    }

    /// Records how reading one byte went, and returns the byte if there is
    /// one. Anything but a byte marks the reader finished.
    pub fn finish_byte(&self, outcome: ByteOutcome) -> (r: Option<u8>)
        ensures
            r == byte_result_spec(outcome),
    {
        let r = byte_result(outcome);
        if r.is_none() {
            self.finished.store(true, Ordering::Relaxed);
        }
        r
    }
}

/// Finished is final. No transition clears the flag, and a finished reader
/// gives no data: a claim is granted nothing and changes nothing, and a
/// read in single-byte mode does nothing.
pub proof fn lemma_finished_is_final(
    size: u64,
    s: ReaderState,
    requested: u64,
    range: ChunkRange,
    succeeded: bool,
    outcome: ByteOutcome,
    handle_open: bool,
)
    requires
        s.finished,
    ensures
        claim_step_spec(size, s, requested) == (s, None::<ChunkRange>),
        chunk_done_spec(size, s, range, succeeded) == s,
        byte_done_spec(s, outcome).0 == s,
        byte_step_spec(s.finished, handle_open) == ByteStep::Finished,
{
}

/// One atomic step on the shared state: a claim, or the record of how the
/// read of a range went.
pub enum ReaderOp {
    Claim { requested: u64 },
    ChunkDone { range: ChunkRange, succeeded: bool },
}

/// The state after one step, and the range the step was granted.
pub open spec fn apply(size: u64, s: ReaderState, op: ReaderOp) -> (
    ReaderState,
    Option<ChunkRange>,
) {
    match op {
        ReaderOp::Claim { requested } => claim_step_spec(size, s, requested),
        ReaderOp::ChunkDone { range, succeeded } => (
            chunk_done_spec(size, s, range, succeeded),
            None,
        ),
    }
}

/// The state after the steps, taken in this order on a fresh reader.
pub open spec fn state_after(size: u64, ops: Seq<ReaderOp>) -> ReaderState
    decreases ops.len(),
{
    if ops.len() == 0 {
        fresh()
    } else {
        apply(size, state_after(size, ops.drop_last()), ops.last()).0
    }
}

/// What the last of the steps was granted.
pub open spec fn last_grant(size: u64, ops: Seq<ReaderOp>) -> Option<ChunkRange> {
    if ops.len() == 0 {
        None
    } else {
        apply(size, state_after(size, ops.drop_last()), ops.last()).1
    }
}

/// Number of bytes granted by the steps together.
pub open spec fn granted_bytes(size: u64, ops: Seq<ReaderOp>) -> int
    decreases ops.len(),
{
    if ops.len() == 0 {
        0
    } else {
        granted_bytes(size, ops.drop_last()) + (match last_grant(size, ops) {
            Some(range) => range.len as int,
            None => 0,
        })
    }
}

/// Number of bytes asked for by the claims among the steps.
pub open spec fn asked_bytes(ops: Seq<ReaderOp>) -> int
    decreases ops.len(),
{
    if ops.len() == 0 {
        0
    } else {
        asked_bytes(ops.drop_last()) + (match ops.last() {
            ReaderOp::Claim { requested } => requested as int,
            ReaderOp::ChunkDone { .. } => 0,
        })
    }
}

/// True when every read succeeds and is recorded after its claim: each
/// `ChunkDone` reports success, for a range that ends no later than where
/// the counter stands when it is recorded. Claims and records may be
/// interleaved in any way.
pub open spec fn reads_succeed(size: u64, ops: Seq<ReaderOp>) -> bool
    decreases ops.len(),
{
    ops.len() > 0 ==> reads_succeed(size, ops.drop_last()) && (match ops.last() {
        ReaderOp::Claim { .. } => true,
        ReaderOp::ChunkDone { range, succeeded } => succeeded && range.offset + range.len
            <= state_after(size, ops.drop_last()).position,
    })
}

/// Exhaustion, for claims from any number of callers in any interleaving,
/// whatever sizes they ask for. As long as every read succeeds:
/// every granted range starts where the ranges granted before it end, so
/// that no byte is handed out twice and none is skipped; the bytes granted
/// are the first `min(size, sum of the sizes asked for)` bytes of the
/// file, hence exactly the whole file as soon as the sizes sum to its
/// length or more; the counter never passes the end; a granted range may
/// be recorded at any later step; and once the file is handed out every
/// claim is refused.
pub proof fn lemma_claims_tile(size: u64, ops: Seq<ReaderOp>)
    requires
        reads_succeed(size, ops),
    ensures
        asked_bytes(ops) >= 0,
        state_after(size, ops).position == granted_bytes(size, ops),
        granted_bytes(size, ops) == if asked_bytes(ops) <= size {
            asked_bytes(ops)
        } else {
            size as int
        },
        state_after(size, ops).finished ==> state_after(size, ops).position == size,
        last_grant(size, ops) matches Some(range) ==> range.offset == granted_bytes(
            size,
            ops.drop_last(),
        ) && range.offset + range.len == state_after(size, ops).position,
        ops.len() > 0 && asked_bytes(ops.drop_last()) >= size ==> last_grant(size, ops) is None,
    decreases ops.len(),
{
    if ops.len() > 0 {
        lemma_claims_tile(size, ops.drop_last());
    }
}

} // verus!

//! The receiving side's bookkeeping: the files a sender announced, how many
//! bytes of each have arrived, and the progress records that go to the
//! sink.

use crate::collection::Collection;
use crate::metadata::{FileTransfer, FileTransferView};
use crate::progress::{lemma_first_occurrence, lemma_no_occurrence};
use vstd::prelude::*;

verus! {

/// A file that the sender announced when the connection was made.
#[derive(Debug, Clone)]
pub struct AnnouncedFile {
    /// The id under which the file's data will arrive.
    pub id: String,
    pub name: String,
    pub len: u64,
    /// Where the file's data is written on this machine.
    pub location: String,
}

/// The mathematical value of an announced file.
pub struct AnnouncedFileView {
    pub id: Seq<char>,
    pub name: Seq<char>,
    pub len: u64,
    pub location: Seq<char>,
}

impl View for AnnouncedFile {
    type V = AnnouncedFileView;

    open spec fn view(&self) -> AnnouncedFileView {
        AnnouncedFileView {
            id: self.id@,
            name: self.name@,
            len: self.len,
            location: self.location@,
        }
    }
}

impl DeepView for AnnouncedFile {
    type V = AnnouncedFileView;

    open spec fn deep_view(&self) -> AnnouncedFileView {
        self@
    }
}

/// An announced file, and how many of its bytes have been received.
#[derive(Debug, Clone)]
pub struct ReceivedFile {
    pub file: AnnouncedFile,
    pub received: u64,
}

/// The mathematical value of a `ReceivedFile`.
pub struct ReceivedFileView {
    pub file: AnnouncedFileView,
    pub received: u64,
}

impl View for ReceivedFile {
    type V = ReceivedFileView;

    open spec fn view(&self) -> ReceivedFileView {
        ReceivedFileView { file: self.file@, received: self.received }
    }
}

impl DeepView for ReceivedFile {
    type V = ReceivedFileView;

    open spec fn deep_view(&self) -> ReceivedFileView {
        self@
    }
}

/// The first snapshot of a transfer: every announced file, nothing
/// received yet.
pub open spec fn connecting_snapshot_spec(files: Seq<AnnouncedFileView>) -> Seq<FileTransferView> {
    files.map_values(
        |f: AnnouncedFileView| FileTransferView { name: f.name, transferred: 0, total: f.len },
    )
}

/// The collection entries of the announced files: each file's name, and
/// where it is written.
pub open spec fn announced_pairs(files: Seq<AnnouncedFileView>) -> Seq<(Seq<char>, Seq<char>)> {
    files.map_values(|f: AnnouncedFileView| (f.name, f.location))
}

/// The announced files as the tracker takes them in: nothing received.
pub open spec fn untouched(files: Seq<AnnouncedFileView>) -> Seq<ReceivedFileView> {
    files.map_values(|f: AnnouncedFileView| ReceivedFileView { file: f, received: 0 })
}

/// The ids of the tracked files, in order.
pub open spec fn tracked_ids(files: Seq<ReceivedFileView>) -> Seq<Seq<char>> {
    files.map_values(|f: ReceivedFileView| f.file.id)
}

/// The file that data under `id` belongs to: the first tracked file of
/// that id.
pub open spec fn find_tracked(files: Seq<ReceivedFileView>, id: Seq<char>) -> Option<int> {
    tracked_ids(files).index_of_first(id)
}

/// The bytes received of a file after `chunk` more bytes: what was
/// received before and the chunk, and never more than the file's length.
pub open spec fn received_after(received: u64, chunk: u64, len: u64) -> u64 {
    if received + chunk <= len {
        (received + chunk) as u64
    } else {
        len
    }
}

/// The progress record of a tracked file.
pub open spec fn record_of(f: ReceivedFileView) -> FileTransferView {
    FileTransferView { name: f.file.name, transferred: f.received, total: f.file.len }
}

/// What `chunk` bytes of data under `id` do to the tracked files: the file
/// they belong to has that many bytes more, up to its length, and its
/// record goes out. Data under an id that was never announced changes
/// nothing and gives no record.
pub open spec fn receive_spec(files: Seq<ReceivedFileView>, id: Seq<char>, chunk: u64) -> (
    Seq<ReceivedFileView>,
    Option<FileTransferView>,
) {
    match find_tracked(files, id) {
        Some(i) => {
            let after = ReceivedFileView {
                received: received_after(files[i].received, chunk, files[i].file.len),
                ..files[i]
            };
            (files.update(i, after), Some(record_of(after)))
        },
        None => (files, None),
    }
}

/// No tracked file has received more than its length.
pub open spec fn within_lengths(files: Seq<ReceivedFileView>) -> bool {
    forall|i: int| 0 <= i < files.len() ==> (#[trigger] files[i]).received <= files[i].file.len
}

/// The first snapshot of a transfer.
pub fn connecting_snapshot(files: &Vec<AnnouncedFile>) -> (out: Vec<FileTransfer>)
    ensures
        out.deep_view() == connecting_snapshot_spec(files.deep_view()),
{
    let ghost all = files.deep_view();
    let mut out: Vec<FileTransfer> = Vec::new();
    let mut i: usize = 0;
    while i < files.len()
        invariant
            i <= files.len(),
            all == files.deep_view(),
            out.deep_view() == connecting_snapshot_spec(all).subrange(0, i as int),
        decreases files.len() - i,
    {
        let ghost before = out.deep_view();
        assert(all[i as int] == files@[i as int]@);
        out.push(FileTransfer { name: files[i].name.clone(), transferred: 0, total: files[i].len });
        assert(out.deep_view() =~= before.push(connecting_snapshot_spec(all)[i as int]));
        assert(out.deep_view() =~= connecting_snapshot_spec(all).subrange(0, i + 1));
        i = i + 1;
    }
    assert(connecting_snapshot_spec(all).subrange(0, i as int) =~= connecting_snapshot_spec(all));
    out
}

/// The files of one receive operation and the bytes received of each.
pub struct ReceiveTracker {
    files: Vec<ReceivedFile>,
}

impl View for ReceiveTracker {
    type V = Seq<ReceivedFileView>;

    closed spec fn view(&self) -> Seq<ReceivedFileView> {
        self.files.deep_view()
    }
}

impl ReceiveTracker {
    /// A tracker without files.
    pub fn new() -> (t: Self)
        ensures
            t@ == Seq::<ReceivedFileView>::empty(),
    {
        let t = ReceiveTracker { files: Vec::new() };
        assert(t.files.deep_view() =~= Seq::<ReceivedFileView>::empty());
        t
    }

    /// Number of files tracked.
    pub fn len(&self) -> (n: usize)
        ensures
            n == self@.len(),
    {
        self.files.len()
    }

    /// Takes note of the announced files: each is entered in the
    /// collection under the place where it is written, and tracked from
    /// now on with nothing received.
    pub fn announce(&mut self, collection: &mut Collection, files: Vec<AnnouncedFile>)
        ensures
            final(collection)@ == old(collection)@ + announced_pairs(files.deep_view()),
            final(self)@ == old(self)@ + untouched(files.deep_view()),
            within_lengths(old(self)@) ==> within_lengths(final(self)@),
    {
        let ghost all = files.deep_view();
        let mut i: usize = 0;
        assert(old(collection)@ + announced_pairs(all).subrange(0, 0) =~= old(collection)@);
        assert(old(self)@ + untouched(all).subrange(0, 0) =~= old(self)@);
        while i < files.len()
            invariant
                i <= files.len(),
                all == files.deep_view(),
                collection@ == old(collection)@ + announced_pairs(all).subrange(0, i as int),
                self@ == old(self)@ + untouched(all).subrange(0, i as int),
            decreases files.len() - i,
        {
            let ghost tracked_before = self.files.deep_view();
            assert(all[i as int] == files@[i as int]@);
            let file = &files[i];
            collection.add_file(file.name.clone(), file.location.clone());
            self.files.push(
                ReceivedFile {
                    file: AnnouncedFile {
                        id: file.id.clone(),
                        name: file.name.clone(),
                        len: file.len,
                        location: file.location.clone(),
                    },
                    received: 0,
                },
            );
            assert(self.files.deep_view() =~= tracked_before.push(untouched(all)[i as int]));
            assert(collection@ =~= old(collection)@ + announced_pairs(all).subrange(0, i + 1));
            assert(self@ =~= old(self)@ + untouched(all).subrange(0, i + 1));
            i = i + 1;
        }
        assert(announced_pairs(all).subrange(0, i as int) =~= announced_pairs(all));
        assert(untouched(all).subrange(0, i as int) =~= untouched(all));
    }

    /// Index of the first tracked file of the given id.
    fn find(&self, id: &String) -> (r: Option<usize>)
        ensures
            match r {
                Some(i) => find_tracked(self@, id@) == Some(i as int) && i < self@.len(),
                None => find_tracked(self@, id@) is None,
            },
    {
        let ghost ids = tracked_ids(self@);
        let mut i: usize = 0;
        while i < self.files.len()
            invariant
                i <= self.files.len(),
                ids == tracked_ids(self@),
                forall|j: int| 0 <= j < i ==> ids[j] != id@,
            decreases self.files.len() - i,
        {
            assert(ids[i as int] == self.files@[i as int].file.id@);
            if self.files[i].file.id == *id {
                proof {
                    lemma_first_occurrence(ids, id@, i as int);
                }
                return Some(i);
            }
            i = i + 1;
        }
        proof {
            lemma_no_occurrence(ids, id@);
        }
        None
    }

    /// Where data under `id` is to be written: the place of the file it
    /// belongs to. Nothing, for an id that was never announced.
    pub fn location(&self, id: &String) -> (r: Option<String>)
        ensures
            match r {
                Some(place) => find_tracked(self@, id@) matches Some(i) && place@
                    == self@[i].file.location,
                None => find_tracked(self@, id@) is None,
            },
    {
        match self.find(id) {
            Some(i) => {
                assert(self@[i as int] == self.files@[i as int]@);
                Some(self.files[i].file.location.clone())
            },
            None => None,
        }
    }

    /// Counts `chunk` bytes of data that arrived under `id`, and returns
    /// the record of the file they belong to: the bytes received of it so
    /// far, out of its length. State and record are exactly those of
    /// `receive_spec`.
    pub fn receive(&mut self, id: &String, chunk: u64) -> (r: Option<FileTransfer>)
        ensures
            final(self)@ == receive_spec(old(self)@, id@, chunk).0,
            match r {
                Some(record) => receive_spec(old(self)@, id@, chunk).1 == Some(record@),
                None => receive_spec(old(self)@, id@, chunk).1 is None,
            },
            within_lengths(old(self)@) ==> within_lengths(final(self)@),
    {
        proof {
            lemma_receive(self@, id@, chunk);
        }
        match self.find(id) {
            None => None,
            Some(i) => {
                let ghost before = self.files.deep_view();
                assert(before[i as int] == self.files@[i as int]@);
                let len = self.files[i].file.len;
                let old_received = self.files[i].received;
                let received = if chunk <= len && old_received <= len - chunk {
                    old_received + chunk
                } else {
                    len
                };
                let name = self.files[i].file.name.clone();
                let after = ReceivedFile {
                    file: AnnouncedFile {
                        id: self.files[i].file.id.clone(),
                        name: self.files[i].file.name.clone(),
                        len,
                        location: self.files[i].file.location.clone(),
                    },
                    received,
                };
                self.files.set(i, after);
                assert(self.files.deep_view() =~= before.update(i as int, after@));
                Some(FileTransfer { name, transferred: received, total: len })
            },
        }
    }
}

/// One chunk never moves a file backwards and never past its length: the
/// files stay the same files in the same order, the one the data belongs
/// to has received no less than before, every other is untouched, and the
/// record that goes out shows no more than the file's length.
pub proof fn lemma_receive(files: Seq<ReceivedFileView>, id: Seq<char>, chunk: u64)
    ensures
        ({
            let (after, record) = receive_spec(files, id, chunk);
            &&& after.len() == files.len()
            &&& tracked_ids(after) == tracked_ids(files)
            &&& forall|k: int| 0 <= k < files.len() ==> (#[trigger] after[k]).file == files[k].file
            &&& forall|k: int|
                0 <= k < files.len() && find_tracked(files, id) != Some(k) ==> #[trigger] after[k]
                    == files[k]
            &&& within_lengths(files) ==> within_lengths(after)
            &&& within_lengths(files) ==> forall|k: int|
                0 <= k < files.len() ==> files[k].received <= (#[trigger] after[k]).received
            &&& record matches Some(r) ==> r.transferred <= r.total
        }),
{
    tracked_ids(files).index_of_first_ensures(id);
    let (after, record) = receive_spec(files, id, chunk);
    assert(tracked_ids(after) =~= tracked_ids(files));
}

/// The files after a run of chunks that all arrived under `id`.
pub open spec fn receive_all(files: Seq<ReceivedFileView>, id: Seq<char>, chunks: Seq<u64>) -> Seq<
    ReceivedFileView,
>
    decreases chunks.len(),
{
    if chunks.len() == 0 {
        files
    } else {
        receive_spec(receive_all(files, id, chunks.drop_last()), id, chunks.last()).0
    }
}

/// The record that goes out for the last of a run of chunks.
pub open spec fn last_record(files: Seq<ReceivedFileView>, id: Seq<char>, chunks: Seq<u64>) -> Option<
    FileTransferView,
> {
    if chunks.len() == 0 {
        None
    } else {
        receive_spec(receive_all(files, id, chunks.drop_last()), id, chunks.last()).1
    }
}

/// The sizes of the chunks, added up.
pub open spec fn chunk_sum(chunks: Seq<u64>) -> int
    decreases chunks.len(),
{
    if chunks.len() == 0 {
        0
    } else {
        chunk_sum(chunks.drop_last()) + chunks.last()
    }
}

/// Bytes moved so far. After any run of chunks under an announced id, the
/// file they belong to has received what it had before and the chunks'
/// sizes added up, capped at its length; and the record that goes out for
/// the last chunk says exactly that, under the file's name and out of its
/// length. So the records of one file never go down, equal the sum of the
/// chunks while that fits, and end at the total once it is reached.
pub proof fn lemma_receive_adds_up(
    files: Seq<ReceivedFileView>,
    id: Seq<char>,
    chunks: Seq<u64>,
    i: int,
)
    requires
        find_tracked(files, id) == Some(i),
        within_lengths(files),
    ensures
        0 <= i < files.len(),
        chunk_sum(chunks) >= 0,
        receive_all(files, id, chunks).len() == files.len(),
        receive_all(files, id, chunks)[i].file == files[i].file,
        receive_all(files, id, chunks)[i].received == if files[i].received + chunk_sum(chunks)
            <= files[i].file.len {
            files[i].received + chunk_sum(chunks)
        } else {
            files[i].file.len as int
        },
        chunks.len() > 0 ==> last_record(files, id, chunks) == Some(
            record_of(receive_all(files, id, chunks)[i]),
        ),
        find_tracked(receive_all(files, id, chunks), id) == Some(i),
    decreases chunks.len(),
{
    tracked_ids(files).index_of_first_ensures(id);
    if chunks.len() > 0 {
        let init = chunks.drop_last();
        lemma_receive_adds_up(files, id, init, i);
        let before = receive_all(files, id, init);
        lemma_receive(before, id, chunks.last());
    }
}

} // verus!

//! What holds of the progress reconciler over whole runs.

use crate::metadata::FileTransferView;
use crate::progress::{
    completed, consistent, find_record, initial, listing_pairs, record_names, resolve, spec_step,
    ActionView, ListingEntryView, Phase, ReconcilerView, Resolution, TransferEventView,
};
use vstd::prelude::*;

verus! {

/// Every record has moved no more than its total.
pub open spec fn bounded(files: Seq<FileTransferView>) -> bool {
    forall|k: int| 0 <= k < files.len() ==> (#[trigger] files[k]).transferred <= files[k].total
}

/// Every record is complete.
pub open spec fn all_complete(files: Seq<FileTransferView>) -> bool {
    forall|k: int| 0 <= k < files.len() ==> (#[trigger] files[k]).transferred == files[k].total
}

/// Table `b` continues table `a`: every record of `a` is still there, at
/// the same place and under the same name, and has not moved backwards.
pub open spec fn advances(a: Seq<FileTransferView>, b: Seq<FileTransferView>) -> bool {
    &&& a.len() <= b.len()
    &&& forall|k: int|
        0 <= k < a.len() ==> (#[trigger] b[k]).name == a[k].name && a[k].transferred
            <= b[k].transferred
}

/// What a well-behaved transport and store guarantee of an event, given the
/// state it arrives in: a progress offset lies between what was reported
/// before and the file's size; local content is no smaller than what was
/// reported; the final listing names the table's files in the table's
/// order, none smaller than what was reported.
pub open spec fn in_order(s: ReconcilerView, e: TransferEventView) -> bool {
    match e {
        TransferEventView::Progress { id, offset } => s.id_to_name.contains_key(id) ==> (
        match find_record(s.files, s.id_to_name[id]) {
            Some(i) => s.files[i].transferred <= offset <= s.files[i].total,
            None => true,
        }),
        TransferEventView::LocalFound { hash, size } => match resolve(
            s.hash_sequence,
            s.names,
            hash,
        ) {
            Resolution::File(name) => match find_record(s.files, name) {
                Some(i) => s.files[i].transferred <= size,
                None => true,
            },
            _ => true,
        },
        TransferEventView::ListingLoaded { entries } => {
            &&& s.files.len() <= entries.len()
            &&& forall|k: int|
                0 <= k < s.files.len() ==> (#[trigger] entries[k]).name == s.files[k].name
                    && s.files[k].transferred <= entries[k].size
        },
        _ => true,
    }
}

/// The state after a sequence of events.
pub open spec fn run(s: ReconcilerView, events: Seq<TransferEventView>) -> ReconcilerView
    decreases events.len(),
{
    if events.len() == 0 {
        s
    } else {
        spec_step(run(s, events.drop_last()), events.last()).0
    }
}

/// True when every event of the sequence is in order in the state that it
/// arrives in.
pub open spec fn all_in_order(s: ReconcilerView, events: Seq<TransferEventView>) -> bool
    decreases events.len(),
{
    events.len() > 0 ==> all_in_order(s, events.drop_last()) && in_order(
        run(s, events.drop_last()),
        events.last(),
    )
}

/// A record that `find_record` finds is in the table and has the name
/// looked for.
pub proof fn lemma_find_record(files: Seq<FileTransferView>, name: Seq<char>)
    ensures
        match find_record(files, name) {
            Some(i) => 0 <= i < files.len() && files[i].name == name,
            None => forall|k: int| 0 <= k < files.len() ==> (#[trigger] files[k]).name != name,
        },
{
    let names = record_names(files);
    names.index_of_first_ensures(name);
    match find_record(files, name) {
        Some(i) => {
            assert(names[i] == files[i].name);
        },
        None => {
            assert forall|k: int| 0 <= k < files.len() implies (#[trigger] files[k]).name
                != name by {
                assert(names[k] == files[k].name);
                assert(names.contains(names[k]));
            }
        },
    }
}

/// Finished and failed are final: no event changes the state, and none
/// asks for anything.
pub proof fn lemma_terminal_is_absorbing(s: ReconcilerView, e: TransferEventView)
    requires
        s.phase == Phase::Finished || s.phase == Phase::Failed,
    ensures
        spec_step(s, e) == (s, ActionView::Nothing),
{
}

/// The metadata invariant holds before any event.
pub proof fn lemma_initial_is_consistent()
    ensures
        consistent(initial()),
        bounded(initial().files),
{
}

/// The metadata invariant survives every event.
pub proof fn lemma_step_keeps_consistent(s: ReconcilerView, e: TransferEventView)
    requires
        consistent(s),
    ensures
        consistent(spec_step(s, e).0),
{
}

/// A progress or completion event for an id that no found item introduced
/// changes nothing: the state stays as it is, and the snapshot that goes
/// out is the table as it was.
pub proof fn lemma_unknown_id_is_ignored(s: ReconcilerView, id: u64, offset: u64)
    requires
        s.phase == Phase::Streaming,
        !s.id_to_name.contains_key(id),
    ensures
        spec_step(s, TransferEventView::Progress { id, offset }) == (s, ActionView::Emit(s.files)),
        spec_step(s, TransferEventView::ItemDone { id }) == (s, ActionView::Emit(s.files)),
{
}

/// The name that an id was resolved to stays for the whole session: no
/// event resolves the id anew, and none drops it. An item found under an
/// id that is in use fails the session instead.
pub proof fn lemma_id_mapping_is_stable(s: ReconcilerView, e: TransferEventView, id: u64)
    requires
        s.id_to_name.contains_key(id),
    ensures
        spec_step(s, e).0.id_to_name.contains_key(id),
        spec_step(s, e).0.id_to_name[id] == s.id_to_name[id],
{
}

/// In no phase does a progress or completion event touch a record whose
/// name the event's id does not resolve to.
pub proof fn lemma_update_leaves_others(s: ReconcilerView, e: TransferEventView, k: int)
    requires
        e is Progress || e is ItemDone,
        0 <= k < s.files.len(),
        ({
            let id = if e is Progress {
                e->Progress_id
            } else {
                e->ItemDone_id
            };
            !s.id_to_name.contains_key(id) || s.files[k].name != s.id_to_name[id]
        }),
    ensures
        spec_step(s, e).0.files.len() == s.files.len(),
        spec_step(s, e).0.files[k] == s.files[k],
{
    let id = if e is Progress {
        e->Progress_id
    } else {
        e->ItemDone_id
    };
    if s.id_to_name.contains_key(id) {
        lemma_find_record(s.files, s.id_to_name[id]);
    }
}

/// One event in order never moves a record backwards, never removes or
/// renames one, and never lets one pass its total.
pub proof fn lemma_step_advances(s: ReconcilerView, e: TransferEventView)
    requires
        bounded(s.files),
        in_order(s, e),
    ensures
        advances(s.files, spec_step(s, e).0.files),
        bounded(spec_step(s, e).0.files),
{
    let after = spec_step(s, e).0.files;
    if s.phase == Phase::Streaming {
        match e {
            TransferEventView::Progress { id, offset } => {
                if s.id_to_name.contains_key(id) {
                    lemma_find_record(s.files, s.id_to_name[id]);
                }
            },
            TransferEventView::ItemDone { id } => {
                if s.id_to_name.contains_key(id) {
                    lemma_find_record(s.files, s.id_to_name[id]);
                }
            },
            TransferEventView::LocalFound { hash, size } => {
                match resolve(s.hash_sequence, s.names, hash) {
                    Resolution::File(name) => {
                        lemma_find_record(s.files, name);
                    },
                    _ => {},
                }
            },
            _ => {},
        }
    } else if s.phase == Phase::AwaitingListing && e is ListingLoaded {
        let entries = e->entries;
        assert(after == completed(entries));
        assert forall|k: int| 0 <= k < s.files.len() implies (#[trigger] after[k]).name
            == s.files[k].name && s.files[k].transferred <= after[k].transferred by {
            assert(entries[k].name == s.files[k].name);
        }
    }
}

/// `advances` is transitive.
pub proof fn lemma_advances_transitive(
    a: Seq<FileTransferView>,
    b: Seq<FileTransferView>,
    c: Seq<FileTransferView>,
)
    requires
        advances(a, b),
        advances(b, c),
    ensures
        advances(a, c),
{
    assert forall|k: int| 0 <= k < a.len() implies (#[trigger] c[k]).name == a[k].name
        && a[k].transferred <= c[k].transferred by {
        assert(b[k].name == a[k].name);
    }
}

/// Running a prefix of the events and then the rest is running them all.
pub proof fn lemma_run_prefix(s: ReconcilerView, events: Seq<TransferEventView>, i: int)
    requires
        0 <= i <= events.len(),
        all_in_order(s, events),
    ensures
        all_in_order(s, events.take(i)),
        i < events.len() ==> run(s, events.take(i + 1)) == spec_step(
            run(s, events.take(i)),
            events[i],
        ).0 && in_order(run(s, events.take(i)), events[i]),
    decreases events.len(),
{
    if i == events.len() {
        assert(events.take(i) =~= events);
    } else {
        let init = events.drop_last();
        lemma_run_prefix(s, init, i);
        assert(init.take(i) =~= events.take(i));
        if i == events.len() - 1 {
            assert(events.take(i + 1) =~= events);
            assert(events.take(i) =~= init);
        } else {
            assert(init.take(i + 1) =~= events.take(i + 1));
            assert(init[i] == events[i]);
        }
    }
}

/// Monotonicity over a whole run: where every record starts within its
/// total and every event is in order, the table after `j` events continues
/// the table after `i` events, for all `i <= j`, and stays within bounds.
/// So from one emitted snapshot to any later one, no file's `transferred`
/// goes down.
pub proof fn lemma_run_advances(
    s: ReconcilerView,
    events: Seq<TransferEventView>,
    i: int,
    j: int,
)
    requires
        bounded(s.files),
        all_in_order(s, events),
        0 <= i <= j <= events.len(),
    ensures
        advances(run(s, events.take(i)).files, run(s, events.take(j)).files),
        bounded(run(s, events.take(j)).files),
    decreases j,
{
    if j == 0 {
        assert(events.take(0) =~= Seq::<TransferEventView>::empty());
    } else {
        lemma_run_prefix(s, events, j - 1);
        lemma_run_advances(s, events, 0, j - 1);
        let before = run(s, events.take(j - 1));
        lemma_step_advances(before, events[j - 1]);
        if i < j {
            lemma_run_advances(s, events, i, j - 1);
            lemma_advances_transitive(
                run(s, events.take(i)).files,
                before.files,
                run(s, events.take(j)).files,
            );
        }
    }
}

/// The final listing is the ground truth: whatever the table held, the
/// final snapshot has one record per listed file, in listing order, each
/// complete at the listed size, and the result is the listing's pairs.
pub proof fn lemma_listing_completes(s: ReconcilerView, entries: Seq<ListingEntryView>)
    requires
        s.phase == Phase::AwaitingListing,
    ensures
        ({
            let (after, action) = spec_step(s, TransferEventView::ListingLoaded { entries });
            &&& after.phase == Phase::Finished
            &&& action == ActionView::Finish(after.files, listing_pairs(entries))
            &&& after.files.len() == entries.len()
            &&& all_complete(after.files)
            &&& forall|k: int|
                0 <= k < entries.len() ==> (#[trigger] after.files[k]).name == entries[k].name
                    && after.files[k].total == entries[k].size
        }),
{
}

/// The end of the stream is taken as the terminal event: a stream that ends
/// without `AllDone` leads, through the same listing request, to the same
/// successful result as one that ends with it, and that result is the
/// store's listing.
pub proof fn lemma_stream_end_falls_back(s: ReconcilerView, entries: Seq<ListingEntryView>)
    requires
        s.phase == Phase::Streaming,
    ensures
        spec_step(s, TransferEventView::StreamEnded) == spec_step(s, TransferEventView::AllDone),
        spec_step(s, TransferEventView::StreamEnded).1 == ActionView::FetchListing,
        spec_step(
            spec_step(s, TransferEventView::StreamEnded).0,
            TransferEventView::ListingLoaded { entries },
        ).1 == ActionView::Finish(completed(entries), listing_pairs(entries)),
{
}

/// A run from the first event on: with events in order, every snapshot
/// continues every earlier one.
pub proof fn lemma_run_from_initial_advances(events: Seq<TransferEventView>, i: int, j: int)
    requires
        all_in_order(initial(), events),
        0 <= i <= j <= events.len(),
    ensures
        advances(run(initial(), events.take(i)).files, run(initial(), events.take(j)).files),
        bounded(run(initial(), events.take(j)).files),
{
    lemma_run_advances(initial(), events, i, j);
}

} // verus!

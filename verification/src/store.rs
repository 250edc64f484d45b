//! The one place where the current snapshot is kept.

use vstd::prelude::*;
use crate::clock::Timestamp;
use crate::domain::{time_view, GachadataDumpWithTime, SnapshotView};

verus! {

/// Holds exactly one snapshot at a time. A snapshot goes in and comes out
/// whole: a reader sees the bytes and the time of capture of one and the same
/// snapshot, never the bytes of one with the time of another.
///
/// The store itself is plain data. Where requests are served side by side,
/// the application puts it behind one lock and holds that lock for a single
/// `read` or `replace`, never while the export program runs.
#[derive(Debug)]
pub struct SharedSnapshotStore {
    current: GachadataDumpWithTime,
}

/// The snapshot that a store starts with: no data, never refreshed.
pub open spec fn initial_snapshot() -> SnapshotView {
    SnapshotView { bytes: Seq::empty(), captured_at: None }
}

impl View for SharedSnapshotStore {
    type V = SnapshotView;

    closed spec fn view(&self) -> SnapshotView {
        self.current@
    }
}

impl SharedSnapshotStore {
    /// A store that holds the initial snapshot.
    pub fn new() -> (store: SharedSnapshotStore)
        ensures
            store@ == initial_snapshot(),
    {
        SharedSnapshotStore { current: GachadataDumpWithTime::default() }
    }

    /// A copy of the snapshot held now.
    pub fn read(&self) -> (snapshot: GachadataDumpWithTime)
        ensures
            snapshot@ == self@,
    {
        self.current.clone()
    }

    /// When the snapshot held now was taken.
    pub fn dump_time(&self) -> (taken: Option<Timestamp>)
        ensures
            time_view(taken) == self@.captured_at,
    {
        self.current.dump_time
    }

    /// Puts `new` in the place of the snapshot held now, whatever that was.
    pub fn replace(&mut self, new: GachadataDumpWithTime)
        ensures
            final(self)@ == new@,
    {
        self.current = new;
    }
}

impl Default for SharedSnapshotStore {
    /// A store that holds the initial snapshot.
    fn default() -> (store: SharedSnapshotStore)
        ensures
            store@ == initial_snapshot(),
    {
        SharedSnapshotStore::new()
    }
}

/// A replace is seen whole or not at all.
///
/// A read gives a copy of what the store holds at that moment, and a replace
/// takes the store from one snapshot to the next in a single step. So a read
/// that falls before the replace of `before` by `new` sees `before`, a read
/// that falls after it sees `new`, and no read sees the bytes of one with the
/// time of capture of the other.
pub proof fn replace_is_seen_whole(
    before: SharedSnapshotStore,
    new: GachadataDumpWithTime,
    after: SharedSnapshotStore,
    seen: GachadataDumpWithTime,
)
    requires
        after@ == new@,
        seen@ == before@ || seen@ == after@,
    ensures
        seen@ == before@ || seen@ == new@,
        seen@.bytes != before@.bytes ==> seen@.captured_at == new@.captured_at,
        seen@.captured_at != before@.captured_at ==> seen@.bytes == new@.bytes,
{
}

} // verus!

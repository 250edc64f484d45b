//! The cached artifact: a dump of the gacha tables and the time it was taken.

use bytes::Bytes;
use vstd::prelude::*;
use crate::clock::{StalenessThreshold, Timestamp};
use crate::export::{ActionView, CommandView, UpdateAction};
use crate::staleness::stale;

verus! {

// What follows is taken on trust about `bytes::Bytes`: nothing here is proved,
// it restates what the crate's source and documentation say.

/// `bytes::Bytes`, carried through as an opaque value.
#[verifier::external_type_specification]
#[verifier::external_body]
pub struct ExBytes(Bytes);

/// The bytes that a `Bytes` handle gives access to, in order.
pub uninterp spec fn bytes_contents(b: Bytes) -> Seq<u8>;

/// `Bytes::new` returns an empty handle.
pub assume_specification[ Bytes::new ]() -> (b: Bytes)
    ensures
        bytes_contents(b) == Seq::<u8>::empty(),
;

/// `Bytes::len` returns the number of bytes that the handle gives access to.
pub assume_specification[ Bytes::len ](b: &Bytes) -> (n: usize)
    ensures
        n == bytes_contents(*b).len(),
;

/// `Bytes::is_empty` says whether that number is zero.
pub assume_specification[ Bytes::is_empty ](b: &Bytes) -> (e: bool)
    ensures
        e == (bytes_contents(*b).len() == 0),
;

/// `Bytes::clone` returns a second handle that gives access to the same
/// bytes as the one it is called on.
pub assume_specification[ <Bytes as Clone>::clone ](b: &Bytes) -> (c: Bytes)
    ensures
        bytes_contents(c) == bytes_contents(*b),
;

/// `Bytes::from` on a `Vec<u8>` takes the vector's buffer over: the handle
/// gives access to the vector's elements, all of them, in order.
pub assume_specification[ <Bytes as From<Vec<u8>>>::from ](v: Vec<u8>) -> (b: Bytes)
    ensures
        bytes_contents(b) == v@,
;

/// A dump as the export program wrote it: an opaque run of bytes.
#[derive(Debug)]
pub struct GachadataDump(pub Bytes);

impl View for GachadataDump {
    type V = Seq<u8>;

    open spec fn view(&self) -> Seq<u8> {
        bytes_contents(self.0)
    }
}

impl GachadataDump {
    /// The dump that holds `output`, the bytes the export program wrote.
    pub fn from_output(output: Vec<u8>) -> (dump: GachadataDump)
        ensures
            dump@ == output@,
    {
        GachadataDump(Bytes::from(output))
    }

    /// Whether the dump holds no data.
    pub fn is_empty(&self) -> (empty: bool)
        ensures
            empty == (self@.len() == 0),
    {
        self.0.is_empty()
    }

    /// The number of bytes in the dump.
    pub fn len(&self) -> (n: usize)
        ensures
            n == self@.len(),
    {
        self.0.len()
    }
}

impl Default for GachadataDump {
    /// The empty dump.
    fn default() -> (dump: GachadataDump)
        ensures
            dump@ == Seq::<u8>::empty(),
    {
        GachadataDump(Bytes::new())
    }
}

impl Clone for GachadataDump {
    /// A second handle on the same bytes.
    fn clone(&self) -> (copy: GachadataDump)
        ensures
            copy@ == self@,
    {
        GachadataDump(self.0.clone())
    }
}

/// What a reader sees of a snapshot: the bytes and the time of capture.
pub struct SnapshotView {
    pub bytes: Seq<u8>,
    pub captured_at: Option<nat>,
}

impl SnapshotView {
    /// What holds of every snapshot that the cache makes: one that was never
    /// taken holds no data. A snapshot that was taken may hold data or not.
    pub open spec fn well_formed(self) -> bool {
        self.captured_at is None ==> self.bytes.len() == 0
    }
}

/// A time of capture as a reader sees it.
pub open spec fn time_view(taken: Option<Timestamp>) -> Option<nat> {
    match taken {
        None => None,
        Some(at) => Some(at@),
    }
}

/// A snapshot: a dump and the time it was taken, `None` while no dump was
/// ever taken. A snapshot is never changed in place; a refresh makes a new one.
#[derive(Debug)]
pub struct GachadataDumpWithTime {
    pub dump: GachadataDump,
    pub dump_time: Option<Timestamp>,
}

impl View for GachadataDumpWithTime {
    type V = SnapshotView;

    open spec fn view(&self) -> SnapshotView {
        SnapshotView {
            bytes: self.dump@,
            captured_at: time_view(self.dump_time),
        }
    }
}

impl GachadataDumpWithTime {
    /// The snapshot of `output`, taken at `now`.
    pub fn captured(output: Vec<u8>, now: Timestamp) -> (snapshot: GachadataDumpWithTime)
        ensures
            snapshot@ == (SnapshotView { bytes: output@, captured_at: Some(now@) }),
            snapshot@.well_formed(),
    {
        GachadataDumpWithTime { dump: GachadataDump::from_output(output), dump_time: Some(now) }
    }
}

impl Default for GachadataDumpWithTime {
    /// The snapshot before any refresh: no data, no time of capture.
    fn default() -> (snapshot: GachadataDumpWithTime)
        ensures
            snapshot@ == (SnapshotView { bytes: Seq::<u8>::empty(), captured_at: None }),
            snapshot@.well_formed(),
    {
        GachadataDumpWithTime { dump: GachadataDump::default(), dump_time: None }
    }
}

impl Clone for GachadataDumpWithTime {
    /// A copy that reads the same: same bytes, same time of capture.
    fn clone(&self) -> (copy: GachadataDumpWithTime)
        ensures
            copy@ == self@,
    {
        GachadataDumpWithTime { dump: self.dump.clone(), dump_time: self.dump_time }
    }
}

/// What is to be done about a dump taken at `taken` when a request comes in
/// at `now`: run `command` if the dump is stale, nothing otherwise.
pub open spec fn update_action(
    taken: Option<nat>,
    command: CommandView,
    now: nat,
    threshold: nat,
) -> ActionView {
    if stale(taken, now, threshold) {
        ActionView::RunDump(command)
    } else {
        ActionView::UpToDate
    }
}

/// A place that holds the gacha dump and knows how a fresh one is made.
pub trait GachaDataRepository {
    /// When the dump that the repository holds was taken, `None` if never.
    spec fn last_dump_time(&self) -> Option<nat>;

    /// The command whose output is a fresh dump.
    spec fn refresh_command(&self) -> CommandView;

    /// Says whether the dump has to be taken again at `now`, and with what
    /// command. The repository itself is left as it is: the caller runs the
    /// command and hands in what came of it.
    fn update_gachadata(&self, now: Timestamp, threshold: StalenessThreshold) -> (action:
        UpdateAction)
        ensures
            action@ == update_action(
                self.last_dump_time(),
                self.refresh_command(),
                now@,
                threshold@,
            ),
    ;
}

} // verus!

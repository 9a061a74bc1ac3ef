//! The two reads that clients make: the metadata of a name and the archive
//! of a version. Each is a short exchange with the store and, where the
//! cache calls for it, with upstream. The store and upstream are not in this
//! library: a read says what to ask next, and is told what came of it.

use vstd::prelude::*;
use crate::entry::{Entry, EntryView};
use crate::mirror::{
    blob_plan, cache_state, metadata_plan, mirrored, mirrored_entry, spec_metadata_plan, state_of,
    CacheState, Plan,
};
use crate::package::{Package, PackageView};
use crate::time::Timestamp;

verus! {

/// Where a read stands.
#[derive(Debug, Clone, Copy, PartialEq, Eq, Structural)]
pub enum Stage {
    /// Nothing was asked yet.
    Idle,
    /// The store is being asked for what it has.
    Looking,
    /// Upstream is being asked.
    Fetching,
    /// What upstream sent is being stored.
    Storing,
    /// The read has its answer.
    Done,
}

/// How a read ends.
#[derive(Debug, Clone, Copy, PartialEq, Eq, Structural)]
pub enum Ending {
    /// With what the store had.
    Cached,
    /// With what upstream just sent, which the store now has too.
    Fetched,
    /// With the answer that there is no such thing.
    NotFound,
    /// With a fault of the store or of upstream.
    Failed,
}

impl Ending {
    /// The HTTP status of the answer.
    pub open spec fn spec_status(self) -> u16 {
        match self {
            Ending::Cached | Ending::Fetched => 200,
            Ending::NotFound => 404,
            Ending::Failed => 500,
        }
    }

    #[verifier::when_used_as_spec(spec_status)]
    pub fn status(self) -> (status: u16)
        ensures
            status == self.spec_status(),
    {
        match self {
            Ending::Cached => 200,
            Ending::Fetched => 200,
            Ending::NotFound => 404,
            Ending::Failed => 500,
        }
    }
}

/// What a read of metadata asks next.
pub enum MetadataAction {
    /// Read the record of the name from the store.
    Lookup,
    /// Ask upstream for the metadata of the name.
    Fetch,
    /// Put `entry` in the place of whatever record the store has.
    Replace { entry: Entry },
    /// Answer the client with the packages of `entry`, the record that the
    /// store has.
    Serve { entry: Entry },
    /// Answer the client otherwise.
    Answer { ending: Ending },
}

/// The mathematical value of a [`MetadataAction`].
pub enum MetadataActionView {
    Lookup,
    Fetch,
    Replace { entry: EntryView },
    Serve { entry: EntryView },
    Answer { ending: Ending },
}

impl View for MetadataAction {
    type V = MetadataActionView;

    open spec fn view(&self) -> MetadataActionView {
        match self {
            MetadataAction::Lookup => MetadataActionView::Lookup,
            MetadataAction::Fetch => MetadataActionView::Fetch,
            MetadataAction::Replace { entry } => MetadataActionView::Replace { entry: entry@ },
            MetadataAction::Serve { entry } => MetadataActionView::Serve { entry: entry@ },
            MetadataAction::Answer { ending } => MetadataActionView::Answer { ending: *ending },
        }
    }
}

/// What a read of metadata is told.
pub enum MetadataEvent {
    /// The store has this record of the name, or none.
    Record { existing: Option<Entry> },
    /// Upstream sent these packages.
    Packages { packages: Vec<Package> },
    /// Upstream has no such crate.
    Missing,
    /// The record was stored.
    Stored,
    /// The store or upstream failed, or what upstream sent cannot be read.
    Failed,
}

/// The mathematical value of a [`MetadataEvent`].
pub enum MetadataEventView {
    Record { existing: Option<EntryView> },
    Packages { packages: Seq<PackageView> },
    Missing,
    Stored,
    Failed,
}

impl View for MetadataEvent {
    type V = MetadataEventView;

    open spec fn view(&self) -> MetadataEventView {
        match self {
            MetadataEvent::Record { existing } => MetadataEventView::Record {
                existing: existing.deep_view(),
            },
            MetadataEvent::Packages { packages } => MetadataEventView::Packages {
                packages: packages.deep_view(),
            },
            MetadataEvent::Missing => MetadataEventView::Missing,
            MetadataEvent::Stored => MetadataEventView::Stored,
            MetadataEvent::Failed => MetadataEventView::Failed,
        }
    }
}

/// One read of the metadata of a name.
#[derive(Debug, Clone, Copy, PartialEq, Eq, Structural)]
pub struct MetadataRead {
    /// Where the read stands.
    pub stage: Stage,
    /// The time of the read.
    pub now: Timestamp,
    /// Whether the registry is cut off from upstream.
    pub offline: bool,
}

impl MetadataRead {
    /// The read at another stage.
    pub open spec fn at(self, stage: Stage) -> MetadataRead {
        MetadataRead { stage, ..self }
    }

    /// The state and the action that follow on an event.
    ///
    /// - The record that the store has decides: it is served, or upstream is
    ///   asked, or nothing is found, as the cache's plan says.
    /// - What upstream sent is stored as a mirrored record of this moment,
    ///   in the place of the stale one if there was one, and then served.
    ///   Until then the store is as it was.
    /// - Where upstream has no such crate, nothing is found, and the store
    ///   is as it was.
    /// - A fault ends the read as failed, and the store is as it was.
    pub open spec fn next(self, event: MetadataEventView) -> (MetadataRead, MetadataActionView) {
        match (self.stage, event) {
            (Stage::Looking, MetadataEventView::Record { existing }) => match spec_metadata_plan(
                state_of(existing, self.now),
                self.offline,
            ) {
                Plan::Serve => (
                    self.at(Stage::Done),
                    MetadataActionView::Serve { entry: existing.unwrap() },
                ),
                Plan::Fetch => (self.at(Stage::Fetching), MetadataActionView::Fetch),
                Plan::NotFound => (
                    self.at(Stage::Done),
                    MetadataActionView::Answer { ending: Ending::NotFound },
                ),
            },
            (Stage::Fetching, MetadataEventView::Packages { packages }) => (
                self.at(Stage::Storing),
                MetadataActionView::Replace { entry: mirrored(packages, self.now) },
            ),
            (Stage::Fetching, MetadataEventView::Missing) => (
                self.at(Stage::Done),
                MetadataActionView::Answer { ending: Ending::NotFound },
            ),
            (Stage::Storing, MetadataEventView::Stored) => (
                self.at(Stage::Done),
                MetadataActionView::Answer { ending: Ending::Fetched },
            ),
            _ => (self.at(Stage::Done), MetadataActionView::Answer { ending: Ending::Failed }),
        }
    }

    /// A read of metadata at the time `now`.
    pub fn new(now: Timestamp, offline: bool) -> (read: MetadataRead)
        ensures
            read == (MetadataRead { stage: Stage::Idle, now, offline }),
    {
        MetadataRead { stage: Stage::Idle, now, offline }
    }

    /// A read of metadata at the present time.
    pub fn at_present(offline: bool) -> (read: MetadataRead)
        ensures
            read.stage == Stage::Idle,
            read.offline == offline,
    {
        MetadataRead::new(crate::time::now(), offline)
    }

    /// The first thing to ask: what the store has.
    pub fn begin(&mut self) -> (action: MetadataAction)
        ensures
            *final(self) == old(self).at(Stage::Looking),
            action@ == MetadataActionView::Lookup,
    {
        self.stage = Stage::Looking;
        MetadataAction::Lookup
    }

    /// Takes what came of the last action, and says what to do next.
    pub fn step(&mut self, event: MetadataEvent) -> (action: MetadataAction)
        ensures
            (*final(self), action@) == old(self).next(event@),
    {
        match (self.stage, event) {
            (Stage::Looking, MetadataEvent::Record { existing }) => {
                let plan = metadata_plan(cache_state(&existing, self.now), self.offline);
                match plan {
                    Plan::Serve => {
                        self.stage = Stage::Done;
                        match existing {
                            Some(entry) => MetadataAction::Serve { entry },
                            None => MetadataAction::Answer { ending: Ending::Failed },
                        }
                    },
                    Plan::Fetch => {
                        self.stage = Stage::Fetching;
                        MetadataAction::Fetch
                    },
                    Plan::NotFound => {
                        self.stage = Stage::Done;
                        MetadataAction::Answer { ending: Ending::NotFound }
                    },
                }
            },
            (Stage::Fetching, MetadataEvent::Packages { packages }) => {
                self.stage = Stage::Storing;
                MetadataAction::Replace { entry: mirrored_entry(&packages, self.now) }
            },
            (Stage::Fetching, MetadataEvent::Missing) => {
                self.stage = Stage::Done;
                MetadataAction::Answer { ending: Ending::NotFound }
            },
            (Stage::Storing, MetadataEvent::Stored) => {
                self.stage = Stage::Done;
                MetadataAction::Answer { ending: Ending::Fetched }
            },
            _ => {
                self.stage = Stage::Done;
                MetadataAction::Answer { ending: Ending::Failed }
            },
        }
    }
}

/// What a read of an archive asks next.
#[derive(Debug, Clone, Copy, PartialEq, Eq, Structural)]
pub enum BlobAction {
    /// See whether the content store has the archive.
    Lookup,
    /// Ask upstream for the archive.
    Fetch,
    /// Put the archive that upstream sent into the content store, under the
    /// name and the version.
    Persist,
    /// Answer the client.
    Answer { ending: Ending },
}

/// What a read of an archive is told.
#[derive(Debug, Clone, Copy, PartialEq, Eq, Structural)]
pub enum BlobEvent {
    /// The content store has the archive.
    Present,
    /// The content store does not have the archive.
    Absent,
    /// Upstream sent the archive.
    Received,
    /// Upstream has no such archive.
    Missing,
    /// The archive was stored.
    Stored,
    /// The store or upstream failed.
    Failed,
}

/// One read of the archive of a version.
#[derive(Debug, Clone, Copy, PartialEq, Eq, Structural)]
pub struct BlobRead {
    /// Where the read stands.
    pub stage: Stage,
    /// Whether the registry is cut off from upstream.
    pub offline: bool,
}

impl BlobRead {
    /// The read at another stage.
    pub open spec fn at(self, stage: Stage) -> BlobRead {
        BlobRead { stage, ..self }
    }

    /// The state and the action that follow on an event. The content store
    /// is asked first. What it has is served, and never fetched again nor
    /// written over. What it lacks is fetched and stored, unless the
    /// registry is cut off from upstream. The archive is stored as upstream
    /// sent it: its checksum in the index is for the client to hold it to.
    pub open spec fn next(self, event: BlobEvent) -> (BlobRead, BlobAction) {
        match (self.stage, event) {
            (Stage::Looking, BlobEvent::Present) => (
                self.at(Stage::Done),
                BlobAction::Answer { ending: Ending::Cached },
            ),
            (Stage::Looking, BlobEvent::Absent) => if self.offline {
                (self.at(Stage::Done), BlobAction::Answer { ending: Ending::NotFound })
            } else {
                (self.at(Stage::Fetching), BlobAction::Fetch)
            },
            (Stage::Fetching, BlobEvent::Received) => (self.at(Stage::Storing), BlobAction::Persist),
            (Stage::Fetching, BlobEvent::Missing) => (
                self.at(Stage::Done),
                BlobAction::Answer { ending: Ending::NotFound },
            ),
            (Stage::Storing, BlobEvent::Stored) => (
                self.at(Stage::Done),
                BlobAction::Answer { ending: Ending::Fetched },
            ),
            _ => (self.at(Stage::Done), BlobAction::Answer { ending: Ending::Failed }),
        }
    }

    /// A read of an archive.
    pub fn new(offline: bool) -> (read: BlobRead)
        ensures
            read == (BlobRead { stage: Stage::Idle, offline }),
    {
        BlobRead { stage: Stage::Idle, offline }
    }

    /// The first thing to ask: whether the content store has the archive.
    pub fn begin(&mut self) -> (action: BlobAction)
        ensures
            *final(self) == old(self).at(Stage::Looking),
            action == BlobAction::Lookup,
    {
        self.stage = Stage::Looking;
        BlobAction::Lookup
    }

    /// Takes what came of the last action, and says what to do next.
    pub fn step(&mut self, event: BlobEvent) -> (action: BlobAction)
        ensures
            (*final(self), action) == old(self).next(event),
    {
        match (self.stage, event) {
            (Stage::Looking, BlobEvent::Present) => {
                self.stage = Stage::Done;
                BlobAction::Answer { ending: Ending::Cached }
            },
            (Stage::Looking, BlobEvent::Absent) => {
                match blob_plan(false, self.offline) {
                    Plan::Fetch => {
                        self.stage = Stage::Fetching;
                        BlobAction::Fetch
                    },
                    _ => {
                        self.stage = Stage::Done;
                        BlobAction::Answer { ending: Ending::NotFound }
                    },
                }
            },
            (Stage::Fetching, BlobEvent::Received) => {
                self.stage = Stage::Storing;
                BlobAction::Persist
            },
            (Stage::Fetching, BlobEvent::Missing) => {
                self.stage = Stage::Done;
                BlobAction::Answer { ending: Ending::NotFound }
            },
            (Stage::Storing, BlobEvent::Stored) => {
                self.stage = Stage::Done;
                BlobAction::Answer { ending: Ending::Fetched }
            },
            _ => {
                self.stage = Stage::Done;
                BlobAction::Answer { ending: Ending::Failed }
            },
        }
    }
}

/// A record is written by a read of metadata only after upstream has sent
/// packages, and what is written is the mirror of those packages: never the
/// registry's own, and dated with the time of the read.
pub proof fn law_read_writes_mirror_only(
    read: MetadataRead,
    event: MetadataEventView,
    entry: EntryView,
)
    requires
        read.next(event).1 == (MetadataActionView::Replace { entry }),
    ensures
        read.stage == Stage::Fetching,
        event matches MetadataEventView::Packages { packages } && entry == mirrored(
            packages,
            read.now,
        ),
        !entry.is_local,
        entry.time_of_last_update == read.now,
{
}

/// Upstream is asked by a read of metadata only where the store has no
/// record of the name, or a mirrored one that is stale, and only while the
/// registry is not cut off. So the record of a local crate is never
/// fetched, and, with the law before, never written over by a read.
pub proof fn law_fetch_needs_absent_or_stale(read: MetadataRead, event: MetadataEventView)
    requires
        read.next(event).1 == MetadataActionView::Fetch,
    ensures
        read.stage == Stage::Looking,
        !read.offline,
        event matches MetadataEventView::Record { existing } && (state_of(existing, read.now)
            == CacheState::Absent || state_of(existing, read.now) == CacheState::MirrorStale),
{
}

/// Where upstream has no such crate, or the store or upstream fails, the
/// read ends at once and asks for no write.
pub proof fn law_miss_and_fault_write_nothing(read: MetadataRead, event: MetadataEventView)
    requires
        event == MetadataEventView::Missing || event == MetadataEventView::Failed,
    ensures
        read.next(event).0.stage == Stage::Done,
        read.next(event).1 is Answer,
        read.stage == Stage::Fetching && event == MetadataEventView::Missing ==> read.next(
            event,
        ).1 == (MetadataActionView::Answer { ending: Ending::NotFound }),
        event == MetadataEventView::Failed ==> read.next(event).1 == (MetadataActionView::Answer {
            ending: Ending::Failed,
        }),
{
}

/// An archive that the content store has is served from it: it is neither
/// fetched nor stored again.
pub proof fn law_stored_blob_is_final(read: BlobRead)
    requires
        read.stage == Stage::Looking,
    ensures
        read.next(BlobEvent::Present) == (
            read.at(Stage::Done),
            BlobAction::Answer { ending: Ending::Cached },
        ),
{
}

/// A run of a read of metadata: the first state is the one in which the
/// store is asked, and each event took the read from one state to the next.
pub open spec fn is_read(
    states: Seq<MetadataRead>,
    events: Seq<MetadataEventView>,
    actions: Seq<MetadataActionView>,
) -> bool {
    &&& states.len() == events.len() + 1
    &&& actions.len() == events.len()
    &&& states[0].stage == Stage::Looking
    &&& forall|k: int|
        0 <= k < events.len() ==> (#[trigger] states[k]).next(events[k]) == (
            states[k + 1],
            actions[k],
        )
}

/// A read asks upstream at most once, and writes at most once. Upstream is
/// asked, if at all, on the answer of the store; the record is written, if
/// at all, on the answer of upstream; and nothing else is asked of either.
pub proof fn law_one_fetch_one_write(
    states: Seq<MetadataRead>,
    events: Seq<MetadataEventView>,
    actions: Seq<MetadataActionView>,
    k: int,
)
    requires
        is_read(states, events, actions),
        0 <= k < actions.len(),
    ensures
        actions[k] is Fetch ==> k == 0,
        actions[k] is Replace ==> k == 1 && actions[0] is Fetch,
        !(actions[k] is Lookup),
    decreases k,
{
    assert(states[k].next(events[k]) == (states[k + 1], actions[k]));
    if k > 0 {
        assert(states[k - 1].next(events[k - 1]) == (states[k], actions[k - 1]));
        law_one_fetch_one_write(states, events, actions, k - 1);
        if k > 1 {
            assert(states[k - 2].next(events[k - 2]) == (states[k - 1], actions[k - 2]));
        }
    }
}

} // verus!

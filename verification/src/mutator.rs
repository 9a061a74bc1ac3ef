//! Changing the record of one crate while others may be changing it too.
//!
//! A change is never written over a record that was not read: the record is
//! read, the change is worked out on what was read, and the result is
//! written only if the record is still the one that was read. If it is not,
//! the whole is tried again on the new record, a bounded number of times.
//! The store itself is not in this library; the [`Mutator`] says what to ask
//! of it next, and is told what came of it.

use vstd::prelude::*;
use crate::entry::{Entry, EntryView};
use crate::error::LifecycleError;
use crate::lifecycle::{publish, publish_refusal, published, toggled, unyank, yank};
use crate::package::{Metadata, MetadataView};
use crate::time::Timestamp;

verus! {

/// A change to the record of one crate.
pub enum Mutation {
    /// Add the version that was uploaded.
    Publish { meta: Metadata, cksum: String, now: Timestamp },
    /// Yank a version.
    Yank { version: String },
    /// Take the yank of a version back.
    Unyank { version: String },
}

/// The mathematical value of a [`Mutation`].
pub enum MutationView {
    Publish { meta: MetadataView, cksum: Seq<char>, now: Timestamp },
    Yank { version: Seq<char> },
    Unyank { version: Seq<char> },
}

impl View for Mutation {
    type V = MutationView;

    open spec fn view(&self) -> MutationView {
        match self {
            Mutation::Publish { meta, cksum, now } => MutationView::Publish {
                meta: meta@,
                cksum: cksum@,
                now: *now,
            },
            Mutation::Yank { version } => MutationView::Yank { version: version@ },
            Mutation::Unyank { version } => MutationView::Unyank { version: version@ },
        }
    }
}

impl MutationView {
    /// Whether `outcome` is what the change comes to on the record
    /// `existing`: the record to write in its place, or the reason why the
    /// change is refused.
    pub open spec fn leads_to(
        self,
        existing: Option<EntryView>,
        outcome: Result<EntryView, LifecycleError>,
    ) -> bool {
        match self {
            MutationView::Publish { meta, cksum, now } => match outcome {
                Ok(after) => published(existing, meta, cksum, now, after),
                Err(error) => publish_refusal(existing, meta) == Some(error),
            },
            MutationView::Yank { version } => outcome == toggled(existing, version, true),
            MutationView::Unyank { version } => outcome == toggled(existing, version, false),
        }
    }
}

/// The mathematical value of the outcome of a change.
pub open spec fn outcome_view(outcome: Result<Entry, LifecycleError>) -> Result<
    EntryView,
    LifecycleError,
> {
    match outcome {
        Ok(entry) => Ok(entry@),
        Err(error) => Err(error),
    }
}

impl Mutation {
    /// The change that publishes an upload at the time `now`. The checksum
    /// that the index will record is worked out here, from the archive
    /// itself.
    pub fn upload(meta: Metadata, blob: &[u8], now: Timestamp) -> (mutation: Mutation)
        ensures
            mutation@ == (MutationView::Publish {
                meta: meta@,
                cksum: crate::digest::checksum_of(blob@),
                now,
            }),
    {
        Mutation::Publish { meta, cksum: crate::digest::checksum(blob), now }
    }

    /// The change that publishes an upload at the present time.
    pub fn upload_now(meta: Metadata, blob: &[u8]) -> (mutation: Mutation)
        ensures
            mutation@ matches MutationView::Publish { meta: m, cksum: c, now: _ } && m == meta@
                && c == crate::digest::checksum_of(blob@),
    {
        Mutation::upload(meta, blob, crate::time::now())
    }

    /// Works the change out on the record that was read.
    pub fn apply(&self, existing: Option<Entry>) -> (outcome: Result<Entry, LifecycleError>)
        ensures
            self@.leads_to(existing.deep_view(), outcome_view(outcome)),
    {
        match self {
            Mutation::Publish { meta, cksum, now } => publish(existing, meta, cksum.as_str(), *now),
            Mutation::Yank { version } => yank(existing, version.as_str()),
            Mutation::Unyank { version } => unyank(existing, version.as_str()),
        }
    }
}

/// What the store is asked to do next.
pub enum Action {
    /// Read the record of the name.
    Read,
    /// Put `entry` in the place of the record that was read last, unless the
    /// record has changed since.
    Swap { entry: Entry },
    /// Put `entry` where the last read found no record.
    Insert { entry: Entry },
    /// Nothing more: the change is made, or it failed for the reason given.
    Finish { outcome: Result<(), LifecycleError> },
}

/// The mathematical value of an [`Action`].
pub enum ActionView {
    Read,
    Swap { entry: EntryView },
    Insert { entry: EntryView },
    Finish { outcome: Result<(), LifecycleError> },
}

impl View for Action {
    type V = ActionView;

    open spec fn view(&self) -> ActionView {
        match self {
            Action::Read => ActionView::Read,
            Action::Swap { entry } => ActionView::Swap { entry: entry@ },
            Action::Insert { entry } => ActionView::Insert { entry: entry@ },
            Action::Finish { outcome } => ActionView::Finish { outcome: *outcome },
        }
    }
}

impl ActionView {
    /// Whether the action writes to the store.
    pub open spec fn writes(self) -> bool {
        self is Swap || self is Insert
    }
}

/// What came of the last action.
pub enum Event {
    /// The read found this record, or none.
    Read { existing: Option<Entry> },
    /// The record was written.
    Written,
    /// The record had changed since it was read; nothing was written.
    Changed,
    /// The store reported a fault; nothing was written.
    Failed,
}

/// The mathematical value of an [`Event`].
pub enum EventView {
    Read { existing: Option<EntryView> },
    Written,
    Changed,
    Failed,
}

impl View for Event {
    type V = EventView;

    open spec fn view(&self) -> EventView {
        match self {
            Event::Read { existing } => EventView::Read { existing: existing.deep_view() },
            Event::Written => EventView::Written,
            Event::Changed => EventView::Changed,
            Event::Failed => EventView::Failed,
        }
    }
}

/// Where a change stands.
#[derive(Debug, Clone, Copy, PartialEq, Eq, Structural)]
pub enum Phase {
    /// Nothing was asked of the store yet.
    Idle,
    /// A read is under way.
    Reading,
    /// A write is under way.
    Writing,
    /// The change is made or has failed.
    Done,
}

/// One change to one record, from its first read to its end.
pub struct Mutator {
    mutation: Mutation,
    phase: Phase,
    attempts_left: usize,
}

/// The mathematical value of a [`Mutator`].
pub struct MutatorView {
    pub mutation: MutationView,
    pub phase: Phase,
    /// How many more reads may be made.
    pub attempts_left: nat,
}

impl View for Mutator {
    type V = MutatorView;

    closed spec fn view(&self) -> MutatorView {
        MutatorView {
            mutation: self.mutation@,
            phase: self.phase,
            attempts_left: self.attempts_left as nat,
        }
    }
}

impl MutatorView {
    /// The state that is left when the change has ended.
    pub open spec fn ended(self) -> MutatorView {
        MutatorView { phase: Phase::Done, ..self }
    }

    /// Whether the first action and the state after it are `action` and
    /// `after`. With no attempt allowed the change ends at once, as one that
    /// lost to other writers.
    pub open spec fn begins(self, after: MutatorView, action: ActionView) -> bool {
        if self.phase != Phase::Idle {
            after == self.ended() && action == (ActionView::Finish {
                outcome: Err(LifecycleError::Storage),
            })
        } else if self.attempts_left == 0 {
            after == self.ended() && action == (ActionView::Finish {
                outcome: Err(LifecycleError::Contention),
            })
        } else {
            after == (MutatorView {
                phase: Phase::Reading,
                attempts_left: (self.attempts_left - 1) as nat,
                ..self
            }) && action == ActionView::Read
        }
    }

    /// Whether `event` takes the change from this state to `after`, with
    /// `action` as the next thing to ask of the store.
    ///
    /// - A fault of the store ends the change.
    /// - What a read found is changed as the mutation says: a refusal ends
    ///   the change with nothing written; else the new record is to be
    ///   written, in the place of the one that was read or where none was.
    /// - A write that went through ends the change well.
    /// - A write that found the record changed leads to another read while
    ///   attempts are left, and ends the change as lost to other writers
    ///   when none is.
    /// - An event that answers no action of this state ends the change as a
    ///   fault.
    pub open spec fn steps(self, event: EventView, after: MutatorView, action: ActionView) -> bool {
        match (self.phase, event) {
            (Phase::Reading, EventView::Read { existing }) => {
                ||| exists|refusal: LifecycleError|
                    {
                        &&& #[trigger] self.mutation.leads_to(existing, Err(refusal))
                        &&& after == self.ended()
                        &&& action == (ActionView::Finish { outcome: Err(refusal) })
                    }
                ||| exists|entry: EntryView|
                    {
                        &&& #[trigger] self.mutation.leads_to(existing, Ok(entry))
                        &&& after == (MutatorView { phase: Phase::Writing, ..self })
                        &&& action == if existing is Some {
                            ActionView::Swap { entry }
                        } else {
                            ActionView::Insert { entry }
                        }
                    }
            },
            (Phase::Writing, EventView::Written) => {
                after == self.ended() && action == (ActionView::Finish { outcome: Ok(()) })
            },
            (Phase::Writing, EventView::Changed) => {
                if self.attempts_left > 0 {
                    after == (MutatorView {
                        phase: Phase::Reading,
                        attempts_left: (self.attempts_left - 1) as nat,
                        ..self
                    }) && action == ActionView::Read
                } else {
                    after == self.ended() && action == (ActionView::Finish {
                        outcome: Err(LifecycleError::Contention),
                    })
                }
            },
            _ => {
                after == self.ended() && action == (ActionView::Finish {
                    outcome: Err(LifecycleError::Storage),
                })
            },
        }
    }
}

impl Mutator {
    /// A change that may read the record up to `attempts` times.
    pub fn new(mutation: Mutation, attempts: usize) -> (mutator: Mutator)
        ensures
            mutator@ == (MutatorView {
                mutation: mutation@,
                phase: Phase::Idle,
                attempts_left: attempts as nat,
            }),
    {
        Mutator { mutation, phase: Phase::Idle, attempts_left: attempts }
    }

    /// Where the change stands.
    pub fn phase(&self) -> (phase: Phase)
        ensures
            phase == self@.phase,
    {
        self.phase
    }

    /// The first thing to ask of the store.
    pub fn begin(&mut self) -> (action: Action)
        ensures
            old(self)@.begins(final(self)@, action@),
    {
        if self.phase != Phase::Idle {
            self.phase = Phase::Done;
            Action::Finish { outcome: Err(LifecycleError::Storage) }
        } else if self.attempts_left == 0 {
            self.phase = Phase::Done;
            Action::Finish { outcome: Err(LifecycleError::Contention) }
        } else {
            self.phase = Phase::Reading;
            self.attempts_left = self.attempts_left - 1;
            Action::Read
        }
    }

    /// Takes what came of the last action, and says what to ask next.
    pub fn step(&mut self, event: Event) -> (action: Action)
        ensures
            old(self)@.steps(event@, final(self)@, action@),
    {
        match (self.phase, event) {
            (Phase::Reading, Event::Read { existing }) => {
                let found = existing.is_some();
                let ghost read = existing.deep_view();
                match self.mutation.apply(existing) {
                    Err(refusal) => {
                        self.phase = Phase::Done;
                        assert(old(self)@.mutation.leads_to(read, Err(refusal)));
                        Action::Finish { outcome: Err(refusal) }
                    },
                    Ok(entry) => {
                        self.phase = Phase::Writing;
                        assert(old(self)@.mutation.leads_to(read, Ok(entry@)));
                        if found {
                            Action::Swap { entry }
                        } else {
                            Action::Insert { entry }
                        }
                    },
                }
            },
            (Phase::Writing, Event::Written) => {
                self.phase = Phase::Done;
                Action::Finish { outcome: Ok(()) }
            },
            (Phase::Writing, Event::Changed) => {
                if self.attempts_left > 0 {
                    self.phase = Phase::Reading;
                    self.attempts_left = self.attempts_left - 1;
                    Action::Read
                } else {
                    self.phase = Phase::Done;
                    Action::Finish { outcome: Err(LifecycleError::Contention) }
                }
            },
            _ => {
                self.phase = Phase::Done;
                Action::Finish { outcome: Err(LifecycleError::Storage) }
            },
        }
    }
}

/// A change comes to one thing only: on a given record it is either refused,
/// for one reason, or accepted.
pub proof fn lemma_refusal_excludes(
    mutation: MutationView,
    existing: Option<EntryView>,
    refusal: LifecycleError,
    other: Result<EntryView, LifecycleError>,
)
    requires
        mutation.leads_to(existing, Err(refusal)),
        mutation.leads_to(existing, other),
    ensures
        other == Err::<EntryView, LifecycleError>(refusal),
{
}

/// A change that is refused leaves the store as it is: the answer to the
/// read is the end of the change, with the reason of the refusal, and no
/// write is asked for.
pub proof fn law_refusal_writes_nothing(
    state: MutatorView,
    existing: Option<EntryView>,
    refusal: LifecycleError,
    after: MutatorView,
    action: ActionView,
)
    requires
        state.phase == Phase::Reading,
        state.mutation.leads_to(existing, Err(refusal)),
        state.steps(EventView::Read { existing }, after, action),
    ensures
        action == (ActionView::Finish { outcome: Err(refusal) }),
        !action.writes(),
        after.phase == Phase::Done,
{
    if exists|entry: EntryView| #[trigger] state.mutation.leads_to(existing, Ok(entry)) {
        let entry = choose|entry: EntryView| #[trigger]
            state.mutation.leads_to(existing, Ok(entry));
        lemma_refusal_excludes(state.mutation, existing, refusal, Ok(entry));
    }
    let found = choose|found: LifecycleError|
        {
            &&& #[trigger] state.mutation.leads_to(existing, Err(found))
            &&& after == state.ended()
            &&& action == (ActionView::Finish { outcome: Err(found) })
        };
    lemma_refusal_excludes(state.mutation, existing, refusal, Err(found));
}

/// Yanking or unyanking a version that the record does not hold ends with
/// the answer that the version was not found, and writes nothing.
pub proof fn law_absent_version_writes_nothing(
    state: MutatorView,
    entry: EntryView,
    version: Seq<char>,
    after: MutatorView,
    action: ActionView,
)
    requires
        state.phase == Phase::Reading,
        state.mutation == (MutationView::Yank { version }) || state.mutation == (
        MutationView::Unyank { version }),
        crate::version::semver_parse(version) is Some,
        !crate::lifecycle::holds_version(
            entry.versions,
            crate::version::semver_parse(version).unwrap(),
        ),
        state.steps(EventView::Read { existing: Some(entry) }, after, action),
    ensures
        action == (ActionView::Finish { outcome: Err(LifecycleError::VersionNotFound) }),
        !action.writes(),
{
    law_refusal_writes_nothing(state, Some(entry), LifecycleError::VersionNotFound, after, action);
}

/// Nothing is written but the change itself, worked out on the record that
/// was just read: over a record that was found it is swapped in, and where
/// none was found it is inserted.
pub proof fn law_writes_follow_reads(
    state: MutatorView,
    event: EventView,
    after: MutatorView,
    action: ActionView,
)
    requires
        state.steps(event, after, action),
        action.writes(),
    ensures
        state.phase == Phase::Reading,
        after.phase == Phase::Writing,
        event matches EventView::Read { existing } && match action {
            ActionView::Swap { entry } => existing is Some && state.mutation.leads_to(
                existing,
                Ok(entry),
            ),
            ActionView::Insert { entry } => existing is None && state.mutation.leads_to(
                existing,
                Ok(entry),
            ),
            _ => false,
        },
{
}

/// A run of the change: each event took it from one state to the next.
pub open spec fn is_run(
    states: Seq<MutatorView>,
    events: Seq<EventView>,
    actions: Seq<ActionView>,
) -> bool {
    &&& states.len() == events.len() + 1
    &&& actions.len() == events.len()
    &&& forall|k: int|
        0 <= k < events.len() ==> (#[trigger] states[k]).steps(
            events[k],
            states[k + 1],
            actions[k],
        )
}

/// How many of the actions are reads.
pub open spec fn reads_in(actions: Seq<ActionView>) -> nat
    decreases actions.len(),
{
    if actions.len() == 0 {
        0
    } else {
        reads_in(actions.drop_last()) + if actions.last() is Read {
            1nat
        } else {
            0nat
        }
    }
}

/// However the store answers, a change reads the record no more often than
/// it has attempts left: it cannot retry for ever.
pub proof fn law_reads_bounded(
    states: Seq<MutatorView>,
    events: Seq<EventView>,
    actions: Seq<ActionView>,
)
    requires
        is_run(states, events, actions),
    ensures
        reads_in(actions) + states.last().attempts_left <= states[0].attempts_left,
    decreases events.len(),
{
    if events.len() > 0 {
        let n = events.len() as int;
        let earlier_states = states.drop_last();
        let earlier_events = events.drop_last();
        let earlier_actions = actions.drop_last();
        assert forall|k: int| 0 <= k < earlier_events.len() implies (#[trigger] earlier_states[k]).steps(
            earlier_events[k],
            earlier_states[k + 1],
            earlier_actions[k],
        ) by {
            assert(states[k].steps(events[k], states[k + 1], actions[k]));
        }
        law_reads_bounded(earlier_states, earlier_events, earlier_actions);
        assert(states[n - 1].steps(events[n - 1], states[n], actions[n - 1]));
        assert(earlier_states.last() == states[n - 1]);
    }
}

/// A change keeps the record sound: what it leaves of a sound record, or
/// where there was none, is a sound record again.
pub proof fn law_change_keeps_wf(
    mutation: MutationView,
    existing: Option<EntryView>,
    after: EntryView,
)
    requires
        mutation.leads_to(existing, Ok(after)),
        existing matches Some(entry) ==> entry.wf(),
    ensures
        after.wf(),
{
    match mutation {
        MutationView::Publish { meta, cksum, now } => {
            crate::lifecycle::lemma_placed_ascending(
                crate::lifecycle::history(existing),
                crate::lifecycle::uploaded(meta, cksum, now),
                after.versions,
            );
        },
        MutationView::Yank { version } => {
            crate::lifecycle::law_toggle_keeps_history(existing.unwrap(), version, true, after);
        },
        MutationView::Unyank { version } => {
            crate::lifecycle::law_toggle_keeps_history(existing.unwrap(), version, false, after);
        },
    }
}

/// The records of the store, by the name of the crate.
pub type Records = Map<Seq<char>, EntryView>;

/// The store after an action on the record of `name` has gone through.
pub open spec fn store_after(store: Records, name: Seq<char>, action: ActionView) -> Records {
    match action {
        ActionView::Swap { entry } => store.insert(name, entry),
        ActionView::Insert { entry } => store.insert(name, entry),
        _ => store,
    }
}

/// What the store holds for a name.
pub open spec fn record_of(store: Records, name: Seq<char>) -> Option<EntryView> {
    if store.contains_key(name) {
        Some(store[name])
    } else {
        None
    }
}

/// A refused change leaves the store exactly as it was, whatever the reason
/// of the refusal: a version that is there already, a name that is
/// upstream's, a version that is not found, a flag that would not change.
pub proof fn law_refusal_leaves_store(
    store: Records,
    name: Seq<char>,
    state: MutatorView,
    refusal: LifecycleError,
    after: MutatorView,
    action: ActionView,
)
    requires
        state.phase == Phase::Reading,
        state.mutation.leads_to(record_of(store, name), Err(refusal)),
        state.steps(EventView::Read { existing: record_of(store, name) }, after, action),
    ensures
        store_after(store, name, action) == store,
        action == (ActionView::Finish { outcome: Err(refusal) }),
{
    law_refusal_writes_nothing(state, record_of(store, name), refusal, after, action);
}

/// An accepted change touches the record of its own name only, and leaves
/// there the change worked out on the record that the store held.
pub proof fn law_accepted_change_is_stored(
    store: Records,
    name: Seq<char>,
    state: MutatorView,
    after: MutatorView,
    action: ActionView,
)
    requires
        state.steps(EventView::Read { existing: record_of(store, name) }, after, action),
        action.writes(),
    ensures
        forall|other: Seq<char>|
            other != name ==> record_of(store_after(store, name, action), other) == record_of(
                store,
                other,
            ),
        record_of(store_after(store, name, action), name) matches Some(entry)
            && state.mutation.leads_to(record_of(store, name), Ok(entry)),
{
    law_writes_follow_reads(state, EventView::Read { existing: record_of(store, name) }, after, action);
}

} // verus!

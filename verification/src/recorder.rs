//! Recording one session: a `SessionStarted` event, runtime observations, and a closing
//! `SessionEnded` event, appended in order to the session's stream.

use vstd::prelude::*;
use crate::clock::{Clock, IdGenerator};
use crate::event::{
    CommandSpec, EnvelopeView, EventEnvelope, Observation, ObservationView, RuntimeObservation,
    SessionEnded, SessionEndedView, SessionOutcome, SessionStarted,
    SessionStartedView, EVENT_SCHEMA_VERSION,
};
use crate::identity::{EventId, EventSequence, SessionId};
use crate::state::{opt_state_view, WorkspaceState};
use crate::store::{
    last_sequence, lemma_admitted_append_keeps_contiguous, stream_contiguous,
    EventStore, EventStoreError, ExpectedVersion,
};
use crate::text::string_of;

verus! {

broadcast use {EventSequence::lemma_spec_new, EventSequence::lemma_spec_new_of_view};

/// Records the events of one session into an event store.
pub struct SessionRecorder<S, C, I> {
    session_id: SessionId,
    last_sequence: EventSequence,
    store: S,
    clock: C,
    ids: I,
}

#[derive(Clone, Copy, Debug, Eq, PartialEq, Structural)]
pub struct RecordedEvent {
    event_id: EventId,
    sequence: EventSequence,
}

/// A session whose `SessionEnded` event has been recorded.
pub struct CompletedSession<S, C, I> {
    session_id: SessionId,
    final_sequence: EventSequence,
    store: S,
    clock: C,
    ids: I,
}

#[derive(Clone, Debug, Eq, PartialEq)]
pub enum RecorderError {
    Store(EventStoreError),
    SequenceExhausted,
}

/// An open session stream: numbered 0, 1, ... for `session`, opened by `SessionStarted`
/// and followed only by runtime observations.
pub open spec fn open_session(stream: Seq<EnvelopeView>, session: u128) -> bool {
    &&& stream.len() >= 1
    &&& stream_contiguous(stream, session)
    &&& stream[0].observation is SessionStarted
    &&& forall|i: int| 1 <= i < stream.len() ==> (#[trigger] stream[i]).observation is Runtime
    &&& forall|i: int| 0 <= i < stream.len() ==> (#[trigger] stream[i]).schema_version == EVENT_SCHEMA_VERSION
}

/// How many events of `s` record runtime observations.
pub open spec fn observation_count(s: Seq<EnvelopeView>) -> nat
    decreases s.len(),
{
    if s.len() == 0 {
        0
    } else {
        observation_count(s.drop_last()) + if s.last().observation is Runtime {
            1nat
        } else {
            0nat
        }
    }
}

proof fn lemma_open_prefix_count(s: Seq<EnvelopeView>, session: u128, n: int)
    requires
        open_session(s, session),
        1 <= n <= s.len(),
    ensures
        observation_count(s.subrange(0, n)) == n - 1,
    decreases n,
{
    if n > 1 {
        lemma_open_prefix_count(s, session, n - 1);
        assert(s.subrange(0, n).drop_last() =~= s.subrange(0, n - 1));
        assert(s.subrange(0, n).last() == s[n - 1]);
        assert(s[n - 1].observation is Runtime);
    } else {
        assert(s.subrange(0, 1).drop_last() =~= Seq::<EnvelopeView>::empty());
        assert(s.subrange(0, 1).last() == s[0]);
        assert(observation_count(Seq::<EnvelopeView>::empty()) == 0);
    }
}

/// An open session's stream holds its `SessionStarted` and then one event per recorded
/// observation, numbered 0 to the last sequence: the last sequence counts the observations.
pub proof fn lemma_last_sequence_counts_observations<S: EventStore, C: Clock, I: IdGenerator>(
    rec: SessionRecorder<S, C, I>,
)
    requires
        rec.wf(),
    ensures
        rec.spec_last_sequence() == observation_count(rec.events()),
        forall|i: int| 0 <= i < rec.events().len() ==> #[trigger] rec.events()[i].sequence == i,
{
    let s = rec.events();
    lemma_open_prefix_count(s, rec.spec_session_id(), s.len() as int);
    assert(s.subrange(0, s.len() as int) =~= s);
}

/// A completed session holds its `SessionStarted`, one event per observation and its
/// `SessionEnded`: its final sequence is the number of observations plus one.
pub proof fn lemma_final_sequence_counts_observations(stream: Seq<EnvelopeView>, session: u128)
    requires
        completed_session(stream, session),
    ensures
        stream.len() - 1 == observation_count(stream) + 1,
{
    let open = stream.drop_last();
    lemma_open_prefix_count(open, session, open.len() as int);
    assert(open.subrange(0, open.len() as int) =~= open);
}

/// A completed session stream: an open session closed by one final `SessionEnded` event.
pub open spec fn completed_session(stream: Seq<EnvelopeView>, session: u128) -> bool {
    &&& stream.len() >= 2
    &&& open_session(stream.drop_last(), session)
    &&& stream_contiguous(stream, session)
    &&& stream.last().observation is SessionEnded
    &&& stream.last().schema_version == EVENT_SCHEMA_VERSION
}

/// Errors the store itself may report whatever the appended event.
pub open spec fn store_failure(e: EventStoreError) -> bool {
    e is Unavailable || e is Corrupt
}

/// The errors a sink holding `held` events can report when it is asked to record: its
/// store failed, or, once it holds more than `u64::MAX` events, its sequence numbers ran out.
pub open spec fn recording_failure(e: RecorderError, held: nat) -> bool {
    ||| e is SequenceExhausted && held > u64::MAX
    ||| e matches RecorderError::Store(se) && store_failure(se)
}

impl View for RecordedEvent {
    type V = (u128, u64);

    closed spec fn view(&self) -> (u128, u64) {
        (self.event_id@, self.sequence@)
    }
}

impl RecordedEvent {
    pub fn event_id(self) -> (r: EventId)
        ensures
            r@ == self@.0,
    {
        self.event_id
    }

    pub fn sequence(self) -> (r: EventSequence)
        ensures
            r@ == self@.1,
    {
        self.sequence
    }
}

impl<S: EventStore, C: Clock, I: IdGenerator> SessionRecorder<S, C, I> {
    pub closed spec fn spec_session_id(&self) -> u128 {
        self.session_id@
    }

    pub closed spec fn spec_last_sequence(&self) -> u64 {
        self.last_sequence@
    }

    pub closed spec fn spec_store(&self) -> S {
        self.store
    }

    pub closed spec fn spec_clock(&self) -> C {
        self.clock
    }

    pub closed spec fn spec_ids(&self) -> I {
        self.ids
    }

    /// The events recorded so far in this session's stream.
    pub open spec fn events(&self) -> Seq<EnvelopeView> {
        self.spec_store().stream(self.spec_session_id())
    }

    /// The recorder's stream is an open session that ends at `last_sequence`.
    pub open spec fn wf(&self) -> bool {
        &&& open_session(self.events(), self.spec_session_id())
        &&& self.events().len() == self.spec_last_sequence() + 1
    }

    /// Opens a session: draws a fresh session id and appends its `SessionStarted` event at
    /// sequence zero to an empty stream.
    pub fn start(
        store: S,
        clock: C,
        ids: I,
        command: CommandSpec,
        initial_workspace: Option<WorkspaceState>,
    ) -> (r: Result<Self, RecorderError>)
        ensures
            r matches Ok(rec) ==> {
                &&& rec.wf()
                &&& rec.spec_last_sequence() == 0
                &&& store.stream(rec.spec_session_id()).len() == 0
                &&& rec.events().len() == 1
                &&& rec.events()[0].observation == ObservationView::SessionStarted(SessionStartedView {
                    command: command@,
                    initial_workspace: opt_state_view(initial_workspace),
                })
                &&& forall|s: u128| s != rec.spec_session_id() ==> #[trigger] rec.spec_store().stream(s) == store.stream(s)
                &&& exists|drawn: I| #[trigger] ids.gives_session(drawn, rec.spec_session_id())
                    && drawn.gives_event(rec.spec_ids(), rec.events()[0].event_id)
                &&& clock.gives(rec.spec_clock(), rec.events()[0].recorded_at)
            },
            r matches Err(e) ==> (e matches RecorderError::Store(se) && (store_failure(se) || (se is Conflict
                && exists|s: u128| #[trigger] store.stream(s).len() > 0))),
    {
        let mut store = store;
        let mut clock = clock;
        let mut ids = ids;
        let ghost ids0 = ids;
        let ghost clock0 = clock;
        let session_id = ids.next_session_id();
        let ghost ids1 = ids;
        let event_id = ids.next_event_id();
        let recorded_at = clock.now();
        let event = EventEnvelope::new(
            event_id,
            session_id,
            EventSequence::zero(),
            recorded_at,
            Observation::SessionStarted(SessionStarted::new(command, initial_workspace)),
        );
        let ghost before = store.stream(session_id@);
        let ghost old_store = store;
        match store.append(ExpectedVersion::Empty, event) {
            Ok(()) => {},
            Err(e) => {
                proof {
                    if e is Conflict {
                        assert(old_store.stream(session_id@).len() > 0);
                    }
                }
                return Err(RecorderError::Store(e));
            },
        }
        proof {
            lemma_admitted_append_keeps_contiguous(before, ExpectedVersion::Empty, event@);
            assert(before.len() == 0);
            assert(ids0.gives_session(ids1, session_id@) && ids1.gives_event(ids, event_id@));
        }
        let rec = SessionRecorder { session_id, last_sequence: EventSequence::zero(), store, clock, ids };
        assert(rec.events()[0] == event@);
        Ok(rec)
    }

    pub fn session_id(&self) -> (r: SessionId)
        ensures
            r@ == self.spec_session_id(),
    {
        self.session_id
    }

    pub fn last_sequence(&self) -> (r: EventSequence)
        ensures
            r@ == self.spec_last_sequence(),
    {
        self.last_sequence
    }

    /// Appends a runtime observation as the next event of the session.
    pub fn record_observation(&mut self, observation: RuntimeObservation) -> (r: Result<RecordedEvent, RecorderError>)
        requires
            old(self).wf(),
        ensures
            final(self).wf(),
            final(self).spec_session_id() == old(self).spec_session_id(),
            forall|s: u128| s != old(self).spec_session_id() ==> #[trigger] final(self).spec_store().stream(s)
                == old(self).spec_store().stream(s),
            r matches Ok(ev) ==> {
                &&& final(self).events().drop_last() == old(self).events()
                &&& final(self).events().len() == old(self).events().len() + 1
                &&& final(self).events().last().observation == ObservationView::Runtime(observation@)
                &&& final(self).events().last().event_id == ev@.0
                &&& ev@.1 == old(self).spec_last_sequence() + 1
                &&& final(self).spec_last_sequence() == ev@.1
                &&& old(self).spec_ids().gives_event(final(self).spec_ids(), ev@.0)
                &&& old(self).spec_clock().gives(final(self).spec_clock(), final(self).events().last().recorded_at)
            },
            r matches Err(RecorderError::SequenceExhausted) ==> final(self).spec_ids() == old(self).spec_ids()
                && final(self).spec_clock() == old(self).spec_clock(),
            r is Err ==> final(self).events() == old(self).events() && final(self).spec_last_sequence()
                == old(self).spec_last_sequence(),
            r matches Err(e) ==> (e == RecorderError::SequenceExhausted && old(self).spec_last_sequence() == u64::MAX)
                || (e matches RecorderError::Store(se) && store_failure(se)),
            old(self).spec_last_sequence() == u64::MAX ==> r == Err::<RecordedEvent, RecorderError>(RecorderError::SequenceExhausted),
    {
        let sequence = match self.last_sequence.checked_next() {
            Some(s) => s,
            None => return Err(RecorderError::SequenceExhausted),
        };
        let event_id = self.ids.next_event_id();
        let recorded_at = self.clock.now();
        let event = EventEnvelope::new(
            event_id,
            self.session_id,
            sequence,
            recorded_at,
            Observation::Runtime(observation),
        );
        let ghost before = self.events();
        proof {
            assert(before.last().sequence == self.last_sequence@);
        }
        match self.store.append(ExpectedVersion::Exact(self.last_sequence), event) {
            Ok(()) => {},
            Err(e) => {
                return Err(RecorderError::Store(e));
            },
        }
        proof {
            lemma_admitted_append_keeps_contiguous(before, ExpectedVersion::Exact(self.last_sequence), event@);
        }
        self.last_sequence = sequence;
        proof {
            assert(self.events().drop_last() =~= before);
        }
        Ok(RecordedEvent { event_id, sequence })
    }

    /// Closes the session with a `SessionEnded` event and hands back the store, clock and
    /// identifier source.
    pub fn finish(self, outcome: SessionOutcome, final_workspace: Option<WorkspaceState>) -> (r: Result<
        CompletedSession<S, C, I>,
        RecorderError,
    >)
        requires
            self.wf(),
        ensures
            r matches Ok(c) ==> {
                &&& c.spec_session_id() == self.spec_session_id()
                &&& c.events().drop_last() == self.events()
                &&& c.events().last().observation == ObservationView::SessionEnded(SessionEndedView {
                    outcome,
                    final_workspace: opt_state_view(final_workspace),
                })
                &&& completed_session(c.events(), c.spec_session_id())
                &&& c.spec_final_sequence() == self.spec_last_sequence() + 1
                &&& c.events().len() == c.spec_final_sequence() + 1
                &&& forall|s: u128| s != self.spec_session_id() ==> #[trigger] c.spec_store().stream(s)
                    == self.spec_store().stream(s)
                &&& self.spec_ids().gives_event(c.spec_ids(), c.events().last().event_id)
                &&& self.spec_clock().gives(c.spec_clock(), c.events().last().recorded_at)
            },
            r matches Err(e) ==> (e == RecorderError::SequenceExhausted && self.spec_last_sequence() == u64::MAX)
                || (e matches RecorderError::Store(se) && store_failure(se)),
            self.spec_last_sequence() == u64::MAX ==> r matches Err(RecorderError::SequenceExhausted),
    {
        let mut this = self;
        let sequence = match this.last_sequence.checked_next() {
            Some(s) => s,
            None => return Err(RecorderError::SequenceExhausted),
        };
        let event_id = this.ids.next_event_id();
        let recorded_at = this.clock.now();
        let event = EventEnvelope::new(
            event_id,
            this.session_id,
            sequence,
            recorded_at,
            Observation::SessionEnded(SessionEnded::new(outcome, final_workspace)),
        );
        let ghost before = this.events();
        proof {
            assert(before.last().sequence == this.last_sequence@);
        }
        match this.store.append(ExpectedVersion::Exact(this.last_sequence), event) {
            Ok(()) => {},
            Err(e) => {
                return Err(RecorderError::Store(e));
            },
        }
        proof {
            lemma_admitted_append_keeps_contiguous(before, ExpectedVersion::Exact(this.last_sequence), event@);
        }
        let done = CompletedSession {
            session_id: this.session_id,
            final_sequence: sequence,
            store: this.store,
            clock: this.clock,
            ids: this.ids,
        };
        proof {
            assert(done.events().drop_last() =~= before);
        }
        Ok(done)
    }
}

impl<S: EventStore, C, I> CompletedSession<S, C, I> {
    pub closed spec fn spec_session_id(&self) -> u128 {
        self.session_id@
    }

    pub closed spec fn spec_final_sequence(&self) -> u64 {
        self.final_sequence@
    }

    pub closed spec fn spec_store(&self) -> S {
        self.store
    }

    pub closed spec fn spec_clock(&self) -> C {
        self.clock
    }

    pub closed spec fn spec_ids(&self) -> I {
        self.ids
    }

    /// The events of the completed session.
    pub open spec fn events(&self) -> Seq<EnvelopeView> {
        self.spec_store().stream(self.spec_session_id())
    }

    pub fn session_id(&self) -> (r: SessionId)
        ensures
            r@ == self.spec_session_id(),
    {
        self.session_id
    }

    pub fn final_sequence(&self) -> (r: EventSequence)
        ensures
            r@ == self.spec_final_sequence(),
    {
        self.final_sequence
    }

    pub fn into_parts(self) -> (r: (S, C, I))
        ensures
            r.0 == self.spec_store(),
            r.1 == self.spec_clock(),
            r.2 == self.spec_ids(),
    {
        (self.store, self.clock, self.ids)
    }
}

impl RecorderError {
    pub open spec fn spec_message(&self) -> Seq<char> {
        match self {
            RecorderError::Store(source) => source.spec_message(),
            RecorderError::SequenceExhausted => "event sequence is exhausted"@,
        }
    }

    /// The human-readable description of the error.
    pub fn message(&self) -> (r: String)
        ensures
            r@ == self.spec_message(),
    {
        match self {
            RecorderError::Store(source) => source.message(),
            RecorderError::SequenceExhausted => string_of("event sequence is exhausted"),
        }
    }
}


impl From<EventStoreError> for RecorderError {
    fn from(value: EventStoreError) -> (r: Self) {
        RecorderError::Store(value)
    }
}

impl vstd::std_specs::convert::FromSpecImpl<EventStoreError> for RecorderError {
    open spec fn obeys_from_spec() -> bool {
        true
    }

    open spec fn from_spec(v: EventStoreError) -> RecorderError {
        RecorderError::Store(v)
    }
}

} // verus!

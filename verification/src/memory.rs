//! An event store held in memory.

use std::collections::BTreeMap;
use vstd::prelude::*;
use crate::event::{EnvelopeView, EventEnvelope};
use crate::identity::SessionId;
use crate::store::{
    append_refusal, check_append, envelope_views, last_sequence, lemma_admitted_append_keeps_contiguous,
    stream_contiguous, EventStore, EventStoreError, ExpectedVersion,
};

verus! {

broadcast use {vstd::std_specs::btree::group_btree_axioms, vstd::laws_cmp::group_laws_cmp};

/// Event streams kept in memory, keyed by session identifier.
#[derive(Debug)]
pub struct InMemoryEventStore {
    streams: BTreeMap<u128, Vec<EventEnvelope>>,
}

impl InMemoryEventStore {
    /// Each stream is numbered 0, 1, 2, ... and holds only its own session's events.
    #[verifier::type_invariant]
    spec fn streams_numbered(self) -> bool {
        forall|s: u128| #[trigger] self.streams@.contains_key(s) ==> stream_contiguous(envelope_views(self.streams@[s]@), s)
    }

    pub closed spec fn spec_stream(&self, session: u128) -> Seq<EnvelopeView> {
        if self.streams@.contains_key(session) {
            envelope_views(self.streams@[session]@)
        } else {
            Seq::empty()
        }
    }

    /// A store holding no events.
    pub fn new() -> (r: Self)
        ensures
            forall|s: u128| #[trigger] r.spec_stream(s) == Seq::<EnvelopeView>::empty(),
    {
        InMemoryEventStore { streams: BTreeMap::new() }
    }

    /// The events of one session, in stream order: those whose append was accepted,
    /// numbered 0, 1, 2, ...
    pub fn events(&self, session_id: SessionId) -> (r: &[EventEnvelope])
        ensures
            envelope_views(r@) == self.spec_stream(session_id@),
            stream_contiguous(envelope_views(r@), session_id@),
    {
        proof {
            use_type_invariant(self);
        }
        let key = session_id.as_u128();
        match self.streams.get(&key) {
            Some(v) => v.as_slice(),
            None => {
                assert(envelope_views(Seq::<EventEnvelope>::empty()) =~= Seq::<EnvelopeView>::empty());
                &[]
            },
        }
    }
}

impl Clone for InMemoryEventStore {
    /// A store holding the same streams.
    fn clone(&self) -> (r: Self)
        ensures
            forall|s: u128| #[trigger] r.spec_stream(s) == self.spec_stream(s),
    {
        proof {
            use_type_invariant(self);
        }
        InMemoryEventStore { streams: self.streams.clone() }
    }
}

impl Default for InMemoryEventStore {
    fn default() -> (r: Self)
        ensures
            forall|s: u128| #[trigger] r.spec_stream(s) == Seq::<EnvelopeView>::empty(),
    {
        InMemoryEventStore::new()
    }
}

/// Copies envelopes exactly.
pub fn duplicate_envelopes(events: &[EventEnvelope]) -> (r: Vec<EventEnvelope>)
    ensures
        envelope_views(r@) == envelope_views(events@),
{
    let mut out: Vec<EventEnvelope> = Vec::new();
    let mut i: usize = 0;
    while i < events.len()
        invariant
            i <= events@.len(),
            out@.len() == i,
            forall|k: int| 0 <= k < i ==> (#[trigger] out@[k])@ == events@[k]@,
        decreases events@.len() - i,
    {
        out.push(events[i].duplicate());
        i = i + 1;
    }
    assert(envelope_views(out@) =~= envelope_views(events@));
    out
}

impl EventStore for InMemoryEventStore {
    open spec fn stream(&self, session: u128) -> Seq<EnvelopeView> {
        self.spec_stream(session)
    }

    fn append(&mut self, expected: ExpectedVersion, event: EventEnvelope) -> (r: Result<(), EventStoreError>)
        ensures
            ({
                let refusal = append_refusal(
                    expected,
                    last_sequence(old(self).stream(event@.session_id)),
                    event@.sequence,
                );
                &&& r is Ok <==> refusal is None
                &&& r matches Err(e) ==> refusal == Some(e)
            }),
    {
        proof {
            use_type_invariant(&*self);
        }
        let key = event.session_id().as_u128();
        let ghost old_stream = self.spec_stream(key);
        let actual = match self.streams.get(&key) {
            Some(v) => {
                if v.len() > 0 {
                    assert(old_stream.last() == v@[v@.len() - 1]@);
                    Some(v[v.len() - 1].sequence())
                } else {
                    None
                }
            },
            None => None,
        };
        let checked = check_append(expected, actual, event.sequence());
        if let Err(e) = checked {
            return Err(e);
        }
        let mut streams: BTreeMap<u128, Vec<EventEnvelope>> = BTreeMap::new();
        std::mem::swap(&mut streams, &mut self.streams);
        let ghost old_streams = streams@;
        assert(old_streams == old(self).streams@);
        let mut stream = match streams.remove(&key) {
            Some(v) => v,
            None => Vec::new(),
        };
        let ghost before = stream@;
        proof {
            assert(envelope_views(before) == old_stream);
            if !old_streams.contains_key(key) {
                assert(envelope_views(before) =~= Seq::<EnvelopeView>::empty());
            }
            lemma_admitted_append_keeps_contiguous(old_stream, expected, event@);
        }
        stream.push(event);
        assert(envelope_views(stream@) =~= envelope_views(before).push(event@));
        streams.insert(key, stream);
        proof {
            assert forall|s: u128| #[trigger] streams@.contains_key(s) implies stream_contiguous(
                envelope_views(streams@[s]@),
                s,
            ) by {
                if s != key {
                    assert(old_streams.contains_key(s) && streams@[s] == old_streams[s]);
                }
            }
        }
        self.streams = streams;
        assert forall|s: u128| s != key implies #[trigger] self.spec_stream(s) == old(self).spec_stream(s) by {
            assert(self.streams@.contains_key(s) == old(self).streams@.contains_key(s));
            if self.streams@.contains_key(s) {
                assert(self.streams@[s] == old(self).streams@[s]);
            }
        }
        Ok(())
    }

    fn load(&self, session_id: SessionId) -> (r: Result<Vec<EventEnvelope>, EventStoreError>)
        ensures
            r is Ok,
    {
        Ok(duplicate_envelopes(self.events(session_id)))
    }
}

} // verus!

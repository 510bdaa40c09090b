//! Sources of time and of fresh identifiers for the recorder.

use vstd::prelude::*;
use crate::identity::{EventId, SessionId};
use crate::time::UnixNanos;

verus! {

/// A source of wall-clock time. Each implementation says, through `gives`, which readings
/// it can hand out and how a reading changes it.
pub trait Clock: Sized {
    /// The clock, going from `self` to `after`, can hand out the reading `nanos`.
    ///
    /// A clock kept outside the library, whose readings the library cannot describe,
    /// leaves this unspecified.
    closed spec fn gives(self, after: Self, nanos: i64) -> bool {
        arbitrary()
    }

    fn now(&mut self) -> (r: UnixNanos)
        ensures
            old(self).gives(*final(self), r@),
    ;
}

/// A source of fresh identifiers. Each implementation says, through `gives_session` and
/// `gives_event`, which identifiers it can hand out and how drawing one changes it.
pub trait IdGenerator: Sized {
    /// The source, going from `self` to `after`, can hand out the session identifier `id`.
    ///
    /// A source kept outside the library leaves this and `gives_event` unspecified.
    closed spec fn gives_session(self, after: Self, id: u128) -> bool {
        arbitrary()
    }

    /// The source, going from `self` to `after`, can hand out the event identifier `id`.
    closed spec fn gives_event(self, after: Self, id: u128) -> bool {
        arbitrary()
    }

    fn next_session_id(&mut self) -> (r: SessionId)
        ensures
            old(self).gives_session(*final(self), r@),
    ;

    fn next_event_id(&mut self) -> (r: EventId)
        ensures
            old(self).gives_event(*final(self), r@),
    ;
}

} // verus!

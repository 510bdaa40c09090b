//! Workspace state: a generation counter plus an optional content digest, and the
//! transitions between adjacent generations.

use vstd::prelude::*;
use crate::text::{decimal, push_decimal, push_str, string_of};

verus! {

#[derive(Clone, Copy, Debug, Eq, Hash, Ord, PartialEq, PartialOrd, Structural)]
pub struct WorkspaceGeneration(u64);

#[derive(Clone, Copy, Debug, Eq, PartialEq, Hash, Structural)]
pub enum DigestAlgorithm {
    Blake3,
}

#[derive(Clone, Debug, Eq, PartialEq)]
pub struct ContentDigest {
    algorithm: DigestAlgorithm,
    bytes: [u8; 32],
}

#[derive(Clone, Debug, Eq, PartialEq)]
pub struct WorkspaceState {
    generation: WorkspaceGeneration,
    digest: Option<ContentDigest>,
}

#[derive(Clone, Debug, Eq, PartialEq)]
pub struct WorkspaceTransition {
    previous: WorkspaceState,
    current: WorkspaceState,
}

#[derive(Clone, Copy, Debug, Eq, PartialEq, Structural)]
pub enum StateError {
    GenerationExhausted,
    NonAdjacentGeneration { previous: WorkspaceGeneration, current: WorkspaceGeneration },
}

pub struct ContentDigestView {
    pub algorithm: DigestAlgorithm,
    pub bytes: Seq<u8>,
}

pub struct WorkspaceStateView {
    pub generation: u64,
    pub digest: Option<ContentDigestView>,
}

pub struct WorkspaceTransitionView {
    pub previous: WorkspaceStateView,
    pub current: WorkspaceStateView,
}

/// A transition is well formed when it advances the generation by exactly one.
pub open spec fn transition_wf(t: WorkspaceTransitionView) -> bool {
    t.current.generation == t.previous.generation + 1
}

impl View for WorkspaceGeneration {
    type V = u64;

    closed spec fn view(&self) -> u64 {
        self.0
    }
}

impl View for ContentDigest {
    type V = ContentDigestView;

    closed spec fn view(&self) -> ContentDigestView {
        ContentDigestView { algorithm: self.algorithm, bytes: self.bytes@ }
    }
}

pub open spec fn opt_digest_view(d: Option<ContentDigest>) -> Option<ContentDigestView> {
    match d {
        Some(d) => Some(d@),
        None => None,
    }
}

impl View for WorkspaceState {
    type V = WorkspaceStateView;

    closed spec fn view(&self) -> WorkspaceStateView {
        WorkspaceStateView { generation: self.generation@, digest: opt_digest_view(self.digest) }
    }
}

pub open spec fn opt_state_view(s: Option<WorkspaceState>) -> Option<WorkspaceStateView> {
    match s {
        Some(s) => Some(s@),
        None => None,
    }
}

impl View for WorkspaceTransition {
    type V = WorkspaceTransitionView;

    closed spec fn view(&self) -> WorkspaceTransitionView {
        WorkspaceTransitionView { previous: self.previous@, current: self.current@ }
    }
}

impl WorkspaceGeneration {
    pub fn new(value: u64) -> (r: Self)
        ensures
            r@ == value,
    {
        WorkspaceGeneration(value)
    }

    /// The generation of the initial workspace state.
    pub fn zero() -> (r: Self)
        ensures
            r@ == 0,
    {
        WorkspaceGeneration(0)
    }

    pub fn value(self) -> (r: u64)
        ensures
            r == self@,
    {
        self.0
    }

    pub fn checked_next(self) -> (r: Option<Self>)
        ensures
            self@ < u64::MAX <==> r is Some,
            r matches Some(n) ==> n@ == self@ + 1,
    {
        if self.0 < u64::MAX {
            Some(WorkspaceGeneration(self.0 + 1))
        } else {
            None
        }
    }
}

impl ContentDigest {
    pub fn blake3(bytes: [u8; 32]) -> (r: Self)
        ensures
            r@ == (ContentDigestView { algorithm: DigestAlgorithm::Blake3, bytes: bytes@ }),
    {
        ContentDigest { algorithm: DigestAlgorithm::Blake3, bytes }
    }

    pub fn algorithm(&self) -> (r: DigestAlgorithm)
        ensures
            r == self@.algorithm,
    {
        self.algorithm
    }

    pub fn bytes(&self) -> (r: &[u8; 32])
        ensures
            r@ == self@.bytes,
            r@.len() == 32,
    {
        &self.bytes
    }

    pub fn duplicate(&self) -> (r: Self)
        ensures
            r@ == self@,
    {
        ContentDigest { algorithm: self.algorithm, bytes: self.bytes }
    }

    /// Whether two digests are the same value.
    pub fn same_as(&self, other: &ContentDigest) -> (r: bool)
        ensures
            r == (self@ == other@),
    {
        let algorithms_match = match (self.algorithm, other.algorithm) {
            (DigestAlgorithm::Blake3, DigestAlgorithm::Blake3) => true,
        };
        let mut i: usize = 0;
        while i < 32
            invariant
                i <= 32,
                self.bytes@.len() == 32,
                other.bytes@.len() == 32,
                forall|j: int| 0 <= j < i ==> self.bytes@[j] == other.bytes@[j],
            decreases 32 - i,
        {
            if self.bytes[i] != other.bytes[i] {
                assert(self.bytes@[i as int] != other.bytes@[i as int]);
                assert(self@.bytes != other@.bytes);
                return false;
            }
            i = i + 1;
        }
        assert(self@.bytes =~= other@.bytes);
        algorithms_match
    }
}

impl WorkspaceState {
    pub open spec fn spec_initial() -> WorkspaceStateView {
        WorkspaceStateView { generation: 0, digest: None }
    }

    pub fn initial() -> (r: Self)
        ensures
            r@ == Self::spec_initial(),
    {
        WorkspaceState { generation: WorkspaceGeneration(0), digest: None }
    }

    pub fn new(generation: WorkspaceGeneration, digest: Option<ContentDigest>) -> (r: Self)
        ensures
            r@ == (WorkspaceStateView { generation: generation@, digest: opt_digest_view(digest) }),
    {
        WorkspaceState { generation, digest }
    }

    pub fn generation(&self) -> (r: WorkspaceGeneration)
        ensures
            r@ == self@.generation,
    {
        self.generation
    }

    pub fn digest(&self) -> (r: Option<&ContentDigest>)
        ensures
            r matches Some(d) ==> self@.digest == Some(d@),
            r is None ==> self@.digest is None,
    {
        match &self.digest {
            Some(d) => Some(d),
            None => None,
        }
    }

    /// The next state: the generation advances by one and the digest is replaced.
    pub fn advance(&self, digest: Option<ContentDigest>) -> (r: Result<Self, StateError>)
        ensures
            self@.generation < u64::MAX <==> r is Ok,
            r matches Ok(s) ==> s@ == (WorkspaceStateView {
                generation: (self@.generation + 1) as u64,
                digest: opt_digest_view(digest),
            }),
            r matches Err(e) ==> e == StateError::GenerationExhausted,
    {
        match self.generation.checked_next() {
            Some(generation) => Ok(WorkspaceState { generation, digest }),
            None => Err(StateError::GenerationExhausted),
        }
    }

    pub fn duplicate(&self) -> (r: Self)
        ensures
            r@ == self@,
    {
        let digest = match &self.digest {
            Some(d) => Some(d.duplicate()),
            None => None,
        };
        WorkspaceState { generation: self.generation, digest }
    }

    /// Whether two states are the same value (same generation and same digest).
    pub fn same_as(&self, other: &WorkspaceState) -> (r: bool)
        ensures
            r == (self@ == other@),
    {
        if self.generation.0 != other.generation.0 {
            return false;
        }
        match (&self.digest, &other.digest) {
            (Some(a), Some(b)) => a.same_as(b),
            (None, None) => true,
            _ => false,
        }
    }
}

pub fn duplicate_state_option(s: Option<&WorkspaceState>) -> (r: Option<WorkspaceState>)
    ensures
        r matches Some(v) ==> s matches Some(w) && v@ == w@,
        r is None <==> s is None,
{
    match s {
        Some(w) => Some(w.duplicate()),
        None => None,
    }
}

impl WorkspaceTransition {
    /// A transition from `previous` to `current`; refused unless `current` is exactly one
    /// generation after `previous`.
    pub fn new(previous: WorkspaceState, current: WorkspaceState) -> (r: Result<Self, StateError>)
        ensures
            previous@.generation == u64::MAX ==> r == Err::<Self, StateError>(StateError::GenerationExhausted),
            previous@.generation < u64::MAX && current@.generation != previous@.generation + 1
                ==> (r matches Err(StateError::NonAdjacentGeneration { previous: p, current: c })
                    && p@ == previous@.generation && c@ == current@.generation),
            r is Ok <==> current@.generation == previous@.generation + 1,
            r matches Ok(t) ==> t@ == (WorkspaceTransitionView { previous: previous@, current: current@ }),
            r matches Ok(t) ==> transition_wf(t@),
    {
        let expected = match previous.generation.checked_next() {
            Some(g) => g,
            None => return Err(StateError::GenerationExhausted),
        };
        if current.generation.0 != expected.0 {
            return Err(
                StateError::NonAdjacentGeneration {
                    previous: previous.generation,
                    current: current.generation,
                },
            );
        }
        Ok(WorkspaceTransition { previous, current })
    }

    pub fn previous(&self) -> (r: &WorkspaceState)
        ensures
            r@ == self@.previous,
    {
        &self.previous
    }

    pub fn current(&self) -> (r: &WorkspaceState)
        ensures
            r@ == self@.current,
    {
        &self.current
    }

    pub fn duplicate(&self) -> (r: Self)
        ensures
            r@ == self@,
    {
        WorkspaceTransition { previous: self.previous.duplicate(), current: self.current.duplicate() }
    }
}

impl StateError {
    pub open spec fn spec_message(&self) -> Seq<char> {
        match self {
            StateError::GenerationExhausted => "workspace generation is exhausted"@,
            StateError::NonAdjacentGeneration { previous, current } =>
                "workspace transition must advance exactly once; previous="@ + decimal(previous@ as nat)
                    + ", current="@ + decimal(current@ as nat),
        }
    }

    /// The human-readable description of the error.
    pub fn message(&self) -> (r: String)
        ensures
            r@ == self.spec_message(),
    {
        match self {
            StateError::GenerationExhausted => string_of("workspace generation is exhausted"),
            StateError::NonAdjacentGeneration { previous, current } => {
                let mut s = string_of("workspace transition must advance exactly once; previous=");
                push_decimal(&mut s, previous.value() as u128);
                push_str(&mut s, ", current=");
                push_decimal(&mut s, current.value() as u128);
                s
            },
        }
    }
}


/// A state and the state `advance` makes of it always form a transition: `advance` gives
/// generation `g + 1`, which is what `WorkspaceTransition::new` admits after `g`.
pub proof fn lemma_advance_makes_transition(s: WorkspaceStateView, digest: Option<ContentDigestView>)
    requires
        s.generation < u64::MAX,
    ensures
        transition_wf(
            WorkspaceTransitionView {
                previous: s,
                current: WorkspaceStateView { generation: (s.generation + 1) as u64, digest },
            },
        ),
{
}

} // verus!

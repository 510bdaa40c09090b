use provenance::state::{ContentDigest, StateError, WorkspaceGeneration, WorkspaceState, WorkspaceTransition};

#[test]
fn workspace_transition_requires_adjacent_generations() {
    let previous = WorkspaceState::initial();
    let current = WorkspaceState::new(WorkspaceGeneration::new(2), None);

    let result = WorkspaceTransition::new(previous, current);

    assert_eq!(
        Err(StateError::NonAdjacentGeneration {
            previous: WorkspaceGeneration::zero(),
            current: WorkspaceGeneration::new(2),
        }),
        result
    );
}

#[test]
fn advancing_a_workspace_state_increments_generation_once() {
    let current = WorkspaceState::initial().advance(None).expect("state advances");

    assert_eq!(WorkspaceGeneration::new(1), current.generation());
}

#[test]
fn adjacent_generations_make_a_transition() {
    let previous = WorkspaceState::initial();
    let current = previous.advance(Some(ContentDigest::blake3([7u8; 32]))).expect("advance");
    let transition = WorkspaceTransition::new(previous.clone(), current.clone()).expect("adjacent");
    assert_eq!(&previous, transition.previous());
    assert_eq!(&current, transition.current());
    assert_eq!(Some(&ContentDigest::blake3([7u8; 32])), transition.current().digest());
}

#[test]
fn the_last_generation_cannot_advance() {
    let last = WorkspaceState::new(WorkspaceGeneration::new(u64::MAX), None);
    assert_eq!(Err(StateError::GenerationExhausted), last.advance(None));
    assert_eq!(None, WorkspaceGeneration::new(u64::MAX).checked_next());
    assert_eq!(
        "workspace transition must advance exactly once; previous=0, current=2",
        StateError::NonAdjacentGeneration {
            previous: WorkspaceGeneration::zero(),
            current: WorkspaceGeneration::new(2)
        }
        .message()
    );
}

use provenance::event::{CommandSpec, ProcessTermination};
use provenance::native::{NativePath, NativeString};
use provenance::state::WorkspaceState;
use provenance::validation::{
    assess_validation_freshness, classify_cargo_validation, CargoValidationKind, EvidenceContinuity,
    EvidenceFreshness, CARGO_VALIDATION_RULE_VERSION,
};

#[test]
fn validation_for_the_current_state_is_current() {
    let state = WorkspaceState::initial();

    assert_eq!(
        EvidenceFreshness::Current,
        assess_validation_freshness(&state, Some(&state), EvidenceContinuity::Complete)
    );
}

#[test]
fn later_workspace_state_makes_validation_stale() {
    let validated = WorkspaceState::initial();
    let current = validated.advance(None).expect("state advances");

    assert_eq!(
        EvidenceFreshness::Stale,
        assess_validation_freshness(&validated, Some(&current), EvidenceContinuity::Complete)
    );
}

#[test]
fn observation_gap_makes_freshness_indeterminate() {
    let state = WorkspaceState::initial();

    assert_eq!(
        EvidenceFreshness::Indeterminate,
        assess_validation_freshness(&state, Some(&state), EvidenceContinuity::GapObserved)
    );
}

#[test]
fn unknown_current_state_makes_freshness_indeterminate() {
    let state = WorkspaceState::initial();
    assert_eq!(
        EvidenceFreshness::Indeterminate,
        assess_validation_freshness(&state, None, EvidenceContinuity::Complete)
    );
}

fn cargo(args: &[&str]) -> CommandSpec {
    CommandSpec::new(
        NativePath::from_unix_bytes(b"/usr/bin/cargo".to_vec()),
        args.iter().map(|a| NativeString::from_unix_bytes(a.as_bytes().to_vec())).collect(),
        NativePath::from_unix_bytes(b"/workspace".to_vec()),
    )
}

#[test]
fn cargo_checks_are_classified_as_validation() {
    let test = classify_cargo_validation(&cargo(&["test"]), &ProcessTermination::ExitCode(0)).expect("test");
    assert_eq!(CargoValidationKind::Test, test.kind);
    assert_eq!(CARGO_VALIDATION_RULE_VERSION, test.rule_version);
    assert!(test.is_passing);

    let clippy = classify_cargo_validation(&cargo(&["clippy"]), &ProcessTermination::ExitCode(1)).expect("clippy");
    assert_eq!(CargoValidationKind::Clippy, clippy.kind);
    assert!(!clippy.is_passing);

    let fmt = classify_cargo_validation(&cargo(&["fmt", "--check"]), &ProcessTermination::Signal(9)).expect("fmt");
    assert_eq!(CargoValidationKind::FmtCheck, fmt.kind);
    assert!(!fmt.is_passing);

    assert!(classify_cargo_validation(&cargo(&["build"]), &ProcessTermination::ExitCode(0)).is_none());
    assert!(classify_cargo_validation(&cargo(&["fmt"]), &ProcessTermination::ExitCode(0)).is_none());
    let echo = CommandSpec::new(
        NativePath::from_unix_bytes(b"/bin/echo".to_vec()),
        vec![NativeString::from_unix_bytes(b"test".to_vec())],
        NativePath::from_unix_bytes(b"/".to_vec()),
    );
    assert!(classify_cargo_validation(&echo, &ProcessTermination::ExitCode(0)).is_none());
}

#[test]
fn validation_kinds_and_freshness_have_names() {
    assert_eq!("Test", CargoValidationKind::Test.name());
    assert_eq!("FmtCheck", CargoValidationKind::FmtCheck.name());
    assert_eq!("Current", EvidenceFreshness::Current.name());
    assert_eq!("GapObserved", EvidenceContinuity::GapObserved.name());
}

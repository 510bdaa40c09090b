//! Validation evidence: whether a check still applies to the current workspace state, and
//! which cargo commands count as checks.

use vstd::prelude::*;
use crate::event::{native_views, CommandSpec, CommandSpecView, ProcessTermination};
use crate::native::{lossy_text, NativeString, NativeStringView};
use crate::state::WorkspaceState;
use crate::text::{chars_end_with, chars_of, ends_with, str_equal, string_of, unicode_lowercase, to_lowercase};

verus! {

#[derive(Clone, Copy, Debug, Eq, PartialEq, Hash, Structural)]
pub enum EvidenceContinuity {
    Complete,
    GapObserved,
}

#[derive(Clone, Copy, Debug, Eq, PartialEq, Hash, Structural)]
pub enum EvidenceFreshness {
    Current,
    Stale,
    Indeterminate,
}

/// Version of the rule that classifies cargo commands as validation.
pub const CARGO_VALIDATION_RULE_VERSION: u32 = 1;

#[derive(Clone, Copy, Debug, Eq, PartialEq, Hash, Structural)]
pub enum CargoValidationKind {
    Test,
    Clippy,
    Check,
    FmtCheck,
}

#[derive(Clone, Debug, Eq, PartialEq)]
pub struct CargoValidation {
    pub kind: CargoValidationKind,
    pub rule_version: u32,
    pub command: CommandSpec,
    pub is_passing: bool,
}

/// Freshness of validation evidence taken at `validated`, given the current state (if
/// known) and whether observation was continuous.
pub open spec fn freshness(
    validated: crate::state::WorkspaceStateView,
    current: Option<crate::state::WorkspaceStateView>,
    continuity: EvidenceContinuity,
) -> EvidenceFreshness {
    if continuity == EvidenceContinuity::GapObserved {
        EvidenceFreshness::Indeterminate
    } else {
        match current {
            Some(c) => if c == validated {
                EvidenceFreshness::Current
            } else {
                EvidenceFreshness::Stale
            },
            None => EvidenceFreshness::Indeterminate,
        }
    }
}

/// Evidence is current when it validated the current state and nothing went unobserved,
/// stale when the state has changed since, and indeterminate when a gap was observed or the
/// current state is unknown.
pub fn assess_validation_freshness(
    validated_state: &WorkspaceState,
    current_state: Option<&WorkspaceState>,
    continuity: EvidenceContinuity,
) -> (r: EvidenceFreshness)
    ensures
        r == freshness(
            validated_state@,
            match current_state {
                Some(c) => Some(c@),
                None => None,
            },
            continuity,
        ),
{
    if let EvidenceContinuity::GapObserved = continuity {
        return EvidenceFreshness::Indeterminate;
    }
    match current_state {
        Some(current) => if current.same_as(validated_state) {
            EvidenceFreshness::Current
        } else {
            EvidenceFreshness::Stale
        },
        None => EvidenceFreshness::Indeterminate,
    }
}

/// The lower-cased display name of an executable names cargo.
pub open spec fn is_cargo_executable(name: Seq<char>) -> bool {
    ||| name == "cargo"@
    ||| ends_with(name, "/cargo"@)
    ||| ends_with(name, "\\cargo"@)
    ||| ends_with(name, "cargo.exe"@)
}

/// The display text of each argument.
pub open spec fn argument_texts(args: Seq<NativeStringView>) -> Seq<Seq<char>> {
    args.map_values(|a: NativeStringView| lossy_text(a))
}

/// The kind of check a cargo invocation with these arguments performs, if any.
pub open spec fn cargo_kind(args: Seq<Seq<char>>) -> Option<CargoValidationKind> {
    if args.len() == 0 {
        None
    } else if args[0] == "test"@ {
        Some(CargoValidationKind::Test)
    } else if args[0] == "clippy"@ {
        Some(CargoValidationKind::Clippy)
    } else if args[0] == "check"@ {
        Some(CargoValidationKind::Check)
    } else if args[0] == "fmt"@ && args.contains("--check"@) {
        Some(CargoValidationKind::FmtCheck)
    } else {
        None
    }
}

/// The check a command performs, if it is a supported cargo check.
pub open spec fn classify(command: CommandSpecView) -> Option<CargoValidationKind> {
    if is_cargo_executable(unicode_lowercase(lossy_text(command.executable))) {
        cargo_kind(argument_texts(command.arguments))
    } else {
        None
    }
}

/// The four supported checks: a cargo command whose first argument is `test`, `clippy` or
/// `check` is that check, and `fmt` with a `--check` argument is the formatting check.
pub proof fn lemma_supported_cargo_checks(command: CommandSpecView)
    requires
        is_cargo_executable(unicode_lowercase(lossy_text(command.executable))),
        command.arguments.len() > 0,
    ensures
        lossy_text(command.arguments[0]) == "test"@ ==> classify(command) == Some(CargoValidationKind::Test),
        lossy_text(command.arguments[0]) == "clippy"@ ==> classify(command) == Some(CargoValidationKind::Clippy),
        lossy_text(command.arguments[0]) == "check"@ ==> classify(command) == Some(CargoValidationKind::Check),
        lossy_text(command.arguments[0]) == "fmt"@ && (exists|k: int| 0 <= k < command.arguments.len()
            && #[trigger] lossy_text(command.arguments[k]) == "--check"@) ==> classify(command) == Some(
            CargoValidationKind::FmtCheck,
        ),
{
    reveal_strlit("test");
    reveal_strlit("clippy");
    reveal_strlit("check");
    reveal_strlit("fmt");
    let args = argument_texts(command.arguments);
    assert(args[0] == lossy_text(command.arguments[0]));
    if lossy_text(command.arguments[0]) == "fmt"@ && (exists|k: int| 0 <= k < command.arguments.len()
        && #[trigger] lossy_text(command.arguments[k]) == "--check"@) {
        let k = choose|k: int| 0 <= k < command.arguments.len() && #[trigger] lossy_text(command.arguments[k]) == "--check"@;
        assert(args[k] == "--check"@);
        assert(args.contains("--check"@));
    }
}

/// Exit code zero, and nothing else, passes a check: other codes, signals and unknown ends
/// do not.
pub proof fn lemma_only_exit_code_zero_passes(termination: ProcessTermination)
    ensures
        passing(termination) <==> (termination matches ProcessTermination::ExitCode(c) && c == 0),
{
}

/// A check passes when its process exited with code zero.
pub open spec fn passing(termination: ProcessTermination) -> bool {
    termination == ProcessTermination::ExitCode(0)
}

fn is_cargo_name(name: &str) -> (r: bool)
    ensures
        r == is_cargo_executable(name@),
{
    let chars = chars_of(name);
    if str_equal(name, "cargo") {
        return true;
    }
    let s1 = chars_of("/cargo");
    let s2 = chars_of("\\cargo");
    let s3 = chars_of("cargo.exe");
    chars_end_with(&chars, &s1) || chars_end_with(&chars, &s2) || chars_end_with(&chars, &s3)
}

fn argument_strings(args: &[NativeString]) -> (r: Vec<String>)
    ensures
        r@.map_values(|s: String| s@) == argument_texts(native_views(args@)),
{
    let mut out: Vec<String> = Vec::new();
    let mut i: usize = 0;
    while i < args.len()
        invariant
            i <= args@.len(),
            out@.len() == i,
            forall|k: int| 0 <= k < i ==> (#[trigger] out@[k])@ == lossy_text(args@[k]@),
        decreases args@.len() - i,
    {
        out.push(args[i].to_string_lossy());
        i = i + 1;
    }
    assert(out@.map_values(|s: String| s@) =~= argument_texts(native_views(args@)));
    out
}

fn any_equals(args: &Vec<String>, target: &str) -> (r: bool)
    ensures
        r == args@.map_values(|s: String| s@).contains(target@),
{
    let mut i: usize = 0;
    while i < args.len()
        invariant
            i <= args@.len(),
            forall|k: int| 0 <= k < i ==> (#[trigger] args@[k])@ != target@,
        decreases args@.len() - i,
    {
        if str_equal(args[i].as_str(), target) {
            assert(args@.map_values(|s: String| s@)[i as int] == target@);
            return true;
        }
        i = i + 1;
    }
    let ghost texts = args@.map_values(|s: String| s@);
    assert forall|k: int| 0 <= k < texts.len() implies #[trigger] texts[k] != target@ by {
        assert(args@[k]@ != target@);
    }
    false
}

/// Classifies a command as validation evidence: `cargo test`, `cargo clippy`,
/// `cargo check` and `cargo fmt --check` are checks, which pass on exit code zero; any
/// other command is an ordinary process observation (`None`).
pub fn classify_cargo_validation(command: &CommandSpec, termination: &ProcessTermination) -> (r: Option<
    CargoValidation,
>)
    ensures
        classify(command@) is None <==> r is None,
        r matches Some(v) ==> {
            &&& classify(command@) == Some(v.kind)
            &&& v.rule_version == CARGO_VALIDATION_RULE_VERSION
            &&& v.command@ == command@
            &&& v.is_passing == passing(*termination)
        },
{
    let exe_lossy = command.executable().to_string_lossy();
    let exe_lower = to_lowercase(exe_lossy.as_str());
    if !is_cargo_name(exe_lower.as_str()) {
        return None;
    }
    let args = argument_strings(command.arguments());
    let ghost texts = args@.map_values(|s: String| s@);
    if args.len() == 0 {
        return None;
    }
    let first = args[0].as_str();
    assert(texts[0] == first@);
    let kind = if str_equal(first, "test") {
        CargoValidationKind::Test
    } else if str_equal(first, "clippy") {
        CargoValidationKind::Clippy
    } else if str_equal(first, "check") {
        CargoValidationKind::Check
    } else if str_equal(first, "fmt") && any_equals(&args, "--check") {
        CargoValidationKind::FmtCheck
    } else {
        return None;
    };
    let is_passing = match termination {
        ProcessTermination::ExitCode(0) => true,
        _ => false,
    };
    Some(
        CargoValidation {
            kind,
            rule_version: CARGO_VALIDATION_RULE_VERSION,
            command: command.duplicate(),
            is_passing,
        },
    )
}

impl CargoValidationKind {
    pub open spec fn spec_name(self) -> Seq<char> {
        match self {
            CargoValidationKind::Test => "Test"@,
            CargoValidationKind::Clippy => "Clippy"@,
            CargoValidationKind::Check => "Check"@,
            CargoValidationKind::FmtCheck => "FmtCheck"@,
        }
    }

    /// The variant's name, as `Debug` prints it.
    pub fn name(self) -> (r: String)
        ensures
            r@ == self.spec_name(),
    {
        match self {
            CargoValidationKind::Test => string_of("Test"),
            CargoValidationKind::Clippy => string_of("Clippy"),
            CargoValidationKind::Check => string_of("Check"),
            CargoValidationKind::FmtCheck => string_of("FmtCheck"),
        }
    }
}

impl EvidenceFreshness {
    pub open spec fn spec_name(self) -> Seq<char> {
        match self {
            EvidenceFreshness::Current => "Current"@,
            EvidenceFreshness::Stale => "Stale"@,
            EvidenceFreshness::Indeterminate => "Indeterminate"@,
        }
    }

    /// The variant's name, as `Debug` prints it.
    pub fn name(self) -> (r: String)
        ensures
            r@ == self.spec_name(),
    {
        match self {
            EvidenceFreshness::Current => string_of("Current"),
            EvidenceFreshness::Stale => string_of("Stale"),
            EvidenceFreshness::Indeterminate => string_of("Indeterminate"),
        }
    }
}

impl EvidenceContinuity {
    pub open spec fn spec_name(self) -> Seq<char> {
        match self {
            EvidenceContinuity::Complete => "Complete"@,
            EvidenceContinuity::GapObserved => "GapObserved"@,
        }
    }

    /// The variant's name, as `Debug` prints it.
    pub fn name(self) -> (r: String)
        ensures
            r@ == self.spec_name(),
    {
        match self {
            EvidenceContinuity::Complete => string_of("Complete"),
            EvidenceContinuity::GapObserved => string_of("GapObserved"),
        }
    }
}

} // verus!

use vstd::prelude::*;

verus! {

/// The outcome of waiting on the relaunched elevated sibling process, the
/// elevation mechanism's exit-code convention made an explicit enumeration.
#[derive(Clone, Copy, Debug, PartialEq, Eq, Structural)]
pub enum ElevationOutcome {
    /// An exit code above 32: the sibling launched successfully and
    /// detached, and keeps running on its own.
    DetachedHandoff,
    /// An exit code of at most 32, passed through verbatim.
    NormalExit(i32),
    /// The sibling could not be launched, or it ended without an exit code.
    LaunchFailed,
}

/// How a sibling exit code is classified: above 32 means the sibling
/// detached; at most 32 is a normal exit to propagate; no code at all is a
/// failure.
pub open spec fn classified_exit(code: Option<i32>) -> ElevationOutcome {
    match code {
        Some(n) => if n > 32 {
            ElevationOutcome::DetachedHandoff
        } else {
            ElevationOutcome::NormalExit(n)
        },
        None => ElevationOutcome::LaunchFailed,
    }
}

/// The exit code of the non-elevated bootstrap process for each outcome:
/// 0 after a detached handoff, the sibling's own code after a normal exit,
/// and 1 after a failure.
pub open spec fn bootstrap_exit_spec(outcome: ElevationOutcome) -> int {
    match outcome {
        ElevationOutcome::DetachedHandoff => 0,
        ElevationOutcome::NormalExit(n) => n as int,
        ElevationOutcome::LaunchFailed => 1,
    }
}

/// Classifies the exit code of the relaunched sibling, `None` standing for
/// a sibling that ended without one.
pub fn classify_exit(code: Option<i32>) -> (r: ElevationOutcome)
    ensures
        r == classified_exit(code),
{
    match code {
        Some(n) => if n > 32 {
            ElevationOutcome::DetachedHandoff
        } else {
            ElevationOutcome::NormalExit(n)
        },
        None => ElevationOutcome::LaunchFailed,
    }
}

/// The code the bootstrap process exits with for a given outcome.
pub fn bootstrap_exit_code(outcome: ElevationOutcome) -> (r: i32)
    ensures
        r as int == bootstrap_exit_spec(outcome),
{
    match outcome {
        ElevationOutcome::DetachedHandoff => 0,
        ElevationOutcome::NormalExit(n) => n,
        ElevationOutcome::LaunchFailed => 1,
    }
}

/// Elevation exit-code mapping law: a sibling exit code above 32 has the
/// bootstrap exit with 0, one of at most 32 is propagated verbatim, and a
/// launch failure exits with 1.
pub proof fn lemma_elevation_exit_mapping(n: i32)
    ensures
        n > 32 ==> bootstrap_exit_spec(classified_exit(Some(n))) == 0,
        n <= 32 ==> bootstrap_exit_spec(classified_exit(Some(n))) == n as int,
        bootstrap_exit_spec(classified_exit(None)) == 1,
{
}

/// The two-phase entry decision of the bootstrap.
#[derive(Clone, Copy, Debug, PartialEq, Eq, Structural)]
pub enum PrivilegeStep {
    /// The process is elevated: run the scheduling loop.
    RunCore,
    /// The process is not elevated: relaunch itself elevated and wait.
    RelaunchElevated,
}

/// The entry step for a reported privilege level.
pub open spec fn bootstrap_step_spec(elevated: bool) -> PrivilegeStep {
    if elevated {
        PrivilegeStep::RunCore
    } else {
        PrivilegeStep::RelaunchElevated
    }
}

/// Decides the entry step from a reported privilege level: an elevated
/// process runs the core loop, a non-elevated one relaunches elevated.
pub fn bootstrap_step(elevated: bool) -> (r: PrivilegeStep)
    ensures
        r == bootstrap_step_spec(elevated),
{
    if elevated {
        PrivilegeStep::RunCore
    } else {
        PrivilegeStep::RelaunchElevated
    }
}

/// Relies on elevated_command::Command::is_elevated: whether the current
/// process holds elevated privileges (root, or an elevated token). The
/// answer depends on the environment, so nothing is promised of it.
#[verifier::external_body]
fn query_is_elevated() -> bool {
    elevated_command::Command::is_elevated()
}

/// Checks the current process's privilege level and decides the entry
/// step. The privilege check reads the environment, so no more is promised
/// than that the decision is `bootstrap_step` of whatever it reported.
pub fn detect_privilege() -> PrivilegeStep {
    bootstrap_step(query_is_elevated())
}

} // verus!

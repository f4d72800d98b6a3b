//! Turning what the machine reported for one probe into an outcome.

use vstd::prelude::*;

use crate::suite::instruction_sets::{InstructionSet, Probe, Reading};
use crate::timing::TimeSpan;

verus! {

/// What came back from executing one probe on the machine. The time is the one
/// spent in the probe alone.
#[derive(Clone, Copy, Debug, PartialEq, Eq)]
pub enum ProbeRun {
    /// The probe ran to its end and handed back a reading.
    Completed { reading: Reading, elapsed: TimeSpan },
    /// The probe terminated abnormally (an illegal instruction, a trap) and
    /// handed back nothing.
    Crashed { elapsed: TimeSpan },
}

/// How a probe ended.
#[derive(Clone, Copy, Debug, PartialEq, Eq, Structural)]
pub enum Verdict {
    /// The reading agrees with the reference computation.
    Passed,
    /// The probe ran, and its reading does not agree with the reference
    /// computation.
    Failed,
    /// The probe terminated abnormally.
    Crashed,
}

/// The outcome of running one probe once.
#[derive(Clone, Copy, Debug, PartialEq, Eq)]
pub struct ProbeOutcome {
    pub verdict: Verdict,
    pub elapsed: TimeSpan,
}

impl ProbeRun {
    /// The time the probe took.
    pub open spec fn spec_elapsed(self) -> TimeSpan {
        match self {
            ProbeRun::Completed { elapsed, .. } => elapsed,
            ProbeRun::Crashed { elapsed } => elapsed,
        }
    }

    /// The time the probe took.
    #[verifier::when_used_as_spec(spec_elapsed)]
    pub fn elapsed(self) -> (elapsed: TimeSpan)
        ensures
            elapsed == self.spec_elapsed(),
    {
        match self {
            ProbeRun::Completed { elapsed, .. } => elapsed,
            ProbeRun::Crashed { elapsed } => elapsed,
        }
    }
}

impl ProbeOutcome {
    /// Whether the probe passed.
    pub open spec fn spec_success(self) -> bool {
        self.verdict == Verdict::Passed
    }

    /// Whether the probe passed.
    #[verifier::when_used_as_spec(spec_success)]
    pub fn success(self) -> (success: bool)
        ensures
            success == self.spec_success(),
    {
        self.verdict == Verdict::Passed
    }
}

/// How `probe` ended, given what the machine reported: passed when the
/// reading is confirmed by the reference computation, failed when it is not,
/// crashed when there is no reading.
pub open spec fn verdict_of(probe: Probe, run: ProbeRun) -> Verdict {
    match run {
        ProbeRun::Completed { reading, .. } => if probe.confirmed_by(reading) {
            Verdict::Passed
        } else {
            Verdict::Failed
        },
        ProbeRun::Crashed { .. } => Verdict::Crashed,
    }
}

/// The outcome of `probe` for what the machine reported: its verdict, and the
/// elapsed time as measured.
pub open spec fn outcome_of(probe: Probe, run: ProbeRun) -> ProbeOutcome {
    ProbeOutcome { verdict: verdict_of(probe, run), elapsed: run.spec_elapsed() }
}

/// Concludes one probe from what the machine reported for it. A crash becomes
/// an outcome like any other, so that the run goes on with the next probe.
pub fn execute_test(instruction_set: &InstructionSet, run: ProbeRun) -> (outcome: ProbeOutcome)
    ensures
        outcome == outcome_of(instruction_set.probe, run),
{
    match run {
        ProbeRun::Completed { reading, elapsed } => {
            let success = instruction_set.probe.check(reading);
            let verdict = if success {
                Verdict::Passed
            } else {
                Verdict::Failed
            };
            ProbeOutcome { verdict, elapsed }
        },
        ProbeRun::Crashed { elapsed } => ProbeOutcome { verdict: Verdict::Crashed, elapsed },
    }
}

/// The verdict on a probe depends on the probe and on the reading alone: two
/// runs of the same probe that hand back the same reading end alike, however
/// long each took.
pub proof fn lemma_verdict_is_deterministic(
    probe: Probe,
    reading: Reading,
    first_elapsed: TimeSpan,
    second_elapsed: TimeSpan,
)
    ensures
        ({
            let first = (ProbeRun::Completed { reading, elapsed: first_elapsed });
            let second = (ProbeRun::Completed { reading, elapsed: second_elapsed });
            &&& verdict_of(probe, first) == verdict_of(probe, second)
            &&& outcome_of(probe, first).spec_success() == probe.confirmed_by(reading)
            &&& outcome_of(probe, second).spec_success() == probe.confirmed_by(reading)
        }),
{
}

} // verus!

//! The progress events of a run, as lines of text: one that announces a probe
//! before it executes, one that reports how it ended.

use vstd::prelude::*;

use crate::suite::instruction_sets::InstructionSet;
use crate::suite::TestResult;
use crate::timing::elapsed_text;

verus! {

/// The line that announces the probe called `name`.
pub open spec fn starting_text(name: Seq<char>) -> Seq<char> {
    "Testing "@ + name + "..."@
}

/// The word that stands for the result of a probe.
pub open spec fn result_word(success: bool) -> Seq<char> {
    if success {
        "PASS"@
    } else {
        "FAIL"@
    }
}

/// The line that reports the end of the probe called `name`, with the time it
/// took written as `took`.
pub open spec fn completed_text(name: Seq<char>, success: bool, took: Seq<char>) -> Seq<char> {
    "Result for "@ + name + ": "@ + result_word(success) + " (took "@ + took + ")"@
}

/// The line to emit before a probe executes.
pub fn starting_line(instruction_set: &InstructionSet) -> (line: String)
    ensures
        line@ == starting_text(instruction_set.name@),
{
    let mut line = "Testing ".to_owned();
    line.append(instruction_set.name.as_str());
    line.append("...");
    line
}

/// The line that reports the end of a probe, given its name, whether it
/// passed, and the time it took as text.
pub fn format_completed_line(name: &str, success: bool, took: &str) -> (line: String)
    ensures
        line@ == completed_text(name@, success, took@),
{
    let mut line = "Result for ".to_owned();
    line.append(name);
    line.append(": ");
    line.append(if success { "PASS" } else { "FAIL" });
    line.append(" (took ");
    line.append(took);
    line.append(")");
    line
}

/// The line to emit after a probe has been booked: its name, pass or fail, and
/// the time it took.
pub fn completed_line(result: &TestResult) -> (line: String)
    ensures
        line@ == completed_text(
            result.instruction_set@,
            result.success,
            elapsed_text(result.execution_time.secs(), result.execution_time.subsec_nanos()),
        ),
{
    let took = result.execution_time.to_text();
    format_completed_line(result.instruction_set.as_str(), result.success, took.as_str())
}

} // verus!

use cpu_tester::suite::executor::{execute_test, ProbeOutcome, ProbeRun, Verdict};
use cpu_tester::suite::instruction_sets::{InstructionSet, Probe, Reading};
use cpu_tester::timing::TimeSpan;

fn span(secs: u64, nanos: u32) -> TimeSpan {
    TimeSpan::new(secs, nanos).unwrap()
}

fn register(value: u32, elapsed: TimeSpan) -> ProbeRun {
    ProbeRun::Completed { reading: Reading::Register(value), elapsed }
}

fn add_probe() -> InstructionSet {
    InstructionSet::new("ADD", "Basic integer addition", Probe::Add { a: 10, b: 20 })
}

#[test]
fn matching_reading_passes() {
    let outcome = execute_test(&add_probe(), register(30, span(0, 1500)));
    assert_eq!(outcome, ProbeOutcome { verdict: Verdict::Passed, elapsed: span(0, 1500) });
    assert!(outcome.success());
}

#[test]
fn wrong_reading_fails() {
    let outcome = execute_test(&add_probe(), register(29, span(2, 0)));
    assert_eq!(outcome.verdict, Verdict::Failed);
    assert_eq!(outcome.elapsed, span(2, 0));
    assert!(!outcome.success());
}

#[test]
fn crash_is_an_outcome_of_its_own() {
    let outcome = execute_test(&add_probe(), ProbeRun::Crashed { elapsed: span(0, 7) });
    assert_eq!(outcome, ProbeOutcome { verdict: Verdict::Crashed, elapsed: span(0, 7) });
    assert!(!outcome.success());
    assert_ne!(outcome.verdict, Verdict::Failed);
}

#[test]
fn same_probe_twice_gives_the_same_verdict() {
    let probe = add_probe();
    let first = execute_test(&probe, register(30, span(0, 10)));
    let second = execute_test(&probe, register(30, span(3, 99)));
    assert_eq!(first.verdict, second.verdict);
    assert_eq!(first.verdict, Verdict::Passed);
    assert_eq!(first.success(), second.success());
    let third = execute_test(&probe, register(5, span(0, 10)));
    let fourth = execute_test(&probe, register(5, span(0, 11)));
    assert_eq!(third.verdict, fourth.verdict);
    assert_eq!(third.verdict, Verdict::Failed);
}

#[test]
fn elapsed_time_of_a_run() {
    let completed = ProbeRun::Completed { reading: Reading::Flags(0), elapsed: span(1, 2) };
    assert_eq!(completed.elapsed(), span(1, 2));
    assert_eq!(ProbeRun::Crashed { elapsed: span(3, 4) }.elapsed(), span(3, 4));
}

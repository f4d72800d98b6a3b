use cpu_tester::suite::instruction_sets::{InstructionSet, Probe};
use cpu_tester::suite::progress::{completed_line, format_completed_line, starting_line};
use cpu_tester::suite::TestResult;
use cpu_tester::timing::{TimeSpan, NANOS_PER_SEC};

fn result(name: &str, success: bool, execution_time: TimeSpan) -> TestResult {
    TestResult {
        instruction_set: String::from(name),
        success,
        execution_time,
        error_message: if success { None } else { Some(String::from("Test failed")) },
    }
}

#[test]
fn line_before_a_probe() {
    let set = InstructionSet::new("ADD", "Basic integer addition", Probe::Add { a: 10, b: 20 });
    assert_eq!(starting_line(&set), "Testing ADD...");
    let set = InstructionSet::new("FLAGS", "Flags operations (STC/CLC)", Probe::CarryFlag);
    assert_eq!(starting_line(&set), "Testing FLAGS...");
}

#[test]
fn line_after_a_probe_from_its_parts() {
    assert_eq!(format_completed_line("ADD", true, "1.5s"), "Result for ADD: PASS (took 1.5s)");
    assert_eq!(format_completed_line("MOVS", false, "20ns"), "Result for MOVS: FAIL (took 20ns)");
    assert_eq!(format_completed_line("", true, ""), "Result for : PASS (took )");
}

#[test]
fn line_after_a_probe_that_passed() {
    let line = completed_line(&result("ADD", true, TimeSpan::new(0, 1500).unwrap()));
    assert_eq!(line, "Result for ADD: PASS (took 1.5µs)");
}

#[test]
fn line_after_a_probe_that_failed() {
    let line = completed_line(&result("DIV", false, TimeSpan::new(2, 500_000_000).unwrap()));
    assert_eq!(line, "Result for DIV: FAIL (took 2.5s)");
}

#[test]
fn time_span_as_text() {
    assert_eq!(TimeSpan::from_secs(30).to_text(), "30s");
    assert_eq!(TimeSpan::from_secs(0).to_text(), "0ns");
    assert_eq!(TimeSpan::new(0, 20).unwrap().to_text(), "20ns");
    assert_eq!(TimeSpan::new(0, 2_000_000).unwrap().to_text(), "2ms");
    assert_eq!(TimeSpan::new(1, 500_000_000).unwrap().to_text(), "1.5s");
    assert_eq!(TimeSpan::new(0, 999_999_999).unwrap().to_text(), "999.999999ms");
    let longest = TimeSpan::new(u64::MAX, 999_999_999).unwrap();
    assert_eq!(longest.to_text(), "18446744073709551615.999999999s");
    assert_eq!(
        TimeSpan::new(3, 250).unwrap().to_text(),
        format!("{:?}", std::time::Duration::new(3, 250))
    );
}

#[test]
fn time_span_parts() {
    let span = TimeSpan::new(5, 999_999_999).unwrap();
    assert_eq!(span.secs(), 5);
    assert_eq!(span.subsec_nanos(), 999_999_999);
    let whole = TimeSpan::from_secs(30);
    assert_eq!(whole.secs(), 30);
    assert_eq!(whole.subsec_nanos(), 0);
    assert_eq!(TimeSpan::new(30, 0), Some(whole));
}

#[test]
fn time_span_keeps_its_sub_second_part_below_a_second() {
    assert_eq!(NANOS_PER_SEC, 1_000_000_000);
    assert_eq!(TimeSpan::new(0, 1_000_000_000), None);
    assert_eq!(TimeSpan::new(7, u32::MAX), None);
    assert!(TimeSpan::new(0, 999_999_999).is_some());
}

//! The instruction-verification suite: the catalogue of probes, the
//! conclusion of one probe, and the tester that books a whole run.

pub mod executor;
pub mod instruction_sets;
pub mod ordering;
pub mod progress;
pub mod reference;

use vstd::prelude::*;

use crate::config::TestConfig;
use crate::cpu::info::CpuInfo;
use crate::suite::executor::{execute_test, outcome_of, ProbeOutcome, ProbeRun, Verdict};
use crate::suite::instruction_sets::{
    entries, get_instruction_sets, get_instruction_sets_for, has_distinct_names, names_distinct,
    runs_on_host, standard_catalogue, Architecture, CatalogueEntry, InstructionSet,
};
use crate::timing::TimeSpan;

verus! {

/// The record of one probe in a run.
#[derive(Debug, PartialEq, Eq)]
pub struct TestResult {
    /// Name of the probe, copied from the catalogue.
    pub instruction_set: String,
    pub success: bool,
    pub execution_time: TimeSpan,
    /// Why the probe did not pass; absent when it passed.
    pub error_message: Option<String>,
}

/// What a record holds, as mathematical values.
pub struct TestRecord {
    pub instruction_set: Seq<char>,
    pub success: bool,
    pub execution_time: TimeSpan,
    pub error_message: Option<Seq<char>>,
}

impl View for TestResult {
    type V = TestRecord;

    open spec fn view(&self) -> TestRecord {
        TestRecord {
            instruction_set: self.instruction_set@,
            success: self.success,
            execution_time: self.execution_time,
            error_message: match self.error_message {
                Some(message) => Some(message@),
                None => None,
            },
        }
    }
}

/// The annotation that goes with each verdict. A probe that passed has none, a
/// wrong reading has one fixed text, a crash has another.
pub open spec fn annotation_of(verdict: Verdict) -> Option<Seq<char>> {
    match verdict {
        Verdict::Passed => None,
        Verdict::Failed => Some("Test failed"@),
        Verdict::Crashed => Some("Test crashed"@),
    }
}

/// The record of a probe with the given name and outcome.
pub open spec fn record_of(name: Seq<char>, outcome: ProbeOutcome) -> TestRecord {
    TestRecord {
        instruction_set: name,
        success: outcome.spec_success(),
        execution_time: outcome.elapsed,
        error_message: annotation_of(outcome.verdict),
    }
}

/// A record is well annotated when it carries no annotation for a probe that
/// passed, and one of the two fixed annotations for a probe that did not.
pub open spec fn well_annotated(record: TestRecord) -> bool {
    if record.success {
        record.error_message == annotation_of(Verdict::Passed)
    } else {
        ||| record.error_message == annotation_of(Verdict::Failed)
        ||| record.error_message == annotation_of(Verdict::Crashed)
    }
}

/// The records of a run: the probes of the catalogue, in order, each with the
/// outcome of what the machine reported for it.
pub open spec fn records_of(
    catalogue: Seq<CatalogueEntry>,
    runs: Seq<ProbeRun>,
) -> Seq<TestRecord>
    recommends
        runs.len() <= catalogue.len(),
{
    Seq::new(
        runs.len(),
        |i: int| record_of(catalogue[i].name, outcome_of(catalogue[i].probe, runs[i])),
    )
}

/// The records held by a sequence of results, in order.
pub open spec fn records(results: Seq<TestResult>) -> Seq<TestRecord> {
    results.map_values(|result: TestResult| result@)
}

impl TestResult {
    /// The record of the probe `instruction_set` that ended with `outcome`.
    /// It carries a copy of the probe's name, and an annotation exactly when
    /// the probe did not pass.
    pub fn new(instruction_set: &InstructionSet, outcome: ProbeOutcome) -> (result: TestResult)
        ensures
            result@ == record_of(instruction_set.name@, outcome),
    {
        let error_message = match outcome.verdict {
            Verdict::Passed => None,
            Verdict::Failed => Some("Test failed".to_owned()),
            Verdict::Crashed => Some("Test crashed".to_owned()),
        };
        TestResult {
            instruction_set: instruction_set.name.clone(),
            success: outcome.success(),
            execution_time: outcome.elapsed,
            error_message,
        }
    }
}

/// Why a batch of reports could not be booked.
#[derive(Debug, Clone, Copy, PartialEq, Eq, Structural)]
pub enum RunError {
    /// A batch does not hold one report for each probe that is still to run.
    ReportCountMismatch,
    /// A report is for a position outside the catalogue.
    UnknownPosition,
    /// Two reports are for the same probe.
    DuplicateReport,
    /// A probe has no report.
    MissingReport,
}

/// Why a catalogue was turned down.
#[derive(Debug, Clone, Copy, PartialEq, Eq, Structural)]
pub enum CatalogueError {
    /// Two probes carry the same name.
    DuplicateName,
}

/// Books one run of the suite.
///
/// The tester holds the catalogue and the context of the run. It names the
/// probe to execute next, takes what the machine reported for it, and appends
/// the record. The records are therefore always the first probes of the
/// catalogue, in catalogue order.
pub struct CpuTester {
    cpu_info: CpuInfo,
    test_results: Vec<TestResult>,
    config: TestConfig,
    instruction_sets: Vec<InstructionSet>,
}

impl CpuTester {
    #[verifier::type_invariant]
    spec fn inv(self) -> bool {
        &&& names_distinct(entries(self.instruction_sets@))
        &&& self.test_results@.len() <= self.instruction_sets@.len()
        &&& forall|i: int|
            0 <= i < self.test_results@.len() ==> {
                let record = (#[trigger] self.test_results@[i])@;
                &&& record.instruction_set == self.instruction_sets@[i].name@
                &&& well_annotated(record)
            }
    }

    /// The catalogue of the run.
    pub closed spec fn catalogue(self) -> Seq<CatalogueEntry> {
        entries(self.instruction_sets@)
    }

    /// The records booked so far.
    pub closed spec fn booked(self) -> Seq<TestRecord> {
        records(self.test_results@)
    }

    /// The processor of the run.
    pub closed spec fn spec_cpu_info(self) -> CpuInfo {
        self.cpu_info
    }

    /// The options of the run.
    pub closed spec fn spec_config(self) -> TestConfig {
        self.config
    }

    /// A tester for the catalogue of `get_instruction_sets`, with no record
    /// booked.
    pub fn new(cpu_info: CpuInfo, config: TestConfig) -> (tester: CpuTester)
        ensures
            tester.catalogue() == standard_catalogue(),
            tester.booked() == Seq::<TestRecord>::empty(),
            tester.spec_cpu_info() == cpu_info,
            tester.spec_config() == config,
    {
        let tester = CpuTester {
            cpu_info,
            test_results: Vec::new(),
            config,
            instruction_sets: get_instruction_sets(),
        };
        assert(tester.booked() =~= Seq::<TestRecord>::empty());
        tester
    }

    /// A tester for a host of the given architecture, with no record booked.
    /// Its catalogue holds the probes that the host can execute.
    pub fn for_architecture(
        cpu_info: CpuInfo,
        config: TestConfig,
        architecture: Architecture,
    ) -> (tester: CpuTester)
        ensures
            tester.catalogue() == standard_catalogue().filter(runs_on_host(architecture)),
            architecture == Architecture::X86_64 ==> tester.catalogue() == standard_catalogue(),
            architecture != Architecture::X86_64 ==> tester.catalogue().len() == 0,
            tester.booked() == Seq::<TestRecord>::empty(),
            tester.spec_cpu_info() == cpu_info,
            tester.spec_config() == config,
    {
        let tester = CpuTester {
            cpu_info,
            test_results: Vec::new(),
            config,
            instruction_sets: get_instruction_sets_for(architecture),
        };
        assert(tester.booked() =~= Seq::<TestRecord>::empty());
        tester
    }

    /// A tester for a catalogue of the caller's choice, with no record booked.
    /// A catalogue in which two probes carry the same name is turned down.
    pub fn with_instruction_sets(
        cpu_info: CpuInfo,
        config: TestConfig,
        instruction_sets: Vec<InstructionSet>,
    ) -> (made: Result<CpuTester, CatalogueError>)
        ensures
            made is Ok <==> names_distinct(entries(instruction_sets@)),
            made matches Ok(tester) ==> {
                &&& tester.catalogue() == entries(instruction_sets@)
                &&& tester.booked() == Seq::<TestRecord>::empty()
                &&& tester.spec_cpu_info() == cpu_info
                &&& tester.spec_config() == config
            },
            made matches Err(error) ==> error == CatalogueError::DuplicateName,
    {
        if !has_distinct_names(&instruction_sets) {
            return Err(CatalogueError::DuplicateName);
        }
        let tester = CpuTester { cpu_info, test_results: Vec::new(), config, instruction_sets };
        assert(tester.booked() =~= Seq::<TestRecord>::empty());
        Ok(tester)
    }

    /// The probe to execute next: the first of the catalogue that has no
    /// record yet. `None` once every probe has its record.
    pub fn next_test(&self) -> (next: Option<&InstructionSet>)
        ensures
            next is Some <==> self.booked().len() < self.catalogue().len(),
            next matches Some(set) ==> set@ == self.catalogue()[self.booked().len() as int],
    {
        proof {
            use_type_invariant(self);
        }
        let position = self.test_results.len();
        if position < self.instruction_sets.len() {
            Some(&self.instruction_sets[position])
        } else {
            None
        }
    }

    /// Books what the machine reported for the probe that `next_test` names:
    /// concludes the probe and appends its record. Gives `false`, and changes
    /// nothing, once every probe has its record.
    pub fn record(&mut self, run: ProbeRun) -> (booked: bool)
        ensures
            booked <==> old(self).booked().len() < old(self).catalogue().len(),
            booked ==> {
                let next = old(self).catalogue()[old(self).booked().len() as int];
                final(self).booked() == old(self).booked().push(
                    record_of(next.name, outcome_of(next.probe, run)),
                )
            },
            !booked ==> final(self).booked() == old(self).booked(),
            final(self).catalogue() == old(self).catalogue(),
            final(self).spec_cpu_info() == old(self).spec_cpu_info(),
            final(self).spec_config() == old(self).spec_config(),
    {
        proof {
            use_type_invariant(&*self);
        }
        let position = self.test_results.len();
        if position < self.instruction_sets.len() {
            let outcome = execute_test(&self.instruction_sets[position], run);
            let result = TestResult::new(&self.instruction_sets[position], outcome);
            // The records leave the tester while the new one is appended, and
            // come back with it.
            let mut results: Vec<TestResult> = Vec::new();
            core::mem::swap(&mut self.test_results, &mut results);
            results.push(result);
            core::mem::swap(&mut self.test_results, &mut results);
            assert(self.booked() =~= old(self).booked().push(result@));
            true
        } else {
            false
        }
    }

    /// Books a whole batch: `runs` holds what the machine reported for each
    /// probe that is still to run, in catalogue order. Every probe gets its
    /// record, whether it passed, failed or crashed. A batch of any other
    /// length is turned down, and nothing is booked.
    pub fn run_tests(&mut self, runs: Vec<ProbeRun>) -> (done: Result<(), RunError>)
        ensures
            done is Ok <==> old(self).booked().len() + runs@.len() == old(self).catalogue().len(),
            done is Ok ==> final(self).booked() == old(self).booked() + records_of(
                old(self).catalogue().skip(old(self).booked().len() as int),
                runs@,
            ),
            done is Ok ==> final(self).booked().len() == final(self).catalogue().len(),
            done matches Err(error) ==> {
                &&& error == RunError::ReportCountMismatch
                &&& final(self).booked() == old(self).booked()
            },
            final(self).catalogue() == old(self).catalogue(),
            final(self).spec_cpu_info() == old(self).spec_cpu_info(),
            final(self).spec_config() == old(self).spec_config(),
    {
        proof {
            use_type_invariant(&*self);
        }
        let start = self.test_results.len();
        if runs.len() != self.instruction_sets.len() - start {
            return Err(RunError::ReportCountMismatch);
        }
        let ghost before = self.booked();
        let ghost pending = self.catalogue().skip(start as int);
        let mut i: usize = 0;
        assert(self.booked() =~= before + records_of(pending, runs@.take(0)));
        while i < runs.len()
            invariant
                i <= runs.len(),
                start == before.len(),
                start + runs.len() == self.catalogue().len(),
                pending == self.catalogue().skip(start as int),
                self.booked() == before + records_of(pending, runs@.take(i as int)),
                self.catalogue() == old(self).catalogue(),
                self.spec_cpu_info() == old(self).spec_cpu_info(),
                self.spec_config() == old(self).spec_config(),
            decreases runs.len() - i,
        {
            self.record(runs[i]);
            assert(self.booked() =~= before + records_of(pending, runs@.take(i as int + 1))) by {
                assert(pending[i as int] == self.catalogue()[start + i]);
                assert(runs@.take(i as int + 1)[i as int] == runs@[i as int]);
            }
            i += 1;
        }
        assert(runs@.take(runs@.len() as int) =~= runs@);
        Ok(())
    }

    /// Whether every probe of the catalogue has its record.
    pub fn is_complete(&self) -> (complete: bool)
        ensures
            complete <==> self.booked().len() == self.catalogue().len(),
    {
        proof {
            use_type_invariant(self);
        }
        self.test_results.len() == self.instruction_sets.len()
    }

    /// The records booked so far. They are the first probes of the catalogue,
    /// in catalogue order, each with an annotation exactly when it did not
    /// pass; so no two of them carry the same name.
    pub fn results(&self) -> (results: &Vec<TestResult>)
        ensures
            records(results@) == self.booked(),
            results@.len() == self.booked().len(),
            results@.len() <= self.catalogue().len(),
            forall|i: int|
                0 <= i < results@.len() ==> {
                    &&& (#[trigger] self.booked()[i]).instruction_set == self.catalogue()[i].name
                    &&& well_annotated(self.booked()[i])
                },
            forall|i: int, j: int|
                0 <= i < j < results@.len() ==> {
                    (#[trigger] self.booked()[i]).instruction_set
                        != (#[trigger] self.booked()[j]).instruction_set
                },
    {
        proof {
            use_type_invariant(self);
            let catalogue = self.catalogue();
            let booked = self.booked();
            assert forall|i: int, j: int| 0 <= i < j < booked.len() implies {
                (#[trigger] booked[i]).instruction_set != (#[trigger] booked[j]).instruction_set
            } by {
                assert(booked[i].instruction_set == catalogue[i].name);
                assert(booked[j].instruction_set == catalogue[j].name);
            }
        }
        &self.test_results
    }

    /// The catalogue of the run.
    pub fn instruction_sets(&self) -> (sets: &Vec<InstructionSet>)
        ensures
            entries(sets@) == self.catalogue(),
            sets@.len() == self.catalogue().len(),
            names_distinct(self.catalogue()),
    {
        proof {
            use_type_invariant(self);
        }
        &self.instruction_sets
    }

    /// The processor of the run.
    pub fn cpu_info(&self) -> (cpu_info: &CpuInfo)
        ensures
            *cpu_info == self.spec_cpu_info(),
    {
        &self.cpu_info
    }

    /// The options of the run.
    pub fn config(&self) -> (config: &TestConfig)
        ensures
            *config == self.spec_config(),
    {
        &self.config
    }
}

/// A complete run gives exactly one record for each probe of the catalogue, in
/// catalogue order, and no two records carry the same name.
pub proof fn lemma_records_follow_catalogue(catalogue: Seq<CatalogueEntry>, runs: Seq<ProbeRun>)
    requires
        runs.len() == catalogue.len(),
        names_distinct(catalogue),
    ensures
        ({
            let booked = records_of(catalogue, runs);
            &&& booked.len() == catalogue.len()
            &&& forall|i: int|
                0 <= i < catalogue.len() ==> {
                    (#[trigger] booked[i]).instruction_set == catalogue[i].name
                }
            &&& forall|i: int, j: int|
                0 <= i < j < catalogue.len() ==> {
                    (#[trigger] booked[i]).instruction_set != (#[trigger] booked[j]).instruction_set
                }
        }),
{
    let booked = records_of(catalogue, runs);
    assert forall|i: int, j: int| 0 <= i < j < catalogue.len() implies {
        (#[trigger] booked[i]).instruction_set != (#[trigger] booked[j]).instruction_set
    } by {
        assert(catalogue[i].name != catalogue[j].name);
    }
}

/// A probe that crashes costs no record: the run still gives one record for
/// each report, the crashed probe's record says so, and the records of all
/// other probes are what they would have been.
pub proof fn lemma_crash_is_contained(
    catalogue: Seq<CatalogueEntry>,
    runs: Seq<ProbeRun>,
    position: int,
    elapsed: TimeSpan,
)
    requires
        runs.len() <= catalogue.len(),
        0 <= position < runs.len(),
    ensures
        ({
            let booked = records_of(catalogue, runs);
            let with_crash = records_of(
                catalogue,
                runs.update(position, ProbeRun::Crashed { elapsed }),
            );
            &&& with_crash.len() == booked.len()
            &&& with_crash[position] == (TestRecord {
                instruction_set: catalogue[position].name,
                success: false,
                execution_time: elapsed,
                error_message: annotation_of(Verdict::Crashed),
            })
            &&& forall|i: int|
                0 <= i < runs.len() && i != position ==> #[trigger] with_crash[i] == booked[i]
        }),
{
}

} // verus!

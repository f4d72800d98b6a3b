//! Putting the reports of probes that ran concurrently back in catalogue
//! order.

use vstd::prelude::*;

use crate::suite::executor::ProbeRun;
use crate::suite::RunError;

verus! {

/// The report of one worker: the position of its probe in the catalogue, and
/// what the machine reported for it.
#[derive(Clone, Copy, Debug, PartialEq, Eq)]
pub struct Completion {
    pub position: usize,
    pub run: ProbeRun,
}

/// Some report is for a position outside the catalogue.
pub open spec fn has_unknown_position(completions: Seq<Completion>, count: nat) -> bool {
    exists|j: int| 0 <= j < completions.len() && (#[trigger] completions[j]).position >= count
}

/// Two reports are for the same position.
pub open spec fn has_duplicate_report(completions: Seq<Completion>) -> bool {
    exists|j: int, k: int|
        {
            &&& 0 <= j < k < completions.len()
            &&& (#[trigger] completions[j]).position == (#[trigger] completions[k]).position
        }
}

/// The position `position` has a report.
pub open spec fn is_reported(completions: Seq<Completion>, position: int) -> bool {
    exists|j: int| 0 <= j < completions.len() && (#[trigger] completions[j]).position == position
}

/// Some position of the catalogue has no report.
pub open spec fn has_missing_report(completions: Seq<Completion>, count: nat) -> bool {
    exists|position: int| 0 <= position < count && !#[trigger] is_reported(completions, position)
}

/// Why `completions` cannot be put in order, if anything: a report for an
/// unknown position counts first, then a duplicate, then a missing report.
pub open spec fn ordering_error(completions: Seq<Completion>, count: nat) -> Option<RunError> {
    if has_unknown_position(completions, count) {
        Some(RunError::UnknownPosition)
    } else if has_duplicate_report(completions) {
        Some(RunError::DuplicateReport)
    } else if has_missing_report(completions, count) {
        Some(RunError::MissingReport)
    } else {
        None
    }
}

/// Puts reports that came in any order back in catalogue order, for a
/// catalogue of `count` probes. It succeeds when there is exactly one report
/// for each position; the result then holds, at each position, the run that
/// was reported for it.
pub fn in_catalogue_order(
    count: usize,
    completions: &Vec<Completion>,
) -> (ordered: Result<Vec<ProbeRun>, RunError>)
    ensures
        ordered is Ok <==> ordering_error(completions@, count as nat) is None,
        ordered matches Err(error) ==> ordering_error(completions@, count as nat) == Some(error),
        ordered matches Ok(runs) ==> {
            &&& runs@.len() == count
            &&& forall|j: int|
                0 <= j < completions@.len() ==> {
                    let completion = #[trigger] completions@[j];
                    runs@[completion.position as int] == completion.run
                }
        },
{
    let mut j: usize = 0;
    while j < completions.len()
        invariant
            j <= completions.len(),
            forall|k: int| 0 <= k < j ==> (#[trigger] completions@[k]).position < count,
        decreases completions.len() - j,
    {
        if completions[j].position >= count {
            return Err(RunError::UnknownPosition);
        }
        j += 1;
    }
    assert(!has_unknown_position(completions@, count as nat));

    let mut slots: Vec<Option<ProbeRun>> = Vec::new();
    while slots.len() < count
        invariant
            slots@.len() <= count,
            forall|p: int| 0 <= p < slots@.len() ==> slots@[p] is None,
        decreases count - slots.len(),
    {
        slots.push(None);
    }

    // `source[p]` is the index of the report that filled slot `p`.
    let ghost mut source: Seq<int> = Seq::new(count as nat, |p: int| 0);
    let mut j: usize = 0;
    while j < completions.len()
        invariant
            j <= completions.len(),
            slots@.len() == count,
            source.len() == count,
            forall|k: int|
                0 <= k < completions@.len() ==> (#[trigger] completions@[k]).position < count,
            forall|p: int|
                0 <= p < count && (#[trigger] slots@[p]) is Some ==> {
                    &&& 0 <= source[p] < j
                    &&& completions@[source[p]].position == p
                    &&& slots@[p] == Some(completions@[source[p]].run)
                },
            forall|k: int|
                0 <= k < j ==> {
                    &&& slots@[(#[trigger] completions@[k]).position as int] is Some
                    &&& source[completions@[k].position as int] == k
                },
        decreases completions.len() - j,
    {
        let position = completions[j].position;
        if slots[position].is_some() {
            let ghost earlier = source[position as int];
            assert(completions@[earlier].position == completions@[j as int].position);
            assert(has_duplicate_report(completions@));
            return Err(RunError::DuplicateReport);
        }
        slots.set(position, Some(completions[j].run));
        proof {
            source = source.update(position as int, j as int);
        }
        j += 1;
    }
    assert(!has_duplicate_report(completions@)) by {
        assert forall|a: int, b: int| 0 <= a < b < completions@.len() implies {
            (#[trigger] completions@[a]).position != (#[trigger] completions@[b]).position
        } by {
            assert(source[completions@[a].position as int] == a);
            assert(source[completions@[b].position as int] == b);
        }
    }

    let mut runs: Vec<ProbeRun> = Vec::new();
    let mut p: usize = 0;
    while p < count
        invariant
            p <= count,
            runs@.len() == p,
            slots@.len() == count,
            source.len() == count,
            !has_unknown_position(completions@, count as nat),
            !has_duplicate_report(completions@),
            forall|q: int| 0 <= q < p ==> (#[trigger] slots@[q]) == Some(runs@[q]),
            forall|q: int| 0 <= q < p ==> #[trigger] is_reported(completions@, q),
            forall|q: int|
                0 <= q < count && (#[trigger] slots@[q]) is Some ==> {
                    &&& 0 <= source[q] < completions@.len()
                    &&& completions@[source[q]].position == q
                },
            forall|k: int|
                0 <= k < completions@.len() ==> {
                    slots@[(#[trigger] completions@[k]).position as int] is Some
                },
        decreases count - p,
    {
        match slots[p] {
            Some(run) => {
                assert(is_reported(completions@, p as int)) by {
                    assert(completions@[source[p as int]].position == p);
                }
                runs.push(run);
            },
            None => {
                assert(!is_reported(completions@, p as int)) by {
                    assert forall|k: int| 0 <= k < completions@.len() implies {
                        (#[trigger] completions@[k]).position != p
                    } by {
                        assert(slots@[completions@[k].position as int] is Some);
                    }
                }
                assert(has_missing_report(completions@, count as nat));
                return Err(RunError::MissingReport);
            },
        }
        p += 1;
    }
    assert(!has_missing_report(completions@, count as nat));
    Ok(runs)
}

} // verus!

//! The diagnostics report: the checks of one run, keyed by name, and the
//! overall status derived from them.
use vstd::prelude::*;
use crate::checks::{CheckResult, Severity};

verus! {

/// The overall outcome of a diagnostics run.
#[derive(Clone, Copy, Debug, PartialEq, Eq, Structural)]
pub enum Status {
    Okay,
    Warning,
    Error,
}

/// Every check passed.
pub open spec fn all_passed(c: Seq<CheckResult>) -> bool {
    forall|i: int| 0 <= i < c.len() ==> (#[trigger] c[i]).passed
}

/// Some check failed with severity `Error`.
pub open spec fn failed_with_error(c: Seq<CheckResult>) -> bool {
    exists|i: int| 0 <= i < c.len() && !(#[trigger] c[i]).passed && c[i].severity == Severity::Error
}

/// `Okay` when all checks passed, else `Error` when a failed check has severity
/// `Error`, else `Warning`.
pub open spec fn status_of(c: Seq<CheckResult>) -> Status {
    if all_passed(c) {
        Status::Okay
    } else if failed_with_error(c) {
        Status::Error
    } else {
        Status::Warning
    }
}

/// No two checks share a name.
pub open spec fn names_unique(c: Seq<CheckResult>) -> bool {
    forall|i: int, j: int| 0 <= i < j < c.len() ==> (#[trigger] c[i]).name@ != (#[trigger] c[j]).name@
}

/// The status that a set of checks adds up to.
pub fn aggregate_status(checks: &Vec<CheckResult>) -> (r: Status)
    ensures
        r == status_of(checks@),
{
    let mut all = true;
    let mut error = false;
    let mut i: usize = 0;
    while i < checks.len()
        invariant
            0 <= i <= checks.len(),
            all == all_passed(checks@.subrange(0, i as int)),
            error == failed_with_error(checks@.subrange(0, i as int)),
        decreases checks.len() - i,
    {
        let ghost before = checks@.subrange(0, i as int);
        let ghost after = checks@.subrange(0, i + 1);
        assert(after == before.push(checks@[i as int]));
        let c = &checks[i];
        if !c.passed {
            all = false;
            if c.severity == Severity::Error {
                error = true;
            }
        }
        assert(all == all_passed(after)) by {
            if all {
                assert forall|k: int| 0 <= k < after.len() implies (#[trigger] after[k]).passed by {
                    if k < before.len() {
                        assert(after[k] == before[k]);
                    }
                }
            } else if !c.passed {
                assert(!after[i as int].passed);
            } else {
                let k = choose|k: int| 0 <= k < before.len() && !(#[trigger] before[k]).passed;
                assert(after[k] == before[k]);
            }
        }
        assert(error == failed_with_error(after)) by {
            if error {
                if !c.passed && c.severity == Severity::Error {
                    assert(!after[i as int].passed && after[i as int].severity == Severity::Error);
                } else {
                    let k = choose|k: int| 0 <= k < before.len() && !(#[trigger] before[k]).passed
                        && before[k].severity == Severity::Error;
                    assert(after[k] == before[k]);
                }
            } else {
                assert forall|k: int| 0 <= k < after.len() implies !(!(#[trigger] after[k]).passed
                    && after[k].severity == Severity::Error) by {
                    if k < before.len() {
                        assert(after[k] == before[k]);
                    }
                }
            }
        }
        i = i + 1;
    }
    assert(checks@.subrange(0, checks.len() as int) == checks@);
    if all {
        Status::Okay
    } else if error {
        Status::Error
    } else {
        Status::Warning
    }
}

/// The checks of one diagnostics run with their status and the time of the
/// run in seconds since the Unix epoch.
#[derive(Clone, Debug)]
pub struct DiagnosticsReport {
    pub status: Status,
    pub checks: Vec<CheckResult>,
    pub timestamp: u64,
}

impl DiagnosticsReport {
    /// Names are keys, and the status is the one the checks add up to.
    pub open spec fn wf(&self) -> bool {
        names_unique(self.checks@) && self.status == status_of(self.checks@)
    }
}

/// Finds two checks with one name, if there are any.
fn find_duplicate(checks: &Vec<CheckResult>) -> (r: Option<usize>)
    ensures
        r is None <==> names_unique(checks@),
        r matches Some(k) ==> k < checks.len() && exists|j: int|
            0 <= j < checks.len() && j != k && (#[trigger] checks@[j]).name@ == checks@[k as int].name@,
{
    let mut i: usize = 0;
    while i < checks.len()
        invariant
            0 <= i <= checks.len(),
            forall|a: int, b: int| 0 <= a < i && a < b < checks.len() ==>
                (#[trigger] checks@[a]).name@ != (#[trigger] checks@[b]).name@,
        decreases checks.len() - i,
    {
        let mut j: usize = i + 1;
        while j < checks.len()
            invariant
                i < checks.len(),
                i + 1 <= j <= checks.len(),
                forall|a: int, b: int| 0 <= a < i && a < b < checks.len() ==>
                    (#[trigger] checks@[a]).name@ != (#[trigger] checks@[b]).name@,
                forall|b: int| i < b < j ==> checks@[i as int].name@ != (#[trigger] checks@[b]).name@,
            decreases checks.len() - j,
        {
            if checks[i].name == checks[j].name {
                assert(checks@[j as int].name@ == checks@[i as int].name@);
                return Some(i);
            }
            j = j + 1;
        }
        i = i + 1;
    }
    None
}

/// Builds the report of one run from its checks: the status is derived from
/// them. Fails, naming the name, when two checks share a name.
pub fn build_report(checks: Vec<CheckResult>, timestamp: u64) -> (r: Result<DiagnosticsReport, String>)
    ensures
        r is Ok <==> names_unique(checks@),
        r matches Ok(rep) ==> rep.wf() && rep.checks@ == checks@ && rep.status == status_of(checks@)
            && rep.timestamp == timestamp,
        r matches Err(name) ==> exists|i: int, j: int|
            0 <= i < j < checks.len() && (#[trigger] checks@[i]).name@ == name@
                && (#[trigger] checks@[j]).name@ == name@,
{
    match find_duplicate(&checks) {
        Some(k) => {
            let name = checks[k].name.clone();
            proof {
                let j = choose|j: int|
                    0 <= j < checks.len() && j != k && (#[trigger] checks@[j]).name@ == checks@[k as int].name@;
                if j < k {
                    assert(checks@[j].name@ == name@ && checks@[k as int].name@ == name@);
                } else {
                    assert(checks@[k as int].name@ == name@ && checks@[j].name@ == name@);
                }
            }
            Err(name)
        },
        None => {
            let status = aggregate_status(&checks);
            Ok(DiagnosticsReport { status, checks, timestamp })
        },
    }
}

/// The status is `Okay` exactly when every check passed.
pub proof fn status_ok_iff_all_passed(c: Seq<CheckResult>)
    ensures
        (status_of(c) == Status::Okay) <==> (forall|i: int| 0 <= i < c.len() ==> (#[trigger] c[i]).passed),
{
}

/// The status is `Error` exactly when some failed check has severity `Error`.
pub proof fn status_error_iff_failed_error(c: Seq<CheckResult>)
    ensures
        (status_of(c) == Status::Error) <==> (exists|i: int|
            0 <= i < c.len() && !(#[trigger] c[i]).passed && c[i].severity == Severity::Error),
{
    if failed_with_error(c) {
        let i = choose|i: int| 0 <= i < c.len() && !(#[trigger] c[i]).passed && c[i].severity == Severity::Error;
        assert(!all_passed(c));
    }
}

} // verus!

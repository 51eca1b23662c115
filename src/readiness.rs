//! The readiness store: the latest diagnostics report and the ready flag derived
//! from it, and the admission of backend calls through it.
use vstd::prelude::*;
use crate::report::{DiagnosticsReport, Status};
use crate::text::concat;

verus! {

/// The ready flag that a stored report implies: set only for a report whose
/// status is `Okay`.
pub open spec fn gate_for(report: Option<DiagnosticsReport>) -> bool {
    report is Some && report->Some_0.status == Status::Okay
}

/// The latest diagnostics report, if a run has finished, and the ready flag.
/// The ready flag always agrees with the stored report.
pub struct ReadinessState {
    report: Option<DiagnosticsReport>,
    gate: bool,
}

impl ReadinessState {
    #[verifier::type_invariant]
    spec fn consistent(&self) -> bool {
        &&& self.gate == gate_for(self.report)
        &&& self.report matches Some(rep) ==> rep.wf()
    }

    /// The stored report.
    pub closed spec fn current(&self) -> Option<DiagnosticsReport> {
        self.report
    }

    /// The stored ready flag.
    pub closed spec fn gate_open(&self) -> bool {
        self.gate
    }

    /// No run yet: no report, ready flag clear.
    pub fn new() -> (r: ReadinessState)
        ensures
            r.current() is None,
            !r.gate_open(),
    {
        ReadinessState { report: None, gate: false }
    }

    /// Replaces the stored report and the ready flag together.
    pub fn set(&mut self, report: DiagnosticsReport)
        requires
            report.wf(),
        ensures
            final(self).current() == Some(report),
            final(self).gate_open() == (report.status == Status::Okay),
    {
        let open = match report.status {
            Status::Okay => true,
            _ => false,
        };
        *self = ReadinessState { report: Some(report), gate: open };
    }

    /// The ready flag and the report, read together.
    pub fn get(&self) -> (r: (bool, &Option<DiagnosticsReport>))
        ensures
            r.0 == self.gate_open(),
            *r.1 == self.current(),
            r.0 == gate_for(*r.1),
    {
        proof {
            use_type_invariant(self);
        }
        (self.gate, &self.report)
    }

    /// The ready flag alone.
    pub fn is_ready(&self) -> (r: bool)
        ensures
            r == self.gate_open(),
            r == gate_for(self.current()),
    {
        proof {
            use_type_invariant(self);
        }
        self.gate
    }
}

/// A call that the glue layer forwards to the backend.
#[derive(Clone, Copy, Debug, PartialEq, Eq, Structural)]
pub enum BackendCall {
    Evaluate,
    Mutate,
    BanditStatus,
    MemorySnapshot,
    WorkflowDag,
    TelemetryMetrics,
}

/// The calls that need the ready flag set.
pub open spec fn is_gated(call: BackendCall) -> bool {
    call == BackendCall::Evaluate || call == BackendCall::Mutate
}

/// The backend path of a call.
pub open spec fn path_of(call: BackendCall) -> Seq<char> {
    match call {
        BackendCall::Evaluate => "/evaluate"@,
        BackendCall::Mutate => "/mutate"@,
        BackendCall::BanditStatus => "/bandit/status"@,
        BackendCall::MemorySnapshot => "/memory/snapshot"@,
        BackendCall::WorkflowDag => "/workflow/dag"@,
        BackendCall::TelemetryMetrics => "/telemetry/metrics"@,
    }
}

/// Why a gated call was refused.
pub open spec fn refusal_of(call: BackendCall) -> Seq<char> {
    if call == BackendCall::Evaluate {
        "Preflight checks failed - run diagnostics first"@
    } else {
        "Preflight checks failed"@
    }
}

/// The fixed message for a failed call; an evaluation's failure is
/// reported with the backend's status or the transport's error instead.
pub open spec fn failure_of(call: BackendCall) -> Option<Seq<char>> {
    match call {
        BackendCall::Evaluate => None,
        BackendCall::Mutate => Some("Mutation request failed"@),
        BackendCall::BanditStatus => Some("Failed to get bandit status"@),
        BackendCall::MemorySnapshot => Some("Failed to create memory snapshot"@),
        BackendCall::WorkflowDag => Some("Failed to get workflow DAG"@),
        BackendCall::TelemetryMetrics => Some("Failed to get telemetry metrics"@),
    }
}

impl BackendCall {
    /// The fixed message for a failed call, if it has one.
    pub fn failure_text(&self) -> (r: Option<&'static str>)
        ensures
            r is None <==> failure_of(*self) is None,
            r matches Some(t) ==> failure_of(*self) == Some(t@),
    {
        match self {
            BackendCall::Evaluate => None,
            BackendCall::Mutate => Some("Mutation request failed"),
            BackendCall::BanditStatus => Some("Failed to get bandit status"),
            BackendCall::MemorySnapshot => Some("Failed to create memory snapshot"),
            BackendCall::WorkflowDag => Some("Failed to get workflow DAG"),
            BackendCall::TelemetryMetrics => Some("Failed to get telemetry metrics"),
        }
    }

    /// Whether the call is sent with a sixty-second timeout.
    pub fn long_running(&self) -> (r: bool)
        ensures
            r == is_gated(*self),
    {
        self.gated()
    }

    /// The backend path of this call.
    pub fn path(&self) -> (r: &'static str)
        ensures
            r@ == path_of(*self),
    {
        match self {
            BackendCall::Evaluate => "/evaluate",
            BackendCall::Mutate => "/mutate",
            BackendCall::BanditStatus => "/bandit/status",
            BackendCall::MemorySnapshot => "/memory/snapshot",
            BackendCall::WorkflowDag => "/workflow/dag",
            BackendCall::TelemetryMetrics => "/telemetry/metrics",
        }
    }

    /// Whether this call needs the ready flag set.
    pub fn gated(&self) -> (r: bool)
        ensures
            r == is_gated(*self),
    {
        match self {
            BackendCall::Evaluate | BackendCall::Mutate => true,
            _ => false,
        }
    }
}

/// Routes a backend call: the URL to send it to, or, for a gated call while
/// the ready flag is clear, the refusal, in which case nothing is to be sent.
pub fn route_call(state: &ReadinessState, call: BackendCall, base_url: &str) -> (r: Result<String, String>)
    ensures
        r is Ok <==> (!is_gated(call) || state.gate_open()),
        r matches Ok(url) ==> url@ == base_url@ + path_of(call),
        r matches Err(msg) ==> msg@ == refusal_of(call),
{
    if call.gated() && !state.is_ready() {
        let msg = match call {
            BackendCall::Evaluate => "Preflight checks failed - run diagnostics first",
            _ => "Preflight checks failed",
        };
        Err(msg.to_owned())
    } else {
        Ok(concat(base_url, call.path()))
    }
}

} // verus!

//! A local process supervisor with readiness-gated diagnostics: the decisions
//! behind spawning sidecar processes, probing their HTTP endpoints, running
//! diagnostic checks and gating operations on the latest report.

pub mod text;
pub mod checks;
pub mod report;
pub mod readiness;
pub mod probe;
pub mod supervisor;
pub mod inventory;
pub mod diagnostics;

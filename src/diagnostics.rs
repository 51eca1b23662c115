//! One diagnostics run: the checks over what was observed, the report they
//! add up to, and its publication to the readiness store.
use vstd::prelude::*;
use crate::checks::{
    backend_check, backend_verdict, disk_check, disk_verdict, models_check, models_verdict,
    ollama_check, ollama_verdict, ram_check, ram_verdict, CheckResult, ModelListing, GIB,
};
use crate::readiness::ReadinessState;
use crate::report::{build_report, names_unique, status_of, Status};

verus! {

/// The static configuration of the diagnostics.
pub struct DiagnosticsConfig {
    pub backend_base_url: String,
    pub inference_base_url: String,
    pub required_models: Vec<String>,
    pub min_free_ram_bytes: u64,
    pub min_free_disk_bytes: u64,
    pub probe_attempts: u32,
    pub probe_interval_ms: u64,
}

/// The local services, the two models the application needs, at least 2 GiB
/// of free memory and 5 GiB of disk, and probes of 30 attempts 500 ms apart.
pub fn default_config() -> (r: DiagnosticsConfig)
    ensures
        r.backend_base_url@ == "http://127.0.0.1:8000"@,
        r.inference_base_url@ == "http://127.0.0.1:11434"@,
        r.required_models.deep_view() == seq!["deepseek-r1:14b"@, "qwen2.5-coder:7b"@],
        r.min_free_ram_bytes == 2 * GIB,
        r.min_free_disk_bytes == 5 * GIB,
        r.probe_attempts == 30,
        r.probe_interval_ms == 500,
{
    let mut models: Vec<String> = Vec::new();
    models.push("deepseek-r1:14b".to_owned());
    models.push("qwen2.5-coder:7b".to_owned());
    assert(models.deep_view() =~= seq!["deepseek-r1:14b"@, "qwen2.5-coder:7b"@]);
    DiagnosticsConfig {
        backend_base_url: "http://127.0.0.1:8000".to_owned(),
        inference_base_url: "http://127.0.0.1:11434".to_owned(),
        required_models: models,
        min_free_ram_bytes: 2 * GIB,
        min_free_disk_bytes: 5 * GIB,
        probe_attempts: 30,
        probe_interval_ms: 500,
    }
}

/// What the checks observed.
pub struct Observations {
    pub available_memory_bytes: u64,
    pub inference_status: Option<u16>,
    pub inventory: ModelListing,
    pub backend_status: Option<u16>,
}

/// Runs the checks over the observations, builds the report stamped with
/// `timestamp`, stores it in `state` with the ready flag it implies, and returns
/// its status.
pub fn run_diagnostics(
    state: &mut ReadinessState,
    config: &DiagnosticsConfig,
    obs: Observations,
    timestamp: u64,
) -> (r: Status)
    ensures
        final(state).current() matches Some(rep) && {
            &&& rep.wf()
            &&& rep.status == r
            &&& r == status_of(rep.checks@)
            &&& rep.timestamp == timestamp
            &&& rep.checks.len() == 5
            &&& rep.checks[0].parts() == ram_verdict(obs.available_memory_bytes, config.min_free_ram_bytes)
            &&& rep.checks[1].parts() == disk_verdict(config.min_free_disk_bytes)
            &&& rep.checks[2].parts() == ollama_verdict(config.inference_base_url@, obs.inference_status)
            &&& rep.checks[3].parts() == models_verdict(obs.inventory, config.required_models@)
            &&& rep.checks[4].parts() == backend_verdict(config.backend_base_url@, obs.backend_status)
        },
        final(state).gate_open() == (r == Status::Okay),
{
    let mut checks: Vec<CheckResult> = Vec::new();
    checks.push(ram_check(obs.available_memory_bytes, config.min_free_ram_bytes));
    checks.push(disk_check(config.min_free_disk_bytes));
    checks.push(ollama_check(config.inference_base_url.as_str(), obs.inference_status));
    checks.push(models_check(&obs.inventory, &config.required_models));
    checks.push(backend_check(config.backend_base_url.as_str(), obs.backend_status));
    proof {
        reveal_strlit("ram");
        reveal_strlit("disk");
        reveal_strlit("ollama");
        reveal_strlit("models");
        reveal_strlit("backend");
        assert("ram"@.len() == 3 && "disk"@.len() == 4 && "ollama"@.len() == 6);
        assert("models"@.len() == 6 && "backend"@.len() == 7);
        assert("ollama"@[0] != "models"@[0]);
        let c = checks@;
        assert(c[0].name@ != c[1].name@ && c[0].name@ != c[2].name@ && c[0].name@ != c[3].name@
            && c[0].name@ != c[4].name@);
        assert(c[1].name@ != c[2].name@ && c[1].name@ != c[3].name@ && c[1].name@ != c[4].name@);
        assert(c[2].name@ != c[3].name@ && c[2].name@ != c[4].name@);
        assert(c[3].name@ != c[4].name@);
        assert(names_unique(c));
    }
    match build_report(checks, timestamp) {
        Ok(rep) => {
            let status = rep.status;
            state.set(rep);
            status
        },
        Err(_) => {
            proof {
                assert(false);
            }
            Status::Error
        },
    }
}

} // verus!

//! The individual diagnostic checks. Each one turns what was observed (a
//! memory figure, an HTTP status, a list of installed models) into a verdict.
use vstd::prelude::*;
use crate::text::{concat, debug_list, decimal, digit, digit_char, debug_list_text, decimal_text, is_substring, push_char, push_text, text_contains};

verus! {

/// How serious a check's outcome is.
#[derive(Clone, Copy, Debug, PartialEq, Eq, Structural)]
pub enum Severity {
    Info,
    Warning,
    Error,
}

/// The verdict of one diagnostic check.
#[derive(Clone, Debug)]
pub struct CheckResult {
    pub name: String,
    pub passed: bool,
    pub message: String,
    pub severity: Severity,
}

/// A check result as name, verdict, severity and message.
pub type CheckParts = (Seq<char>, bool, Severity, Seq<char>);

impl CheckResult {
    /// Its name, verdict, severity and message.
    pub open spec fn parts(&self) -> CheckParts {
        (self.name@, self.passed, self.severity, self.message@)
    }
}

/// Bytes in one GiB.
pub const GIB: u64 = 1073741824;

/// An HTTP status in the success class 2xx.
pub open spec fn is_success_status(s: u16) -> bool {
    200 <= s && s < 300
}

/// The response, if any, carried a success status.
pub open spec fn reached(status: Option<u16>) -> bool {
    status is Some && is_success_status(status->Some_0)
}

/// `bytes` in hundredths of a GiB, rounded half up.
pub open spec fn centi_gib(bytes: nat) -> nat {
    (bytes * 100 + 536870912) / 1073741824
}

/// `bytes` in GiB with two decimals.
pub open spec fn gib_text(bytes: nat) -> Seq<char> {
    decimal_text(centi_gib(bytes) / 100) + seq![
        '.',
        digit_char((centi_gib(bytes) % 100) / 10),
        digit_char(centi_gib(bytes) % 10),
    ]
}

/// `bytes` written in GiB with two decimals, as in `3.50`.
pub fn gib(bytes: u64) -> (r: String)
    ensures
        r@ == gib_text(bytes as nat),
{
    let wide: u128 = bytes as u128;
    assert(wide * 100 + 536870912 < 0x1_0000_0000_0000_0000_0000_0000_0000_0000) by (nonlinear_arith)
        requires wide < 0x1_0000_0000_0000_0000;
    let centi: u128 = (wide * 100 + 536870912) / 1073741824;
    assert(centi / 100 < 0x1_0000_0000_0000_0000) by (nonlinear_arith)
        requires centi == (wide * 100 + 536870912) / 1073741824, wide < 0x1_0000_0000_0000_0000;
    let whole: u64 = (centi / 100) as u64;
    let frac: u64 = (centi % 100) as u64;
    let mut s = decimal(whole);
    push_char(&mut s, '.');
    push_char(&mut s, digit(frac / 10));
    push_char(&mut s, digit(frac % 10));
    s
}

/// Builds a check result from its parts.
fn verdict(name: &str, passed: bool, message: String, severity: Severity) -> (r: CheckResult)
    ensures
        r.name@ == name@,
        r.passed == passed,
        r.message == message,
        r.severity == severity,
{
    CheckResult { name: name.to_owned(), passed, message, severity }
}

/// The memory check's result.
pub open spec fn ram_verdict(available_bytes: u64, min_free_bytes: u64) -> CheckParts {
    let passed = available_bytes >= min_free_bytes;
    (
        "ram"@,
        passed,
        if passed { Severity::Info } else { Severity::Error },
        "Available RAM: "@ + gib_text(available_bytes as nat) + " GB (required: "@ + gib_text(
            min_free_bytes as nat,
        ) + " GB)"@,
    )
}

/// Free memory against a minimum: passes with `Info` when at least
/// `min_free_bytes` are available, and fails with `Error` otherwise.
pub fn ram_check(available_bytes: u64, min_free_bytes: u64) -> (r: CheckResult)
    ensures
        r.parts() == ram_verdict(available_bytes, min_free_bytes),
{
    let mut m = concat("Available RAM: ", gib(available_bytes).as_str());
    push_text(&mut m, " GB (required: ");
    push_text(&mut m, gib(min_free_bytes).as_str());
    push_text(&mut m, " GB)");
    let passed = available_bytes >= min_free_bytes;
    verdict("ram", passed, m, if passed { Severity::Info } else { Severity::Error })
}

/// The disk check's result: always a pass.
pub open spec fn disk_verdict(min_free_bytes: u64) -> CheckParts {
    ("disk"@, true, Severity::Info, "Disk space check passed (>= "@ + gib_text(min_free_bytes as nat) + " GB)"@)
}

/// The disk-space check. It does not measure anything: it always passes.
pub fn disk_check(min_free_bytes: u64) -> (r: CheckResult)
    ensures
        r.parts() == disk_verdict(min_free_bytes),
{
    let mut m = concat("Disk space check passed (>= ", gib(min_free_bytes).as_str());
    push_text(&mut m, " GB)");
    verdict("disk", true, m, Severity::Info)
}

/// The inference service check's result.
pub open spec fn ollama_verdict(base_url: Seq<char>, status: Option<u16>) -> CheckParts {
    if reached(status) {
        ("ollama"@, true, Severity::Info, "Ollama service is running"@)
    } else {
        ("ollama"@, false, Severity::Error, "Ollama service not reachable at "@ + base_url)
    }
}

/// Whether the inference service answered its inventory endpoint with a
/// success status (`None`: no response at all).
pub fn ollama_check(base_url: &str, status: Option<u16>) -> (r: CheckResult)
    ensures
        r.parts() == ollama_verdict(base_url@, status),
{
    let ok = match status {
        Some(s) => 200 <= s && s < 300,
        None => false,
    };
    if ok {
        verdict("ollama", true, "Ollama service is running".to_owned(), Severity::Info)
    } else {
        verdict("ollama", false, concat("Ollama service not reachable at ", base_url), Severity::Error)
    }
}

/// The backend check's result.
pub open spec fn backend_verdict(base_url: Seq<char>, status: Option<u16>) -> CheckParts {
    if reached(status) {
        ("backend"@, true, Severity::Info, "Backend services are running"@)
    } else {
        ("backend"@, false, Severity::Error, "Backend services not reachable at "@ + base_url)
    }
}

/// Whether the backend answered its health endpoint with a success status
/// (`None`: no response at all). An unreachable backend is an error.
pub fn backend_check(base_url: &str, status: Option<u16>) -> (r: CheckResult)
    ensures
        r.parts() == backend_verdict(base_url@, status),
{
    let ok = match status {
        Some(s) => 200 <= s && s < 300,
        None => false,
    };
    if ok {
        verdict("backend", true, "Backend services are running".to_owned(), Severity::Info)
    } else {
        verdict("backend", false, concat("Backend services not reachable at ", base_url), Severity::Error)
    }
}

/// Some installed name contains `wanted`.
pub open spec fn covered(names: Seq<String>, wanted: Seq<char>) -> bool {
    exists|k: int| 0 <= k < names.len() && is_substring(wanted, #[trigger] names[k]@)
}

/// The required entries, in order, that no installed name contains.
pub open spec fn missing_of(names: Seq<String>, required: Seq<String>) -> Seq<Seq<char>>
    decreases required.len(),
{
    if required.len() == 0 {
        Seq::empty()
    } else {
        let rest = missing_of(names, required.drop_last());
        if covered(names, required.last()@) {
            rest
        } else {
            rest.push(required.last()@)
        }
    }
}

/// Whether some entry of `names` contains `wanted`.
fn any_contains(names: &Vec<String>, wanted: &String) -> (r: bool)
    ensures
        r == covered(names@, wanted@),
{
    let mut k: usize = 0;
    while k < names.len()
        invariant
            0 <= k <= names.len(),
            forall|j: int| 0 <= j < k ==> !is_substring(wanted@, #[trigger] names@[j]@),
        decreases names.len() - k,
    {
        if text_contains(names[k].as_str(), wanted.as_str()) {
            return true;
        }
        k = k + 1;
    }
    false
}

/// The entries of `required`, in order, that no entry of `names` contains.
pub fn missing_models(names: &Vec<String>, required: &Vec<String>) -> (r: Vec<String>)
    ensures
        r.deep_view() == missing_of(names@, required@),
{
    let mut missing: Vec<String> = Vec::new();
    let mut i: usize = 0;
    while i < required.len()
        invariant
            0 <= i <= required.len(),
            missing.deep_view() == missing_of(names@, required@.subrange(0, i as int)),
        decreases required.len() - i,
    {
        let ghost prefix = required@.subrange(0, i + 1);
        assert(prefix.drop_last() == required@.subrange(0, i as int));
        if !any_contains(names, &required[i]) {
            missing.push(required[i].clone());
        }
        assert(missing.deep_view() =~= missing_of(names@, prefix));
        i = i + 1;
    }
    assert(required@.subrange(0, required.len() as int) == required@);
    missing
}

/// What the inventory endpoint gave.
#[derive(Clone, Debug)]
pub enum ModelListing {
    /// No response, or a status outside 2xx.
    Unreachable,
    /// A success response whose body was not JSON.
    Unreadable,
    /// The names of the installed models.
    Names(Vec<String>),
}

/// The models check's result.
pub open spec fn models_verdict(listing: ModelListing, required: Seq<String>) -> CheckParts {
    match listing {
        ModelListing::Unreachable => (
            "models"@,
            false,
            Severity::Error,
            "Cannot check models - Ollama not running"@,
        ),
        ModelListing::Unreadable => ("models"@, false, Severity::Error, "Failed to parse Ollama models list"@),
        ModelListing::Names(names) => {
            let missing = missing_of(names@, required);
            if missing.len() == 0 {
                (
                    "models"@,
                    true,
                    Severity::Info,
                    "All required models present: "@ + debug_list_text(required.map_values(|s: String| s@)),
                )
            } else {
                ("models"@, false, Severity::Error, "Missing models: "@ + debug_list_text(missing))
            }
        },
    }
}

/// Every required entry is contained in some installed name exactly when
/// none is missing.
pub proof fn missing_none_iff_all_covered(names: Seq<String>, required: Seq<String>)
    ensures
        (missing_of(names, required).len() == 0) <==> (forall|i: int|
            0 <= i < required.len() ==> covered(names, (#[trigger] required[i])@)),
    decreases required.len(),
{
    if required.len() > 0 {
        let init = required.drop_last();
        missing_none_iff_all_covered(names, init);
        assert forall|i: int| 0 <= i < init.len() implies init[i] == required[i] by {}
        if missing_of(names, required).len() == 0 {
            assert forall|i: int| 0 <= i < required.len() implies covered(names, (#[trigger] required[i])@) by {
                if i < init.len() {
                    assert(init[i] == required[i]);
                }
            }
        } else if forall|i: int| 0 <= i < required.len() ==> covered(names, (#[trigger] required[i])@) {
            assert(covered(names, required[required.len() - 1]@));
            assert forall|i: int| 0 <= i < init.len() implies covered(names, (#[trigger] init[i])@) by {
                assert(init[i] == required[i]);
            }
        }
    }
}

/// Whether every required model is installed: it fails with `Error` when the
/// inventory could not be had or read, or when an entry is missing, and names
/// the missing entries.
pub fn models_check(listing: &ModelListing, required: &Vec<String>) -> (r: CheckResult)
    ensures
        r.parts() == models_verdict(*listing, required@),
{
    match listing {
        ModelListing::Unreachable => verdict(
            "models",
            false,
            "Cannot check models - Ollama not running".to_owned(),
            Severity::Error,
        ),
        ModelListing::Unreadable => verdict(
            "models",
            false,
            "Failed to parse Ollama models list".to_owned(),
            Severity::Error,
        ),
        ModelListing::Names(names) => {
            let missing = missing_models(names, required);
            if missing.len() == 0 {
                assert(required.deep_view() =~= required@.map_values(|s: String| s@));
                let m = concat("All required models present: ", debug_list(required).as_str());
                verdict("models", true, m, Severity::Info)
            } else {
                let m = concat("Missing models: ", debug_list(&missing).as_str());
                verdict("models", false, m, Severity::Error)
            }
        },
    }
}

} // verus!

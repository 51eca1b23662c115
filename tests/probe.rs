use sidecar_supervisor::probe::{ProbeState, ProbeStep};

/// Drives a probe over scripted outcomes; returns the verdict, the requests
/// made and the pauses taken.
fn drive(max: u32, outcomes: &[Option<u16>]) -> (bool, u32, u32) {
    let mut p = ProbeState::new(max);
    let mut next = 0;
    loop {
        match p.step() {
            ProbeStep::Request => {
                p.on_response(outcomes[next]);
                next += 1;
            }
            ProbeStep::Wait => p.on_waited(),
            ProbeStep::Finish(ok) => return (ok, p.requests_made(), p.pauses_taken()),
        }
    }
}

#[test]
fn probe_success_on_third_of_five() {
    let outcomes = [None, Some(500), Some(200), Some(200), Some(200)];
    assert_eq!(drive(5, &outcomes), (true, 3, 2));
}

#[test]
fn probe_gives_up_after_budget() {
    let outcomes = [None, Some(404), Some(503)];
    assert_eq!(drive(3, &outcomes), (false, 3, 3));
}

#[test]
fn probe_redirect_counts_as_success() {
    assert_eq!(drive(4, &[Some(399)]), (true, 1, 0));
}

#[test]
fn probe_with_no_budget_fails_at_once() {
    assert_eq!(drive(0, &[]), (false, 0, 0));
}

//! The decisions of a bounded-retry HTTP probe. The caller performs each
//! request and each pause that the probe asks for and reports back; the
//! probe decides when to stop and with what verdict.
use vstd::prelude::*;

verus! {

/// What the caller is to do next.
#[derive(Clone, Copy, Debug, PartialEq, Eq, Structural)]
pub enum ProbeStep {
    /// Send one request and report its outcome.
    Request,
    /// Sleep for the interval, then report it.
    Wait,
    /// Stop: the endpoint was reachable, or the attempts are spent.
    Finish(bool),
}

/// An attempt succeeds when a response came with a status below 400
/// (`None`: no response at all).
pub open spec fn attempt_ok(outcome: Option<u16>) -> bool {
    outcome is Some && outcome->Some_0 < 400
}

/// Some attempt succeeded.
pub open spec fn any_ok(h: Seq<Option<u16>>) -> bool {
    exists|i: int| 0 <= i < h.len() && attempt_ok(#[trigger] h[i])
}

/// The next step after the attempts `h` and `sleeps` pauses, with a budget of
/// `max` attempts: stop at the first success, pause after each failed
/// attempt, and give up once the budget is spent.
pub open spec fn step_of(max: nat, h: Seq<Option<u16>>, sleeps: nat) -> ProbeStep {
    if any_ok(h) {
        ProbeStep::Finish(true)
    } else if h.len() > sleeps {
        ProbeStep::Wait
    } else if h.len() < max {
        ProbeStep::Request
    } else {
        ProbeStep::Finish(false)
    }
}

/// A probe in progress: its budget, the outcomes of the attempts made so
/// far, in order, and the pauses taken.
pub struct ProbeState {
    max_attempts: u32,
    calls: u32,
    sleeps: u32,
    succeeded: bool,
    history: Ghost<Seq<Option<u16>>>,
}

impl ProbeState {
    #[verifier::type_invariant]
    spec fn inv(&self) -> bool {
        &&& self.history@.len() == self.calls
        &&& self.calls <= self.max_attempts
        &&& self.sleeps <= self.calls <= self.sleeps + 1
        &&& self.succeeded == any_ok(self.history@)
        &&& forall|i: int| 0 <= i < self.sleeps ==> !attempt_ok(#[trigger] self.history@[i])
        &&& self.succeeded ==> self.calls == self.sleeps + 1
    }

    /// The attempt budget.
    pub closed spec fn max(&self) -> nat {
        self.max_attempts as nat
    }

    /// The outcomes of the attempts made, in order.
    pub closed spec fn attempts(&self) -> Seq<Option<u16>> {
        self.history@
    }

    /// The pauses taken.
    pub closed spec fn pauses(&self) -> nat {
        self.sleeps as nat
    }

    /// The next step.
    pub open spec fn next(&self) -> ProbeStep {
        step_of(self.max(), self.attempts(), self.pauses())
    }

    /// A probe that may make up to `max_attempts` requests.
    pub fn new(max_attempts: u32) -> (r: ProbeState)
        ensures
            r.max() == max_attempts,
            r.attempts() == Seq::<Option<u16>>::empty(),
            r.pauses() == 0,
    {
        ProbeState { max_attempts, calls: 0, sleeps: 0, succeeded: false, history: Ghost(Seq::empty()) }
    }

    /// Decides the next step. It never asks for more requests than the budget;
    /// it finishes with `true` right after the first successful attempt, and
    /// with `false` only once every attempt of the budget has failed.
    pub fn step(&self) -> (r: ProbeStep)
        ensures
            r == self.next(),
            self.attempts().len() <= self.max(),
            r is Request ==> self.attempts().len() < self.max(),
            r matches ProbeStep::Finish(b) ==> b == any_ok(self.attempts()),
            r == ProbeStep::Finish(true) ==> attempt_ok(self.attempts().last()) && forall|i: int|
                0 <= i < self.attempts().len() - 1 ==> !attempt_ok(#[trigger] self.attempts()[i]),
            r == ProbeStep::Finish(false) ==> self.attempts().len() == self.max()
                && !any_ok(self.attempts()),
            r == ProbeStep::Finish(true) ==> self.pauses() + 1 == self.attempts().len(),
            r == ProbeStep::Finish(false) ==> self.pauses() == self.max(),
    {
        proof {
            use_type_invariant(self);
        }
        if self.succeeded {
            proof {
                let h = self.history@;
                let k = choose|k: int| 0 <= k < h.len() && attempt_ok(#[trigger] h[k]);
                assert(k == h.len() - 1);
            }
            ProbeStep::Finish(true)
        } else if self.calls > self.sleeps {
            ProbeStep::Wait
        } else if self.calls < self.max_attempts {
            ProbeStep::Request
        } else {
            ProbeStep::Finish(false)
        }
    }

    /// Records the outcome of the request that `step` asked for.
    pub fn on_response(&mut self, outcome: Option<u16>)
        requires
            old(self).next() == ProbeStep::Request,
        ensures
            final(self).max() == old(self).max(),
            final(self).attempts() == old(self).attempts().push(outcome),
            final(self).pauses() == old(self).pauses(),
    {
        proof {
            use_type_invariant(&*self);
        }
        let ok = match outcome {
            Some(s) => s < 400,
            None => false,
        };
        let ghost h = self.history@.push(outcome);
        assert(h[h.len() - 1] == outcome);
        assert(ok == any_ok(h)) by {
            if any_ok(h) && !ok {
                let k = choose|k: int| 0 <= k < h.len() && attempt_ok(#[trigger] h[k]);
                assert(h[k] == self.history@[k]);
            }
        }
        assert forall|i: int| 0 <= i < self.sleeps implies !attempt_ok(#[trigger] h[i]) by {
            assert(h[i] == self.history@[i]);
        }
        *self = ProbeState {
            max_attempts: self.max_attempts,
            calls: self.calls + 1,
            sleeps: self.sleeps,
            succeeded: ok,
            history: Ghost(h),
        };
    }

    /// Records the pause that `step` asked for.
    pub fn on_waited(&mut self)
        requires
            old(self).next() == ProbeStep::Wait,
        ensures
            final(self).max() == old(self).max(),
            final(self).attempts() == old(self).attempts(),
            final(self).pauses() == old(self).pauses() + 1,
    {
        proof {
            use_type_invariant(&*self);
        }
        *self = ProbeState {
            max_attempts: self.max_attempts,
            calls: self.calls,
            sleeps: self.sleeps + 1,
            succeeded: self.succeeded,
            history: self.history,
        };
    }

    /// The number of requests made.
    pub fn requests_made(&self) -> (r: u32)
        ensures
            r == self.attempts().len(),
    {
        proof {
            use_type_invariant(self);
        }
        self.calls
    }

    /// The number of pauses taken.
    pub fn pauses_taken(&self) -> (r: u32)
        ensures
            r == self.pauses(),
    {
        self.sleeps
    }
}

} // verus!

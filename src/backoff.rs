//! Delay between retries of a send that the transport refused for now.
use vstd::prelude::*;

verus! {

/// Retry delay, in microseconds: it starts at the floor, doubles after each
/// transient failure up to the ceiling, and drops back to the floor after a
/// successful send.
#[derive(Debug, Clone, Copy, PartialEq, Eq, Structural)]
pub struct Backoff {
    pub current: u64,
    pub floor: u64,
    pub ceiling: u64,
}

/// Twice `current`, but no more than `ceiling`.
pub open spec fn doubled(current: u64, ceiling: u64) -> u64 {
    if 2 * current > ceiling {
        ceiling
    } else {
        (2 * current) as u64
    }
}

/// The backoff after one send: `succeeded` tells whether it went through.
pub open spec fn backoff_step(b: Backoff, succeeded: bool) -> Backoff {
    if succeeded {
        Backoff { current: b.floor, ..b }
    } else {
        Backoff { current: doubled(b.current, b.ceiling), ..b }
    }
}

/// The backoff after a run of sends, each marked by whether it went through.
pub open spec fn backoff_run(b: Backoff, outcomes: Seq<bool>) -> Backoff
    decreases outcomes.len(),
{
    if outcomes.len() == 0 {
        b
    } else {
        backoff_step(backoff_run(b, outcomes.drop_last()), outcomes.last())
    }
}

impl Backoff {
    /// The delay lies between floor and ceiling.
    pub open spec fn wf(&self) -> bool {
        self.floor <= self.current <= self.ceiling
    }

    /// A backoff at its floor.
    pub fn new(floor: u64, ceiling: u64) -> (r: Backoff)
        requires
            floor <= ceiling,
        ensures
            r == (Backoff { current: floor, floor, ceiling }),
            r.wf(),
    {
        Backoff { current: floor, floor, ceiling }
    }

    /// The delay to wait before the next retry.
    pub fn delay(&self) -> (r: u64)
        ensures
            r == self.current,
    {
        self.current
    }

    /// Records a transient failure: returns the delay to wait now, and doubles
    /// the next one up to the ceiling.
    pub fn on_failure(&mut self) -> (r: u64)
        requires
            old(self).wf(),
        ensures
            r == old(self).current,
            *final(self) == backoff_step(*old(self), false),
            final(self).wf(),
    {
        let r = self.current;
        if self.current > self.ceiling / 2 {
            self.current = self.ceiling;
        } else {
            self.current = 2 * self.current;
        }
        r
    }

    /// Records a successful send: the delay goes back to the floor.
    pub fn on_success(&mut self)
        requires
            old(self).wf(),
        ensures
            *final(self) == backoff_step(*old(self), true),
            final(self).current == old(self).floor,
            final(self).wf(),
    {
        self.current = self.floor;
    }
}

/// Whatever mix of failures and successes a sender meets, the delay never
/// exceeds the ceiling nor falls under the floor, and right after a success
/// it is back at the floor.
pub proof fn lemma_backoff_bounded(b: Backoff, outcomes: Seq<bool>)
    requires
        b.wf(),
    ensures
        backoff_run(b, outcomes).wf(),
        backoff_run(b, outcomes).floor == b.floor,
        backoff_run(b, outcomes).ceiling == b.ceiling,
        backoff_run(b, outcomes).current <= b.ceiling,
        outcomes.len() > 0 && outcomes.last() ==> backoff_run(b, outcomes).current == b.floor,
    decreases outcomes.len(),
{
    if outcomes.len() > 0 {
        lemma_backoff_bounded(b, outcomes.drop_last());
    }
}

/// Failures in a row never shrink the delay.
pub proof fn lemma_backoff_grows(b: Backoff)
    requires
        b.wf(),
    ensures
        backoff_step(b, false).current >= b.current,
        b.current <= b.ceiling / 2 ==> backoff_step(b, false).current == 2 * b.current,
{
}

} // verus!

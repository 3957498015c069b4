//! The fault flag: how the control loop learns that the render worker died.
//!
//! The flag starts healthy. The monitor that waits for the render worker
//! reports how the worker ended; an abnormal end turns the flag unhealthy,
//! and nothing turns it back.

use vstd::prelude::*;

verus! {

/// How the render worker ended.
#[derive(Clone, Copy, PartialEq, Eq, Structural, Debug)]
pub enum Termination {
    /// The worker returned.
    Normal,
    /// The worker was torn down by a failure.
    Abnormal,
}

/// Whether the render worker is still believed to be alive.
#[derive(Clone, Copy, Debug)]
pub struct FaultFlag {
    healthy: bool,
}

/// The flag's state after the monitor saw `outcome`.
pub open spec fn watched(healthy: bool, outcome: Termination) -> bool {
    healthy && outcome == Termination::Normal
}

/// The flag's state after the monitor saw each of `outcomes`, in order.
pub open spec fn watched_all(healthy: bool, outcomes: Seq<Termination>) -> bool
    decreases outcomes.len(),
{
    if outcomes.len() == 0 {
        healthy
    } else {
        watched(watched_all(healthy, outcomes.drop_last()), outcomes.last())
    }
}

/// Whatever the monitor sees, the flag is healthy afterwards only if it was
/// healthy before and no outcome was abnormal: an unhealthy flag stays
/// unhealthy.
pub proof fn lemma_never_recovers(healthy: bool, outcomes: Seq<Termination>)
    ensures
        watched_all(healthy, outcomes) == (healthy && forall|i: int|
            0 <= i < outcomes.len() ==> outcomes[i] == Termination::Normal),
    decreases outcomes.len(),
{
    if outcomes.len() > 0 {
        let head = outcomes.drop_last();
        lemma_never_recovers(healthy, head);
        if watched_all(healthy, outcomes) {
            assert forall|i: int| 0 <= i < outcomes.len() implies outcomes[i]
                == Termination::Normal by {
                if i < head.len() {
                    assert(head[i] == outcomes[i]);
                }
            }
        } else if healthy {
            if outcomes.last() == Termination::Normal {
                let i = choose|i: int| 0 <= i < head.len() && head[i] != Termination::Normal;
                assert(outcomes[i] != Termination::Normal);
            }
        }
    }
}

impl FaultFlag {
    /// Whether the flag is healthy.
    pub closed spec fn healthy(&self) -> bool {
        self.healthy
    }

    /// A healthy flag.
    pub fn new() -> (flag: FaultFlag)
        ensures
            flag.healthy(),
    {
        FaultFlag { healthy: true }
    }

    /// What the control loop polls.
    pub fn is_healthy(&self) -> (b: bool)
        ensures
            b == self.healthy(),
    {
        self.healthy
    }

    /// Takes in how the render worker ended. An abnormal end turns the flag
    /// unhealthy; a normal end leaves it as it is.
    ///
    /// Returns whether this call turned the flag: true for the first abnormal
    /// end only.
    pub fn watch(&mut self, outcome: Termination) -> (turned: bool)
        ensures
            final(self).healthy() == watched(old(self).healthy(), outcome),
            turned == (old(self).healthy() && outcome == Termination::Abnormal),
    {
        match outcome {
            Termination::Normal => false,
            Termination::Abnormal => {
                let turned: bool = self.healthy;
                self.healthy = false;
                turned
            },
        }
    }
}

} // verus!

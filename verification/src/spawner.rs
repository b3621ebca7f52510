//! The obstacle spawner's timing state: an elapsed-time accumulator
//! that completes one spawn interval each time it reaches the fixed
//! period, carrying the overshoot forward so the cadence never
//! drifts under frame-time jitter.
//!
//! The accumulator starts at zero, so the first interval completes
//! one full period after startup; the initial delay is zero.

use vstd::prelude::*;
use vstd::arithmetic::div_mod::lemma_fundamental_div_mod_converse;
use crate::units::PERIOD;

verus! {

/// Timing state of the obstacle spawner. `total` is the ghost sum of
/// every tick duration fed to [`Spawner::advance`]; `count` counts
/// the completed spawn intervals.
pub struct Spawner {
    pub acc: u64,
    pub count: u64,
    pub total: Ghost<nat>,
}

impl Spawner {
    /// The accumulator always holds exactly the elapsed time not yet
    /// paid out as completed intervals, and stays below one period.
    pub open spec fn wf(self) -> bool {
        &&& self.acc < PERIOD
        &&& self.acc as int == self.total@ - self.count as int * PERIOD as int
    }

    /// A fresh spawner: nothing elapsed, nothing spawned.
    pub fn new() -> (r: Spawner)
        ensures
            r.wf(),
            r.acc == 0,
            r.count == 0,
            r.total@ == 0,
    {
        Spawner { acc: 0, count: 0, total: Ghost(0) }
    }

    /// Account one tick of elapsed time. Returns whether a spawn
    /// interval completed this tick; if so the period is consumed,
    /// keeping the overshoot in the accumulator.
    pub fn advance(&mut self, dt: u64) -> (due: bool)
        requires
            old(self).wf(),
            dt <= PERIOD,
            old(self).count < u64::MAX,
        ensures
            final(self).wf(),
            final(self).total@ == old(self).total@ + dt,
            due == (old(self).acc + dt >= PERIOD),
            due ==> final(self).acc == old(self).acc + dt - PERIOD && final(self).count
                == old(self).count + 1,
            !due ==> final(self).acc == old(self).acc + dt && final(self).count == old(
                self,
            ).count,
    {
        self.total = Ghost(self.total@ + dt as nat);
        let sum: u64 = self.acc + dt;
        if sum >= PERIOD {
            self.acc = sum - PERIOD;
            self.count = self.count + 1;
            true
        } else {
            self.acc = sum;
            false
        }
    }
}

/// Spawn cadence does not drift: however the elapsed time was split
/// into ticks, the number of completed spawn intervals is exactly
/// the total elapsed time divided by the period, rounded down.
pub proof fn lemma_spawn_cadence(s: Spawner)
    requires
        s.wf(),
    ensures
        s.count as int == s.total@ as int / PERIOD as int,
{
    lemma_fundamental_div_mod_converse(
        s.total@ as int,
        PERIOD as int,
        s.count as int,
        s.acc as int,
    );
}

} // verus!

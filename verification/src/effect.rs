//! Effects that wear off: a flag that some event raises and that falls by
//! itself after a number of frames.

use vstd::prelude::*;

verus! {

/// An effect that an event switches on and that lasts a number of ticks.
#[derive(Clone, Copy, PartialEq, Eq, Structural, Debug)]
pub struct Effect {
    /// Whether the effect is on.
    pub active: bool,
    /// Number of ticks counted since the effect was switched on.
    pub ticks: u32,
}

impl Effect {
    /// The effect after one tick, for an effect that lasts `duration`
    /// ticks: an effect that is off stays as it is; one that is on counts
    /// the tick, and is switched off, with no tick counted, once the count
    /// reaches `duration`.
    pub open spec fn spec_tick(self, duration: u32) -> Effect {
        if !self.active {
            self
        } else if self.ticks + 1 >= duration {
            Effect { active: false, ticks: 0 }
        } else {
            Effect { active: true, ticks: (self.ticks + 1) as u32 }
        }
    }

    /// The effect after `n` ticks.
    pub open spec fn spec_ticks(self, duration: u32, n: nat) -> Effect
        decreases n,
    {
        if n == 0 {
            self
        } else {
            self.spec_ticks(duration, (n - 1) as nat).spec_tick(duration)
        }
    }

    /// An effect that is off.
    pub fn new() -> (effect: Effect)
        ensures
            effect == (Effect { active: false, ticks: 0 }),
    {
        Effect { active: false, ticks: 0 }
    }

    /// Counts one tick of an effect that lasts `duration` ticks.
    pub fn tick(&mut self, duration: u32)
        ensures
            *final(self) == old(self).spec_tick(duration),
    {
        if self.active {
            if duration == 0 || self.ticks >= duration - 1 {
                self.active = false;
                self.ticks = 0;
            } else {
                self.ticks = self.ticks + 1;
            }
        }
    }

    /// An effect that is switched on with no tick counted lasts `duration`
    /// ticks: it is on after every number of ticks below `duration`, and
    /// off, with no tick counted, after `duration` ticks.
    pub proof fn law_lasts(self, duration: u32, n: nat)
        requires
            self.active,
            self.ticks == 0,
            duration > 0,
            n <= duration,
        ensures
            n < duration ==> self.spec_ticks(duration, n) == (Effect {
                active: true,
                ticks: n as u32,
            }),
            n == duration ==> self.spec_ticks(duration, n) == (Effect { active: false, ticks: 0 }),
        decreases n,
    {
        if n > 0 {
            self.law_lasts(duration, (n - 1) as nat);
        }
    }
}

} // verus!

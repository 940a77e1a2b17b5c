//! The pet companion: a stub subsystem with an unlock flag and two mutually
//! exclusive activity toggles. It has no effect on the round economy.
use vstd::prelude::*;

verus! {

/// A companion the player can unlock. At most one of `mining` and
/// `searching` is active at a time, and only while the pet is alive and
/// unlocked.
#[derive(Clone, Copy, PartialEq, Eq, Structural, Debug)]
pub struct Pet {
    pub unlocked: bool,
    pub alive: bool,
    pub mining: bool,
    pub searching: bool,
    /// Milliseconds of simulation time at which the pet last mined.
    pub last_mine_time_ms: u64,
}

impl Pet {
    /// The pet never mines and searches at once, and a dead pet does
    /// neither.
    pub open spec fn wf(self) -> bool {
        &&& !(self.mining && self.searching)
        &&& !self.alive ==> !self.mining && !self.searching
    }

    pub fn new() -> (p: Pet)
        ensures
            p == (Pet {
                unlocked: false,
                alive: true,
                mining: false,
                searching: false,
                last_mine_time_ms: 0,
            }),
            p.wf(),
    {
        Pet { unlocked: false, alive: true, mining: false, searching: false, last_mine_time_ms: 0 }
    }

    pub fn unlock(&mut self)
        requires
            old(self).wf(),
        ensures
            final(self).wf(),
            *final(self) == (Pet { unlocked: true, ..*old(self) }),
    {
        self.unlocked = true;
    }

    /// Flip the mining activity; turning it on stops searching. Ignored
    /// unless the pet is alive and unlocked.
    pub fn toggle_mining(&mut self)
        requires
            old(self).wf(),
        ensures
            final(self).wf(),
            old(self).alive && old(self).unlocked ==> *final(self) == (Pet {
                mining: !old(self).mining,
                searching: false,
                ..*old(self)
            }),
            !(old(self).alive && old(self).unlocked) ==> *final(self) == *old(self),
    {
        if self.alive && self.unlocked {
            self.mining = !self.mining;
            if self.mining {
                self.searching = false;
            }
        }
    }

    /// Flip the searching activity; turning it on stops mining. Ignored
    /// unless the pet is alive and unlocked.
    pub fn toggle_searching(&mut self)
        requires
            old(self).wf(),
        ensures
            final(self).wf(),
            old(self).alive && old(self).unlocked ==> *final(self) == (Pet {
                searching: !old(self).searching,
                mining: false,
                ..*old(self)
            }),
            !(old(self).alive && old(self).unlocked) ==> *final(self) == *old(self),
    {
        if self.alive && self.unlocked {
            self.searching = !self.searching;
            if self.searching {
                self.mining = false;
            }
        }
    }

    /// A hit kills the pet outright and stops whatever it was doing.
    pub fn take_hit(&mut self)
        requires
            old(self).wf(),
        ensures
            final(self).wf(),
            old(self).alive ==> *final(self) == (Pet {
                alive: false,
                mining: false,
                searching: false,
                ..*old(self)
            }),
            !old(self).alive ==> *final(self) == *old(self),
    {
        if self.alive {
            self.alive = false;
            self.mining = false;
            self.searching = false;
        }
    }
}

} // verus!

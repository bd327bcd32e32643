//! When the saved state is written: changes mark it unsaved, and a periodic
//! tick writes it once per batch of changes, for as long as the cover lives.

use vstd::prelude::*;

verus! {

/// Seconds between two ticks of the saver.
pub const SAVE_PERIOD_SECS: u64 = 5;

/// What the saver does on a tick.
#[derive(Clone, Copy, Debug, PartialEq, Eq, Structural)]
pub enum Tick {
    /// Write the state now.
    Save,
    /// Nothing changed since the last write.
    Idle,
    /// The cover is gone: stop ticking.
    Stop,
}

/// Whether a change is waiting to be written.
#[derive(Clone, Copy, Debug, PartialEq, Eq, Structural)]
pub struct SaveFlag {
    pub unsaved: bool,
}

/// The flag after a tick, and what the tick does.
pub open spec fn spec_tick(f: SaveFlag, cover_alive: bool) -> (SaveFlag, Tick) {
    if !cover_alive {
        (f, Tick::Stop)
    } else if f.unsaved {
        (SaveFlag { unsaved: false }, Tick::Save)
    } else {
        (f, Tick::Idle)
    }
}

impl SaveFlag {
    /// Nothing to write yet.
    pub fn new() -> (r: Self)
        ensures
            !r.unsaved,
    {
        SaveFlag { unsaved: false }
    }

    /// Marks the state as changed; the next tick writes it.
    pub fn set_unsaved(&mut self)
        ensures
            final(self).unsaved,
    {
        self.unsaved = true;
    }

    /// A tick of the saver, `cover_alive` telling whether the cover still exists.
    pub fn tick(&mut self, cover_alive: bool) -> (r: Tick)
        ensures
            (*final(self), r) == spec_tick(*old(self), cover_alive),
    {
        if !cover_alive {
            Tick::Stop
        } else if self.unsaved {
            self.unsaved = false;
            Tick::Save
        } else {
            Tick::Idle
        }
    }
}

/// Any number of changes between two ticks is written once: the first tick
/// after a change saves, the next one (with no change in between) is idle.
pub proof fn lemma_one_write_per_batch(f: SaveFlag)
    ensures
        ({
            let marked = SaveFlag { unsaved: true };
            let (f1, t1) = spec_tick(marked, true);
            let (f2, t2) = spec_tick(f1, true);
            &&& t1 == Tick::Save
            &&& t2 == Tick::Idle
            &&& !f2.unsaved
        }),
{
}

} // verus!

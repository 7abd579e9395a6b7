//! The toggle controller: the shared desired level, flipped by the timer's
//! interrupt handler and read by the foreground loop, which drives the pin.
use vstd::prelude::*;
use core::sync::atomic::{AtomicBool, Ordering};
use crate::level::{Level, INITIAL_LEVEL, level_after, lemma_level_after_parity};
use crate::pin::{PinWrite, write_for, write_for_spec};

verus! {

/// The level the output should present, shared between the interrupt
/// context, its only writer, and the foreground context, its only reader.
///
/// The level lives in one atomic bit, so every read sees a whole level, high
/// or low, never a partly written one. Loads and stores alone are used: the
/// single writer needs no compare-and-swap, which some cores lack.
pub struct DesiredLevel {
    /// The stored bit: `true` is high.
    pub flag: AtomicBool,
}

/// What one run of the tick handler did.
#[derive(Clone, Copy, Debug, PartialEq, Eq, Structural)]
pub struct Toggle {
    /// The level read at the start of the handler.
    pub observed: Level,
    /// The level written back.
    pub stored: Level,
}

/// What one iteration of the foreground loop did.
#[derive(Clone, Copy, Debug, PartialEq, Eq, Structural)]
pub struct Drive {
    /// The level read.
    pub observed: Level,
    /// The write issued for it.
    pub write: PinWrite,
}

impl DesiredLevel {
    /// Returns a shared level that starts at `initial`.
    pub fn new(initial: Level) -> (r: DesiredLevel) {
        DesiredLevel { flag: AtomicBool::new(initial.is_high()) }
    }

    /// Returns a shared level at the initial level, high.
    pub fn initial() -> (r: DesiredLevel) {
        DesiredLevel::new(INITIAL_LEVEL)
    }

    /// Reads the level with one atomic load.
    pub fn load(&self) -> (r: Level) {
        Level::from_bool(self.flag.load(Ordering::Relaxed))
    }

    /// Writes `level` with one atomic store.
    pub fn store(&self, level: Level) {
        self.flag.store(level.is_high(), Ordering::Relaxed);
    }

    /// The work of the tick handler: reads the level and writes back its
    /// opposite. Sound without masking interrupts because this is the only
    /// writer and the handler does not preempt itself.
    pub fn on_tick(&self) -> (r: Toggle)
        ensures
            r.stored == r.observed.toggle(),
    {
        let observed = self.load();
        let stored = observed.toggled();
        self.store(stored);
        Toggle { observed, stored }
    }

    /// One iteration of the foreground loop: reads the level and returns
    /// the write to issue, every time, whether or not the level changed.
    pub fn drive(&self) -> (r: Drive)
        ensures
            r.write == write_for_spec(r.observed),
            r.write.target() == r.observed,
    {
        let observed = self.load();
        Drive { observed, write: write_for(observed) }
    }
}

/// The toggle controller seen from one context at a time: the desired level
/// together with the number of ticks that have completed.
///
/// This is a model: the laws about ticks are proved of it, through its ghost
/// tick count, and not of the atomic `DesiredLevel`, whose contracts cannot
/// speak of the value it holds.
pub struct ToggleController {
    level: Level,
    ticks: Ghost<nat>,
}

impl ToggleController {
    /// The level is the initial one, inverted once per completed tick.
    #[verifier::type_invariant]
    spec fn inv(self) -> bool {
        self.level == level_after(INITIAL_LEVEL, self.ticks@)
    }

    /// The desired level.
    pub closed spec fn current(self) -> Level {
        self.level
    }

    /// The number of completed ticks.
    pub closed spec fn ticks(self) -> nat {
        self.ticks@
    }

    /// Returns a controller before any tick, at the initial level.
    pub fn new() -> (r: ToggleController)
        ensures
            r.ticks() == 0,
            r.current() == INITIAL_LEVEL,
    {
        ToggleController { level: INITIAL_LEVEL, ticks: Ghost(0) }
    }

    /// Completes one tick: the desired level is inverted.
    pub fn on_tick(&mut self)
        ensures
            final(self).ticks() == old(self).ticks() + 1,
            final(self).current() == old(self).current().toggle(),
    {
        proof {
            use_type_invariant(&*self);
        }
        let next = self.level.toggled();
        *self = ToggleController { level: next, ticks: Ghost(self.ticks@ + 1) };
    }

    /// Returns the desired level: the initial one after an even number of
    /// ticks, the opposite one after an odd number.
    pub fn level(&self) -> (r: Level)
        ensures
            r == self.current(),
            r == level_after(INITIAL_LEVEL, self.ticks()),
            r == Level::High <==> self.ticks() % 2 == 0,
            r == Level::Low <==> self.ticks() % 2 == 1,
    {
        proof {
            use_type_invariant(self);
            lemma_level_after_parity(INITIAL_LEVEL, self.ticks());
        }
        self.level
    }

    /// Returns the write the foreground loop issues for the desired level.
    pub fn drive(&self) -> (r: PinWrite)
        ensures
            r == write_for_spec(self.current()),
            r == PinWrite::Assert <==> self.ticks() % 2 == 0,
    {
        proof {
            use_type_invariant(self);
            lemma_level_after_parity(INITIAL_LEVEL, self.ticks());
        }
        write_for(self.level)
    }
}

} // verus!

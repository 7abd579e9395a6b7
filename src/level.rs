//! The two logic levels of the output and the effect of timer ticks on them.
use vstd::prelude::*;

verus! {

/// A logic level of the output pin.
#[derive(Clone, Copy, Debug, PartialEq, Eq, Structural)]
pub enum Level {
    Low,
    High,
}

/// The level the output holds before the first tick.
pub const INITIAL_LEVEL: Level = Level::High;

impl Level {
    /// The opposite level.
    pub open spec fn toggle(self) -> Level {
        match self {
            Level::Low => Level::High,
            Level::High => Level::Low,
        }
    }

    /// The level that a stored bit stands for: `true` is high.
    pub open spec fn from_bit(b: bool) -> Level {
        if b {
            Level::High
        } else {
            Level::Low
        }
    }

    /// The bit that stores this level.
    pub open spec fn bit(self) -> bool {
        self == Level::High
    }

    /// Returns the opposite level.
    pub fn toggled(self) -> (r: Level)
        ensures
            r == self.toggle(),
    {
        match self {
            Level::Low => Level::High,
            Level::High => Level::Low,
        }
    }

    /// Whether this is the high level.
    pub fn is_high(self) -> (r: bool)
        ensures
            r == self.bit(),
    {
        match self {
            Level::Low => false,
            Level::High => true,
        }
    }

    /// The level stored as the bit `b`.
    pub fn from_bool(b: bool) -> (r: Level)
        ensures
            r == Level::from_bit(b),
            r.bit() == b,
    {
        if b {
            Level::High
        } else {
            Level::Low
        }
    }
}

/// The level reached from `start` after `ticks` completed timer ticks, each
/// of which inverts the level.
pub open spec fn level_after(start: Level, ticks: nat) -> Level
    decreases ticks,
{
    if ticks == 0 {
        start
    } else {
        level_after(start, (ticks - 1) as nat).toggle()
    }
}

/// Toggling twice gives back the level one started from.
pub proof fn lemma_toggle_involutive(l: Level)
    ensures
        l.toggle().toggle() == l,
        l.toggle() != l,
{
}

/// After any number of ticks the level is the starting one when that number
/// is even, and the opposite one when it is odd.
pub proof fn lemma_level_after_parity(start: Level, ticks: nat)
    ensures
        level_after(start, ticks) == (if ticks % 2 == 0 {
            start
        } else {
            start.toggle()
        }),
    decreases ticks,
{
    if ticks > 0 {
        lemma_level_after_parity(start, (ticks - 1) as nat);
    }
}

/// Starting from the initial level, the level after `ticks` ticks is high
/// exactly when `ticks` is even.
pub proof fn lemma_initial_level_parity(ticks: nat)
    ensures
        level_after(INITIAL_LEVEL, ticks) == Level::High <==> ticks % 2 == 0,
        level_after(INITIAL_LEVEL, ticks) == Level::Low <==> ticks % 2 == 1,
{
    lemma_level_after_parity(INITIAL_LEVEL, ticks);
}

} // verus!

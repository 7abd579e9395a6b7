//! The output pin: which write the foreground loop issues for a level, and
//! what a sequence of writes does to the pin.
use vstd::prelude::*;
use crate::level::Level;

verus! {

/// Number of pins that the single-cycle GPIO set and clear registers reach.
pub const GPIO_PIN_COUNT: u32 = 30;

/// The one write the foreground loop issues on each of its iterations.
#[derive(Clone, Copy, Debug, PartialEq, Eq, Structural)]
pub enum PinWrite {
    /// Drive the pin high.
    Assert,
    /// Drive the pin low.
    Deassert,
}

/// The write that makes the pin present `level`.
pub open spec fn write_for_spec(level: Level) -> PinWrite {
    match level {
        Level::High => PinWrite::Assert,
        Level::Low => PinWrite::Deassert,
    }
}

impl PinWrite {
    /// The level the pin presents once this write has been issued.
    pub open spec fn target(self) -> Level {
        match self {
            PinWrite::Assert => Level::High,
            PinWrite::Deassert => Level::Low,
        }
    }

    /// Returns the level the pin presents once this write has been issued.
    pub fn resulting_level(self) -> (r: Level)
        ensures
            r == self.target(),
    {
        match self {
            PinWrite::Assert => Level::High,
            PinWrite::Deassert => Level::Low,
        }
    }
}

/// Returns the write that makes the pin present `level`: high asserts the
/// pin, low deasserts it.
pub fn write_for(level: Level) -> (r: PinWrite)
    ensures
        r == write_for_spec(level),
        r.target() == level,
{
    match level {
        Level::High => PinWrite::Assert,
        Level::Low => PinWrite::Deassert,
    }
}

/// The level a pin presents after the writes `ws`, issued in order, starting
/// from `pin`.
pub open spec fn pin_after(pin: Level, ws: Seq<PinWrite>) -> Level {
    if ws.len() == 0 {
        pin
    } else {
        ws.last().target()
    }
}

/// The number of observable changes of the pin while the writes `ws` are
/// issued in order, starting from `pin`.
pub open spec fn transitions(pin: Level, ws: Seq<PinWrite>) -> nat
    decreases ws.len(),
{
    if ws.len() == 0 {
        0
    } else {
        let before = pin_after(pin, ws.drop_last());
        transitions(pin, ws.drop_last()) + (if ws.last().target() != before {
            1nat
        } else {
            0nat
        })
    }
}

/// A single write changes the pin once when it asks for the other level, and
/// not at all otherwise.
pub proof fn lemma_single_write(pin: Level, w: PinWrite)
    ensures
        pin_after(pin, seq![w]) == w.target(),
        transitions(pin, seq![w]) == (if w.target() != pin {
            1nat
        } else {
            0nat
        }),
{
    let ws = seq![w];
    assert(ws.drop_last() =~= Seq::<PinWrite>::empty());
    assert(transitions(pin, ws.drop_last()) == 0);
}

/// Returns whether issuing `w` on a pin at level `pin` changes what the pin
/// presents.
pub fn changes_pin(pin: Level, w: PinWrite) -> (r: bool)
    ensures
        r == (transitions(pin, seq![w]) == 1),
        r == (w.target() != pin),
{
    proof {
        lemma_single_write(pin, w);
    }
    w.resulting_level() != pin
}

/// Issuing the same write any positive number of times in a row changes the
/// pin at most once: exactly as often as issuing it once, and to the same
/// level.
pub proof fn lemma_repeated_write_idempotent(pin: Level, w: PinWrite, count: nat)
    requires
        count >= 1,
    ensures
        pin_after(pin, Seq::new(count, |i: int| w)) == pin_after(pin, seq![w]),
        transitions(pin, Seq::new(count, |i: int| w)) == transitions(pin, seq![w]),
        transitions(pin, seq![w]) <= 1,
    decreases count,
{
    let ws = Seq::new(count, |i: int| w);
    lemma_single_write(pin, w);
    if count > 1 {
        lemma_repeated_write_idempotent(pin, w, (count - 1) as nat);
        assert(ws.drop_last() =~= Seq::new((count - 1) as nat, |i: int| w));
    } else {
        assert(ws =~= seq![w]);
    }
}

/// Returns the bit mask that selects GPIO `pin` in the set and clear
/// registers.
pub fn pin_mask(pin: u32) -> (r: u32)
    requires
        pin < GPIO_PIN_COUNT,
    ensures
        r == 1u32 << pin,
        r != 0,
{
    assert(pin < 30 ==> (1u32 << pin) != 0) by (bit_vector);
    1u32 << pin
}

} // verus!

//! The periodic timer that produces the ticks: its configuration and the
//! sequence that arms it.
use vstd::prelude::*;
use cortex_m::peripheral::syst::SystClkSource;
use cortex_m::peripheral::SYST;

verus! {

/// The largest reload value the 24-bit SysTick counter takes.
pub const MAX_RELOAD: u32 = 0x00ff_ffff;

/// The reload value the firmware arms the timer with, counted on the core
/// clock.
pub const TICK_RELOAD: u32 = 1_500_000;

/// The SysTick peripheral of the Cortex-M core, owned by whoever took it.
#[verifier::external_type_specification]
#[verifier::external_body]
pub struct ExSyst(SYST);

/// The clock feeds the SysTick counter can count.
#[verifier::external_type_specification]
pub struct ExSystClkSource(SystClkSource);

/// The value in the SysTick reload register (RVR).
pub uninterp spec fn syst_reload(s: SYST) -> u32;

/// The clock that the CLKSOURCE bit of the SysTick control register (CSR)
/// selects.
pub uninterp spec fn syst_clock(s: SYST) -> SystClkSource;

/// Whether the ENABLE bit of the SysTick control register is set.
pub uninterp spec fn syst_counting(s: SYST) -> bool;

/// Whether the TICKINT bit of the SysTick control register is set.
pub uninterp spec fn syst_interrupting(s: SYST) -> bool;

/// Relies on `SYST::set_clock_source`: sets or clears the CLKSOURCE bit of
/// the control register, in a read-modify-write that keeps its other bits,
/// and leaves the reload register alone.
pub assume_specification[ SYST::set_clock_source ](syst: &mut SYST, clk_source: SystClkSource)
    ensures
        syst_clock(*final(syst)) == clk_source,
        syst_reload(*final(syst)) == syst_reload(*old(syst)),
        syst_counting(*final(syst)) == syst_counting(*old(syst)),
        syst_interrupting(*final(syst)) == syst_interrupting(*old(syst)),
;

/// Relies on `SYST::set_reload`: writes the reload register alone, with a
/// value that its documentation says lies between 1 and 0x00ffffff.
pub assume_specification[ SYST::set_reload ](syst: &mut SYST, value: u32)
    requires
        1 <= value <= MAX_RELOAD,
    ensures
        syst_reload(*final(syst)) == value,
        syst_clock(*final(syst)) == syst_clock(*old(syst)),
        syst_counting(*final(syst)) == syst_counting(*old(syst)),
        syst_interrupting(*final(syst)) == syst_interrupting(*old(syst)),
;

/// Relies on `SYST::clear_current`: writes zero to the current value
/// register alone, leaving the reload and control registers as they were.
pub assume_specification[ SYST::clear_current ](syst: &mut SYST)
    ensures
        syst_reload(*final(syst)) == syst_reload(*old(syst)),
        syst_clock(*final(syst)) == syst_clock(*old(syst)),
        syst_counting(*final(syst)) == syst_counting(*old(syst)),
        syst_interrupting(*final(syst)) == syst_interrupting(*old(syst)),
;

/// Relies on `SYST::enable_counter`: sets the ENABLE bit of the control
/// register, in a read-modify-write that keeps its other bits.
pub assume_specification[ SYST::enable_counter ](syst: &mut SYST)
    ensures
        syst_counting(*final(syst)),
        syst_reload(*final(syst)) == syst_reload(*old(syst)),
        syst_clock(*final(syst)) == syst_clock(*old(syst)),
        syst_interrupting(*final(syst)) == syst_interrupting(*old(syst)),
;

/// Relies on `SYST::enable_interrupt`: sets the TICKINT bit of the control
/// register, in a read-modify-write that keeps its other bits, so that each
/// expiry raises the SysTick exception.
pub assume_specification[ SYST::enable_interrupt ](syst: &mut SYST)
    ensures
        syst_interrupting(*final(syst)),
        syst_reload(*final(syst)) == syst_reload(*old(syst)),
        syst_clock(*final(syst)) == syst_clock(*old(syst)),
        syst_counting(*final(syst)) == syst_counting(*old(syst)),
;

/// The clock a timer counts.
#[derive(Clone, Copy, Debug, PartialEq, Eq, Structural)]
pub enum ClockSource {
    /// The processor's own clock.
    Core,
    /// The external reference clock.
    External,
}

/// The peripheral's own selector for `source`.
pub open spec fn syst_source(source: ClockSource) -> SystClkSource {
    match source {
        ClockSource::Core => SystClkSource::Core,
        ClockSource::External => SystClkSource::External,
    }
}

/// Returns the peripheral's own selector for `source`.
pub fn to_syst_source(source: ClockSource) -> (r: SystClkSource)
    ensures
        r == syst_source(source),
{
    match source {
        ClockSource::Core => SystClkSource::Core,
        ClockSource::External => SystClkSource::External,
    }
}

/// How the periodic timer is set up: the clock it counts and how many of
/// that clock's cycles make one period.
#[derive(Clone, Copy, Debug, PartialEq, Eq, Structural)]
pub struct TimerConfig {
    pub source: ClockSource,
    pub reload: u32,
}

impl TimerConfig {
    /// A reload value the counter can take: positive and within 24 bits.
    pub open spec fn wf(self) -> bool {
        1 <= self.reload <= MAX_RELOAD
    }

    /// Returns the configuration with `source` and `reload`, or `None` when
    /// `reload` is zero or does not fit the 24-bit counter.
    pub fn new(source: ClockSource, reload: u32) -> (r: Option<TimerConfig>)
        ensures
            r is Some <==> 1 <= reload <= MAX_RELOAD,
            r is Some ==> r->Some_0 == (TimerConfig { source, reload }),
            r is Some ==> r->Some_0.wf(),
    {
        if reload >= 1 && reload <= MAX_RELOAD {
            Some(TimerConfig { source, reload })
        } else {
            None
        }
    }

    /// The configuration the firmware uses: the core clock and
    /// `TICK_RELOAD` cycles per period.
    pub fn firmware() -> (r: TimerConfig)
        ensures
            r == (TimerConfig { source: ClockSource::Core, reload: TICK_RELOAD }),
            r.wf(),
    {
        TimerConfig { source: ClockSource::Core, reload: TICK_RELOAD }
    }

    /// Arms `syst` as a free-running periodic timer: selects the clock,
    /// programs the reload value, clears the running count, starts the
    /// counter and enables the interrupt on expiry, in that order.
    pub fn arm(&self, syst: &mut SYST)
        requires
            self.wf(),
        ensures
            syst_reload(*final(syst)) == self.reload,
            syst_clock(*final(syst)) == syst_source(self.source),
            syst_counting(*final(syst)),
            syst_interrupting(*final(syst)),
    {
        syst.set_clock_source(to_syst_source(self.source));
        syst.set_reload(self.reload);
        syst.clear_current();
        syst.enable_counter();
        syst.enable_interrupt();
    }
}

} // verus!

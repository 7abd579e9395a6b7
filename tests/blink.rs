use core::sync::atomic::Ordering;
use systick_blink::controller::{DesiredLevel, ToggleController};
use systick_blink::level::{Level, INITIAL_LEVEL};
use systick_blink::pin::{changes_pin, pin_mask, write_for, PinWrite};
use systick_blink::timer::{to_syst_source, ClockSource, TimerConfig, MAX_RELOAD, TICK_RELOAD};
use cortex_m::peripheral::syst::SystClkSource;

fn after_ticks(n: u32) -> ToggleController {
    let mut c = ToggleController::new();
    for _ in 0..n {
        c.on_tick();
    }
    c
}

#[test]
fn level_after_n_ticks_follows_parity() {
    for n in 0..10u32 {
        let expected = if n % 2 == 0 { Level::High } else { Level::Low };
        assert_eq!(after_ticks(n).level(), expected);
    }
}

#[test]
fn three_ticks_from_high_give_low() {
    assert_eq!(after_ticks(3).level(), Level::Low);
    let shared = DesiredLevel::initial();
    shared.on_tick();
    shared.on_tick();
    shared.on_tick();
    assert_eq!(shared.load(), Level::Low);
}

#[test]
fn zero_ticks_keep_initial_level() {
    assert_eq!(INITIAL_LEVEL, Level::High);
    assert_eq!(after_ticks(0).level(), Level::High);
    assert_eq!(DesiredLevel::initial().load(), Level::High);
}

#[test]
fn half_second_period_scenario() {
    let shared = DesiredLevel::initial();
    // t = 0: the pin is asserted.
    assert_eq!(shared.drive().write, PinWrite::Assert);
    // t = 500 ms: first tick.
    let t = shared.on_tick();
    assert_eq!(t.observed, Level::High);
    assert_eq!(t.stored, Level::Low);
    assert_eq!(shared.drive().write, PinWrite::Deassert);
    // t = 1000 ms: second tick.
    shared.on_tick();
    assert_eq!(shared.drive().write, PinWrite::Assert);
}

#[test]
fn no_tick_keeps_pin_asserted() {
    let shared = DesiredLevel::initial();
    for _ in 0..1000 {
        let d = shared.drive();
        assert_eq!(d.observed, Level::High);
        assert_eq!(d.write, PinWrite::Assert);
    }
    let c = ToggleController::new();
    assert_eq!(c.drive(), PinWrite::Assert);
}

#[test]
fn repeated_write_changes_pin_once() {
    let mut pin = Level::Low;
    let mut changes = 0;
    for _ in 0..5 {
        let w = write_for(Level::High);
        if changes_pin(pin, w) {
            changes += 1;
        }
        pin = w.resulting_level();
    }
    assert_eq!(changes, 1);
    assert_eq!(pin, Level::High);
    assert!(!changes_pin(Level::High, PinWrite::Assert));
    assert!(changes_pin(Level::High, PinWrite::Deassert));
    assert!(!changes_pin(Level::Low, PinWrite::Deassert));
}

#[test]
fn reads_see_only_whole_levels() {
    let shared = DesiredLevel::initial();
    for _ in 0..7 {
        let l = shared.load();
        assert!(l == Level::High || l == Level::Low);
        assert_eq!(shared.flag.load(Ordering::Relaxed), l == Level::High);
        shared.on_tick();
    }
}

#[test]
fn store_and_load_round_trip() {
    let shared = DesiredLevel::new(Level::Low);
    assert_eq!(shared.load(), Level::Low);
    shared.store(Level::High);
    assert_eq!(shared.load(), Level::High);
    assert_eq!(shared.on_tick().stored, Level::Low);
}

#[test]
fn level_conversions() {
    assert_eq!(Level::High.toggled(), Level::Low);
    assert_eq!(Level::Low.toggled(), Level::High);
    assert!(Level::High.is_high());
    assert!(!Level::Low.is_high());
    assert_eq!(Level::from_bool(true), Level::High);
    assert_eq!(Level::from_bool(false), Level::Low);
}

#[test]
fn write_for_each_level() {
    assert_eq!(write_for(Level::High), PinWrite::Assert);
    assert_eq!(write_for(Level::Low), PinWrite::Deassert);
    assert_eq!(PinWrite::Assert.resulting_level(), Level::High);
    assert_eq!(PinWrite::Deassert.resulting_level(), Level::Low);
}

#[test]
fn pin_masks() {
    assert_eq!(pin_mask(0), 1);
    assert_eq!(pin_mask(22), 0x0040_0000);
    assert_eq!(pin_mask(29), 1 << 29);
}

#[test]
fn timer_config_bounds() {
    assert_eq!(TimerConfig::new(ClockSource::Core, 0), None);
    assert_eq!(
        TimerConfig::new(ClockSource::Core, 1),
        Some(TimerConfig { source: ClockSource::Core, reload: 1 })
    );
    assert_eq!(
        TimerConfig::new(ClockSource::External, MAX_RELOAD),
        Some(TimerConfig { source: ClockSource::External, reload: 0x00ff_ffff })
    );
    assert_eq!(TimerConfig::new(ClockSource::Core, MAX_RELOAD + 1), None);
    assert_eq!(TimerConfig::new(ClockSource::Core, u32::MAX), None);
}

#[test]
fn firmware_timer_config() {
    let c = TimerConfig::firmware();
    assert_eq!(c.source, ClockSource::Core);
    assert_eq!(c.reload, 1_500_000);
    assert_eq!(TICK_RELOAD, 1_500_000);
    assert_eq!(TimerConfig::new(ClockSource::Core, TICK_RELOAD), Some(c));
}

#[test]
fn clock_source_selectors() {
    assert_eq!(to_syst_source(ClockSource::Core), SystClkSource::Core);
    assert_eq!(to_syst_source(ClockSource::External), SystClkSource::External);
}

#[test]
fn external_clock_config() {
    let c = TimerConfig::new(ClockSource::External, 500).unwrap();
    assert_eq!(c.reload, 500);
    assert_eq!(to_syst_source(c.source), SystClkSource::External);
}

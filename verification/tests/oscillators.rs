//! Oscillator state machines, fixed frequencies, and the reset state.

use clock_tree::osc32k::{Osc32k, Startup};
use clock_tree::osc8m::Prescaler;
use clock_tree::reset::{por_state, GCLK, PM, SYSCTRL};
use clock_tree::status::Pclksr;
use clock_tree::time::Hertz;
use clock_tree::xosc::{Gain, Xosc};

fn boot() -> (
    clock_tree::reset::Buses,
    clock_tree::reset::Clocks,
    clock_tree::reset::Tokens,
) {
    por_state(SYSCTRL::new(), GCLK::new(), PM::new())
}

fn all_ready() -> Pclksr {
    Pclksr {
        xoscrdy: true,
        xosc32krdy: true,
        osc32krdy: true,
        osc8mrdy: true,
    }
}

fn none_ready() -> Pclksr {
    Pclksr {
        xoscrdy: false,
        xosc32krdy: false,
        osc32krdy: false,
        osc8mrdy: false,
    }
}

#[test]
fn reset_state_frequencies_and_counters() {
    let (_buses, clocks, _tokens) = boot();
    assert_eq!(clocks.osc8m.freq().0, 8_000_000);
    assert_eq!(clocks.osc8m.users(), 1);
    assert_eq!(clocks.gclk0.freq().0, 8_000_000);
    assert_eq!(clocks.gclk0.users(), 1);
    assert_eq!(clocks.osculp_base.users(), 2);
    assert_eq!(clocks.osculp32k.freq().0, 32_768);
    assert_eq!(clocks.osculp32k.users(), 1);
    assert_eq!(clocks.osculp1k.freq().0, 1024);
    assert_eq!(clocks.osculp1k.users(), 0);
    assert_eq!(clocks.gclk2.freq().0, 32_768);
    assert_eq!(clocks.gclk2.users(), 1);
    assert_eq!(clocks.wdt.item.freq().0, 32_768);
    assert_eq!(clocks.wdt.users(), 1);
}

#[test]
fn ultra_low_power_taps_are_fixed_by_hardware() {
    let (_buses, mut clocks, _tokens) = boot();
    // No configuration call can move the tap frequencies: the only
    // configuration on the base oscillator is its calibration, and both
    // taps report the same fixed rate before and after it.
    assert_eq!(clocks.osculp32k.freq().0, 32_768);
    assert_eq!(clocks.osculp1k.freq().0, 1024);
    clocks.osculp_base.set_calibration(0x15);
    assert_eq!(clocks.osculp32k.freq().0, 32_768);
    assert_eq!(clocks.osculp1k.freq().0, 1024);
}

#[test]
fn osc32k_enable_disable_and_reenable() {
    let (_buses, _clocks, tokens) = boot();
    let osc = Osc32k::new(tokens.osc32k)
        .start_up(Startup::CYCLE10)
        .run_standby(true)
        .on_demand(false);
    let enabled = osc.enable();
    assert_eq!(enabled.freq().0, 32_768);
    assert!(enabled.freq() == Hertz(32_768));
    // Round trip: disabling with no users hands the configured handle back
    // and it can be enabled again unchanged.
    let osc = enabled.disable();
    let enabled = osc.enable();
    assert_eq!(enabled.freq().0, 32_768);
}

#[test]
fn osc32k_readiness_follows_the_status_word() {
    let (_buses, _clocks, tokens) = boot();
    let osc = Osc32k::new(tokens.osc32k);
    assert!(osc.wait_ready(&none_ready()).is_err());
    assert!(osc.wait_ready(&all_ready()).is_ok());
}

#[test]
fn osc8m_prescaler_divides_the_output() {
    let (_buses, clocks, tokens) = boot();
    // The main generator holds the only count on the 8 MHz oscillator, so
    // it must first be swapped to another running source; only then is the
    // oscillator free to be reconfigured.
    let x32k = clock_tree::xosc32k::Xosc32k::from_crystal(tokens.xosc32k).enable();
    let (gclk0, osc8m, x32k) = clocks.gclk0.swap(clocks.osc8m, x32k);
    assert_eq!(gclk0.freq().0, 32_768);
    assert_eq!(osc8m.users(), 0);
    assert_eq!(x32k.users(), 1);
    let osc = osc8m.disable();
    assert_eq!(osc.freq().0, 8_000_000);
    let osc = osc.prescaler(Prescaler::Prescaler2);
    assert_eq!(osc.freq().0, 4_000_000);
    let osc = osc.prescaler(Prescaler::Prescaler4);
    assert_eq!(osc.freq().0, 2_000_000);
    let osc = osc.prescaler(Prescaler::Prescaler8);
    let enabled = osc.enable();
    assert_eq!(enabled.freq().0, 1_000_000);
}

#[test]
fn xosc_reports_the_board_frequency() {
    let (_buses, _clocks, tokens) = boot();
    let xosc = Xosc::from_crystal(tokens.xosc, Hertz(16_000_000))
        .set_gain(Gain::SixteenMHz)
        .set_amplitude_loop_control(false)
        .set_run_standby(true);
    let enabled = xosc.enable();
    assert_eq!(enabled.freq().0, 16_000_000);
    assert!(enabled.wait_ready(&none_ready()).is_err());
    assert!(enabled.wait_ready(&all_ready()).is_ok());
    let xosc = enabled.disable();
    assert_eq!(xosc.freq().0, 16_000_000);
}

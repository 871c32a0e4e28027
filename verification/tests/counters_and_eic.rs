//! Usage counters across the clock chain, and the interrupt controller's
//! debounce setup.

use clock_tree::eic::{init_with_gclk, init_with_ulp32k, EicBlock, OptionallyConfigurableEIC};
use clock_tree::gclk::Gclk;
use clock_tree::pclk::DynPclkId;
use clock_tree::pclk::Pclk;
use clock_tree::reset::{por_state, GCLK, PM, SYSCTRL};
use clock_tree::time::Hertz;
use clock_tree::xosc::Xosc;

fn boot() -> (
    clock_tree::reset::Buses,
    clock_tree::reset::Clocks,
    clock_tree::reset::Tokens,
) {
    por_state(SYSCTRL::new(), GCLK::new(), PM::new())
}

#[test]
fn counters_rise_and_fall_along_the_chain() {
    let (_buses, _clocks, tokens) = boot();
    let xosc = Xosc::from_clock(tokens.xosc, Hertz(12_000_000)).enable();
    assert_eq!(xosc.users(), 0);

    // The generator takes one count on the oscillator.
    let (gclk1, xosc) = Gclk::new(tokens.gclks.gclk1, xosc);
    assert_eq!(xosc.users(), 1);
    let gclk1 = gclk1.div(4).enable();
    assert_eq!(gclk1.freq().0, 3_000_000);
    assert_eq!(gclk1.users(), 0);

    // The channel clock takes one count on the generator and records the
    // generator's frequency.
    let (pclk, gclk1) = Pclk::enable(tokens.pclks.sercom0, gclk1);
    assert_eq!(gclk1.users(), 1);
    assert_eq!(pclk.freq().0, 3_000_000);

    // Release everything in reverse order; every counter returns to zero.
    let (_pclk_token, gclk1) = pclk.disable(gclk1);
    assert_eq!(gclk1.users(), 0);
    let gclk1 = gclk1.disable();
    let (_gclk_token, xosc) = gclk1.free(xosc);
    assert_eq!(xosc.users(), 0);
    let _xosc = xosc.disable();
}

#[test]
fn two_channels_hold_two_counts() {
    let (_buses, _clocks, tokens) = boot();
    let xosc = Xosc::from_clock(tokens.xosc, Hertz(1_000_000)).enable();
    let (gclk1, _xosc) = Gclk::new(tokens.gclks.gclk1, xosc);
    let gclk1 = gclk1.enable();
    let (sercom0, gclk1) = Pclk::enable(tokens.pclks.sercom0, gclk1);
    let (sercom1, gclk1) = Pclk::enable(tokens.pclks.sercom1, gclk1);
    assert_eq!(gclk1.users(), 2);
    let (_t0, gclk1) = sercom0.disable(gclk1);
    assert_eq!(gclk1.users(), 1);
    let (_t1, gclk1) = sercom1.disable(gclk1);
    assert_eq!(gclk1.users(), 0);
}

#[test]
fn channel_indices_match_the_register_map() {
    assert_eq!(DynPclkId::Dfll.chan(), 0);
    assert_eq!(DynPclkId::Dpll.chan(), 1);
    assert_eq!(DynPclkId::Wdt.chan(), 3);
    assert_eq!(DynPclkId::Slow.chan(), 19);
    assert_eq!(DynPclkId::Sercom3.chan(), 23);
    // The map has holes: the timer channels resume at 26 and the
    // analog-digital converter at 30.
    assert_eq!(DynPclkId::Tcc0Tcc1.chan(), 26);
    assert_eq!(DynPclkId::Adc.chan(), 30);
    assert_eq!(DynPclkId::I2s1.chan(), 36);
}

#[test]
fn hertz_exposes_its_raw_count() {
    assert_eq!(Hertz(48_000_000).to_hz(), 48_000_000);
    assert!(Hertz(1) == Hertz(1));
    assert!(Hertz(1) != Hertz(2));
}

#[test]
fn debounce_mask_is_one_bit_per_pin() {
    let (_buses, clocks, _tokens) = boot();
    let mut eic = init_with_ulp32k(&clocks.apbs.eic, EicBlock::new());
    eic.button_debounce_pins_ulp32k(&[1, 3, 5]);
    let v = *eic.eic();
    assert_eq!(v.debouncen, 0b101010);
    assert!(v.tickon);
    assert!(v.states0);
    assert!(v.states1);
    assert!(v.cksel_ulp32k);
    assert!(!v.enable);

    let eic = eic.finalize();
    assert!(eic.eic().enable);
    assert_eq!(eic.eic().debouncen, 0b101010);
}

#[test]
fn debounce_mask_with_gclk_source_and_no_pins() {
    let (_buses, clocks, _tokens) = boot();
    let mut eic = init_with_gclk(&clocks.apbs.eic, EicBlock::new());
    eic.button_debounce_pins_gclk(&[]);
    let v = *eic.eic();
    assert_eq!(v.debouncen, 0);
    assert!(!v.tickon);
    assert!(!v.cksel_ulp32k);
}

#[test]
fn debounce_mask_reaches_the_edge_pins() {
    let (_buses, clocks, _tokens) = boot();
    let mut eic = init_with_gclk(&clocks.apbs.eic, EicBlock::new());
    eic.button_debounce_pins_gclk(&[0, 15, 31]);
    assert_eq!(eic.eic().debouncen, 1 | (1 << 15) | (1 << 31));
}

//! The phase-locked loop: window validation and output frequency.

use clock_tree::dpll::Dpll;
use clock_tree::gclk::Gclk;
use clock_tree::pclk::Pclk;
use clock_tree::reset::{por_state, GCLK, PM, SYSCTRL};
use clock_tree::time::Hertz;
use clock_tree::xosc::Xosc;
use clock_tree::xosc32k::Xosc32k;

fn boot() -> (
    clock_tree::reset::Buses,
    clock_tree::reset::Clocks,
    clock_tree::reset::Tokens,
) {
    por_state(SYSCTRL::new(), GCLK::new(), PM::new())
}

#[test]
fn dpll_96mhz_from_2mhz_pclk_passes() {
    let (_buses, _clocks, tokens) = boot();
    let xosc = Xosc::from_clock(tokens.xosc, Hertz(2_000_000)).enable();
    let (gclk1, _xosc) = Gclk::new(tokens.gclks.gclk1, xosc);
    let gclk1 = gclk1.enable();
    let (pclk, _gclk1) = Pclk::enable(tokens.pclks.dpll, gclk1);
    let dpll = Dpll::from_pclk(tokens.dpll, pclk).set_loop_div(48, 0);
    let enabled = match dpll.enable() {
        Ok(enabled) => enabled,
        Err(_) => panic!("a 96 MHz output is inside the window"),
    };
    assert_eq!(enabled.freq().0, 96_000_000);
    assert_eq!(enabled.users(), 0);
}

#[test]
fn dpll_98mhz_is_rejected_with_config_intact() {
    let (_buses, _clocks, tokens) = boot();
    let xosc = Xosc::from_clock(tokens.xosc, Hertz(2_000_000)).enable();
    let (gclk1, _xosc) = Gclk::new(tokens.gclks.gclk1, xosc);
    let gclk1 = gclk1.enable();
    let (pclk, _gclk1) = Pclk::enable(tokens.pclks.dpll, gclk1);
    let dpll = Dpll::from_pclk(tokens.dpll, pclk).set_loop_div(49, 0);
    let dpll = match dpll.enable() {
        Ok(_) => panic!("98 MHz is above the 96 MHz bound"),
        Err(dpll) => dpll,
    };
    // The returned configuration is the original one: correcting only the
    // multiplier makes it pass.
    let enabled = match dpll.set_loop_div(48, 0).enable() {
        Ok(enabled) => enabled,
        Err(_) => panic!("96 MHz passes"),
    };
    assert_eq!(enabled.freq().0, 96_000_000);
}

#[test]
fn dpll_fractional_part_rounds_down() {
    let (_buses, _clocks, tokens) = boot();
    let xosc = Xosc::from_clock(tokens.xosc, Hertz(2_000_000)).enable();
    let (gclk1, _xosc) = Gclk::new(tokens.gclks.gclk1, xosc);
    let gclk1 = gclk1.enable();
    let (pclk, _gclk1) = Pclk::enable(tokens.pclks.dpll, gclk1);
    // 31/32 of the input would be almost 2 MHz more, but the hardware's
    // integer divider contributes input * (31 / 32) = 0 here.
    let dpll = Dpll::from_pclk(tokens.dpll, pclk).set_loop_div(48, 31);
    let enabled = match dpll.enable() {
        Ok(enabled) => enabled,
        Err(_) => panic!("the truncated output is 96 MHz"),
    };
    assert_eq!(enabled.freq().0, 96_000_000);
}

#[test]
fn dpll_output_below_48mhz_is_rejected() {
    let (_buses, _clocks, tokens) = boot();
    let x32k = Xosc32k::from_crystal(tokens.xosc32k).enable();
    let (dpll, x32k) = Dpll::from_xosc32k(tokens.dpll, x32k);
    assert_eq!(x32k.users(), 1);
    // 32768 * 1000 < 48 MHz.
    assert!(dpll.set_loop_div(1000, 0).enable().is_err());
}

#[test]
fn dpll_from_xosc32k_in_window() {
    let (_buses, _clocks, tokens) = boot();
    let x32k = Xosc32k::from_crystal(tokens.xosc32k).enable();
    let (dpll, x32k) = Dpll::from_xosc32k(tokens.dpll, x32k);
    let enabled = match dpll.set_loop_div(2000, 0).enable() {
        Ok(enabled) => enabled,
        Err(_) => panic!("32768 * 2000 = 65.536 MHz is inside the window"),
    };
    assert_eq!(enabled.freq().0, 65_536_000);
    // Tear the loop down again: the oscillator's counter returns to zero
    // and the oscillator may then be disabled.
    let dpll = enabled.disable();
    let (_token, x32k) = dpll.free(x32k);
    assert_eq!(x32k.users(), 0);
    let _osc = x32k.disable();
}

#[test]
fn dpll_from_xosc_uses_predivider() {
    let (_buses, _clocks, tokens) = boot();
    let xosc = Xosc::from_crystal(tokens.xosc, Hertz(8_000_000)).enable();
    // raw_prediv = 1 stands for a division by 2 * (1 + 1) = 4: the
    // effective input is 2 MHz.
    let (dpll, xosc) = Dpll::from_xosc(tokens.dpll, xosc, 1);
    assert_eq!(xosc.users(), 1);
    let enabled = match dpll.set_loop_div(48, 0).enable() {
        Ok(enabled) => enabled,
        Err(_) => panic!("2 MHz * 48 = 96 MHz"),
    };
    assert_eq!(enabled.freq().0, 96_000_000);
}

#[test]
fn dpll_oversized_predivider_is_rejected() {
    let (_buses, _clocks, tokens) = boot();
    let xosc = Xosc::from_crystal(tokens.xosc, Hertz(8_000_000)).enable();
    // raw_prediv = 2048 stands for a division by 4098, above the 2048 bound.
    let (dpll, _xosc) = Dpll::from_xosc(tokens.dpll, xosc, 2048);
    assert!(dpll.set_loop_div(48, 0).enable().is_err());
}

#[test]
fn dpll_input_above_3200khz_is_rejected() {
    let (_buses, _clocks, tokens) = boot();
    let xosc = Xosc::from_clock(tokens.xosc, Hertz(4_000_000)).enable();
    let (gclk1, _xosc) = Gclk::new(tokens.gclks.gclk1, xosc);
    let gclk1 = gclk1.enable();
    let (pclk, _gclk1) = Pclk::enable(tokens.pclks.dpll, gclk1);
    // 4 MHz input is above the 3.2 MHz input window even though the output
    // of 4 MHz * 20 = 80 MHz would be inside the output window.
    let dpll = Dpll::from_pclk(tokens.dpll, pclk).set_loop_div(20, 0);
    assert!(dpll.enable().is_err());
}

#[test]
fn dpll_input_below_32khz_is_rejected() {
    let (_buses, _clocks, tokens) = boot();
    let xosc = Xosc::from_crystal(tokens.xosc, Hertz(1_000_000)).enable();
    // raw_prediv = 15 stands for a division by 32: the effective input of
    // 31250 Hz is just below the 32 kHz window even though the output of
    // 31250 * 2000 = 62.5 MHz would be inside the output window.
    let (dpll, _xosc) = Dpll::from_xosc(tokens.dpll, xosc, 15);
    assert!(dpll.set_loop_div(2000, 0).enable().is_err());
}

#[test]
fn dpll_status_queries_follow_the_status_word() {
    let (_buses, _clocks, tokens) = boot();
    let x32k = Xosc32k::from_crystal(tokens.xosc32k).enable();
    let (dpll, _x32k) = Dpll::from_xosc32k(tokens.dpll, x32k);
    let enabled = match dpll.set_loop_div(2000, 0).enable() {
        Ok(enabled) => enabled,
        Err(_) => panic!("65.536 MHz is inside the window"),
    };
    let idle = clock_tree::status::DpllStatus {
        lock: false,
        clkrdy: false,
    };
    let ready = clock_tree::status::DpllStatus {
        lock: true,
        clkrdy: true,
    };
    assert!(enabled.wait_until_ready(&idle).is_err());
    assert!(enabled.wait_until_locked(&idle).is_err());
    assert!(enabled.wait_until_ready(&ready).is_ok());
    assert!(enabled.wait_until_locked(&ready).is_ok());
}

//! Bus clock gates: one read-modify-write touches exactly one bit.

use clock_tree::reset::{por_state, GCLK, PM, SYSCTRL};

fn boot() -> (
    clock_tree::reset::Buses,
    clock_tree::reset::Clocks,
    clock_tree::reset::Tokens,
) {
    por_state(SYSCTRL::new(), GCLK::new(), PM::new())
}

#[test]
fn reset_masks_match_power_on_defaults() {
    let (buses, _clocks, _tokens) = boot();
    let v = buses.apb.regs();
    assert_eq!(v.a, 0x7f);
    assert_eq!(v.b, 0x1f);
    assert_eq!(v.c, 0x01);
}

#[test]
fn enabling_usb_sets_only_its_bit() {
    let (mut buses, _clocks, tokens) = boot();
    let before = buses.apb.regs();
    let usb = buses.apb.enable(tokens.apbs.usb);
    let after = buses.apb.regs();
    // Bit 5 of bridge B is now set; no other bit of any register moved.
    assert_eq!(after.b, before.b | (1 << 5));
    assert_eq!(after.b & !(1 << 5), before.b & !(1 << 5));
    assert_eq!(after.a, before.a);
    assert_eq!(after.c, before.c);
    // Disabling clears exactly that bit again.
    let _token = buses.apb.disable(usb);
    let restored = buses.apb.regs();
    assert_eq!(restored.b, before.b);
    assert_eq!(restored.a, before.a);
    assert_eq!(restored.c, before.c);
}

#[test]
fn gate_bits_stay_independent_across_many_patterns() {
    let (mut buses, _clocks, tokens) = boot();
    // Build up several different register patterns and check that each
    // mutation leaves the rest of the word bit-for-bit unchanged.
    let sercom0 = buses.apb.enable(tokens.apbs.sercom0); // C bit 2
    let adc = buses.apb.enable(tokens.apbs.adc); // C bit 16
    let i2s = buses.apb.enable(tokens.apbs.i2s); // C bit 20
    assert_eq!(buses.apb.regs().c, 0x01 | (1 << 2) | (1 << 16) | (1 << 20));

    let before = buses.apb.regs();
    let _sercom0 = buses.apb.disable(sercom0);
    let after = buses.apb.regs();
    assert_eq!(after.c, before.c & !(1 << 2));
    assert_eq!(after.c & !(1 << 2), before.c & !(1 << 2));
    assert_eq!(after.a, before.a);
    assert_eq!(after.b, before.b);

    let before = buses.apb.regs();
    let _adc = buses.apb.disable(adc);
    let _i2s = buses.apb.disable(i2s);
    let after = buses.apb.regs();
    assert_eq!(after.c, before.c & !(1 << 16) & !(1 << 20));
    assert_eq!(after.c, 0x01);
}

#[test]
fn every_c_bridge_token_targets_its_own_bit() {
    let (mut buses, _clocks, tokens) = boot();
    let t = tokens.apbs;
    let cases: Vec<(clock_tree::apb::ApbToken, u32)> = vec![
        (t.ev_sys, 1 << 1),
        (t.sercom1, 1 << 3),
        (t.sercom2, 1 << 4),
        (t.sercom3, 1 << 5),
        (t.tcc0, 1 << 8),
        (t.tcc1, 1 << 9),
        (t.tcc2, 1 << 10),
        (t.tc3, 1 << 11),
        (t.tc4, 1 << 12),
        (t.tc5, 1 << 13),
        (t.ac, 1 << 17),
        (t.dac, 1 << 18),
    ];
    for (token, bit) in cases {
        let before = buses.apb.regs();
        let clk = buses.apb.enable(token);
        let after = buses.apb.regs();
        assert_eq!(after.c, before.c | bit);
        let _token = buses.apb.disable(clk);
        assert_eq!(buses.apb.regs().c, before.c);
    }
}

//! Bit-exact field access to the 32 kHz oscillator control register.

use clock_tree::osc32k_reg::{OSC32K_RESET, OSC32K_SPEC, R, W};

#[test]
fn reset_value_matches_the_datasheet() {
    assert_eq!(OSC32K_SPEC::reset_value(), 0x003f_0080);
    assert_eq!(OSC32K_SPEC::reset_value(), OSC32K_RESET);
    // At reset only ONDEMAND is set among the control bits, and the
    // calibration field holds its mid-scale value.
    let r = R::new(OSC32K_RESET);
    assert!(!r.enable().bit_is_set());
    assert!(!r.en32k().bit_is_set());
    assert!(!r.en1k().bit_is_set());
    assert!(!r.runstdby().bit_is_set());
    assert!(r.ondemand().bit_is_set());
    assert_eq!(r.startup().bits(), 0);
    assert!(!r.wrtlock().bit_is_set());
    assert_eq!(r.calib().bits(), 0x3f);
}

#[test]
fn bit_writes_land_on_their_documented_offsets() {
    let w = W::new(0);
    let w = w.enable().set_bit();
    assert_eq!(w.value(), 1 << 1);
    let w = w.en32k().set_bit();
    assert_eq!(w.value(), (1 << 1) | (1 << 2));
    let w = w.en1k().set_bit();
    let w = w.runstdby().set_bit();
    let w = w.ondemand().set_bit();
    let w = w.wrtlock().set_bit();
    assert_eq!(
        w.value(),
        (1 << 1) | (1 << 2) | (1 << 3) | (1 << 6) | (1 << 7) | (1 << 12)
    );
    let w = w.enable().clear_bit();
    assert_eq!(
        w.value(),
        (1 << 2) | (1 << 3) | (1 << 6) | (1 << 7) | (1 << 12)
    );
}

#[test]
fn field_writes_mask_to_their_width() {
    // STARTUP is three bits wide at offset 8: a seven round-trips, an
    // oversized value is truncated to its low bits.
    let w = W::new(0).startup().bits(0x7);
    assert_eq!(w.value(), 0x7 << 8);
    assert_eq!(R::new(w.value()).startup().bits(), 0x7);
    let w = W::new(0).startup().bits(0xff);
    assert_eq!(R::new(w.value()).startup().bits(), 0x7);

    // CALIB is seven bits wide at offset 16.
    let w = W::new(0).calib().bits(0x55);
    assert_eq!(w.value(), 0x55 << 16);
    assert_eq!(R::new(w.value()).calib().bits(), 0x55);
    let w = W::new(0).calib().bits(0xff);
    assert_eq!(R::new(w.value()).calib().bits(), 0x7f);
}

#[test]
fn field_writes_preserve_the_rest_of_any_word() {
    // Pseudo-random register contents: every write must change nothing
    // outside its own field, whatever was there before.
    let mut word: u32 = 0x1234_5678;
    for step in 0u32..64 {
        word = word.wrapping_mul(1_664_525).wrapping_add(1_013_904_223);
        let startup = (step % 8) as u8;
        let w = W::new(word).startup().bits(startup);
        assert_eq!(w.value() & !(0x07 << 8), word & !(0x07 << 8));
        assert_eq!(R::new(w.value()).startup().bits(), startup);

        let bit = (step % 2) == 0;
        let w = W::new(word).en1k().bit(bit);
        assert_eq!(w.value() & !(1 << 3), word & !(1 << 3));
        assert_eq!(R::new(w.value()).en1k().bit(), bit);

        let calib = (step * 5 % 128) as u8;
        let w = W::new(word).calib().bits(calib);
        assert_eq!(w.value() & !(0x7f << 16), word & !(0x7f << 16));
        assert_eq!(R::new(w.value()).calib().bits(), calib);
    }
}

#[test]
fn field_writes_preserve_the_rest_of_the_word() {
    let word: u32 = 0x00aa_55aa;
    let w = W::new(word).startup().bits(0x3);
    let expect = (word & !(0x07 << 8)) | (0x3 << 8);
    assert_eq!(w.value(), expect);

    let w = W::new(word).ondemand().bit(false);
    assert_eq!(w.value(), word & !(1 << 7));

    let w = W::new(word).calib().bits(0x12);
    assert_eq!(w.value(), (word & !(0x7f << 16)) | (0x12 << 16));
}

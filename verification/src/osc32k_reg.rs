//! Field-level access to the 32 kHz internal-oscillator control register.
//!
//! The register is a 32-bit word with this layout:
//!
//! | bits  | field    | meaning                    |
//! |-------|----------|----------------------------|
//! | 1     | ENABLE   | oscillator enable          |
//! | 2     | EN32K    | 32 kHz output enable       |
//! | 3     | EN1K     | 1 kHz output enable        |
//! | 6     | RUNSTDBY | run in standby             |
//! | 7     | ONDEMAND | on-demand control          |
//! | 8:10  | STARTUP  | oscillator start-up time   |
//! | 12    | WRTLOCK  | write lock                 |
//! | 16:22 | CALIB    | oscillator calibration     |
//!
//! [`R`] reads fields out of a register value and [`W`] builds a new value,
//! one field at a time; every write is proved to place exactly the masked
//! field at its offset and to leave the rest of the word alone.

#![allow(non_camel_case_types)]

use vstd::prelude::*;

verus! {

/// The reset value of the register: calibration mid-scale, on-demand set.
pub const OSC32K_RESET: u32 = 0x003f_0080;

/// Value of the single bit at offset `sh` of `bits`.
pub open spec fn spec_bit_get(bits: u32, sh: u32) -> bool {
    ((bits >> sh) & 0x01) != 0
}

/// `bits` with the single bit at offset `sh` replaced by `v`.
pub open spec fn spec_bit_insert(bits: u32, sh: u32, v: bool) -> u32 {
    (bits & !(0x01u32 << sh)) | (((v as u32) & 0x01) << sh)
}

/// Value of the field of width `mask` at offset `sh` of `bits`.
pub open spec fn spec_field_get(bits: u32, sh: u32, mask: u32) -> u32 {
    (bits >> sh) & mask
}

/// `bits` with the field of width `mask` at offset `sh` replaced by `v`.
pub open spec fn spec_field_insert(bits: u32, sh: u32, mask: u32, v: u8) -> u32 {
    (bits & !(mask << sh)) | (((v as u32) & mask) << sh)
}

/// Writing a bit and reading it back yields the written value.
pub proof fn lemma_bit_roundtrip(bits: u32, sh: u32, v: bool)
    requires
        sh < 32,
    ensures
        spec_bit_get(spec_bit_insert(bits, sh, v), sh) == v,
{
    assert((((((bits & !(0x01u32 << sh)) | (((v as u32) & 0x01) << sh)) >> sh) & 0x01) != 0) == v)
        by (bit_vector)
        requires
            sh < 32,
    ;
}

/// Writing a bit leaves every other bit of the word unchanged.
pub proof fn lemma_bit_insert_other(bits: u32, sh: u32, sh2: u32, v: bool)
    requires
        sh < 32,
        sh2 < 32,
        sh != sh2,
    ensures
        spec_bit_get(spec_bit_insert(bits, sh, v), sh2) == spec_bit_get(bits, sh2),
{
    assert(((((bits & !(0x01u32 << sh)) | (((v as u32) & 0x01) << sh)) >> sh2) & 0x01) == ((bits
        >> sh2) & 0x01)) by (bit_vector)
        requires
            sh < 32,
            sh2 < 32,
            sh != sh2,
    ;
}

/// Writing a field and reading it back yields the written value, masked to
/// the field's width. The mask must fit above the offset, which every field
/// of this register does.
pub proof fn lemma_field_roundtrip(bits: u32, sh: u32, mask: u32, v: u8)
    requires
        sh < 32,
        (mask << sh) >> sh == mask,
    ensures
        spec_field_get(spec_field_insert(bits, sh, mask, v), sh, mask) == (v as u32) & mask,
{
    assert(((((bits & !(mask << sh)) | (((v as u32) & mask) << sh)) >> sh) & mask) == ((v as u32)
        & mask)) by (bit_vector)
        requires
            sh < 32,
            (mask << sh) >> sh == mask,
    ;
}

/// Register reader: decodes fields out of one captured register value.
pub struct R {
    bits: u32,
}

/// Register writer: accumulates field updates into one register value.
pub struct W {
    bits: u32,
}

/// Reader for the ENABLE bit.
pub struct ENABLE_R(bool);

/// Reader for the EN32K bit.
pub struct EN32K_R(bool);

/// Reader for the EN1K bit.
pub struct EN1K_R(bool);

/// Reader for the RUNSTDBY bit.
pub struct RUNSTDBY_R(bool);

/// Reader for the ONDEMAND bit.
pub struct ONDEMAND_R(bool);

/// Reader for the STARTUP field.
pub struct STARTUP_R(u8);

/// Reader for the WRTLOCK bit.
pub struct WRTLOCK_R(bool);

/// Reader for the CALIB field.
pub struct CALIB_R(u8);

/// Writer for the ENABLE bit.
pub struct ENABLE_W {
    w: W,
}

/// Writer for the EN32K bit.
pub struct EN32K_W {
    w: W,
}

/// Writer for the EN1K bit.
pub struct EN1K_W {
    w: W,
}

/// Writer for the RUNSTDBY bit.
pub struct RUNSTDBY_W {
    w: W,
}

/// Writer for the ONDEMAND bit.
pub struct ONDEMAND_W {
    w: W,
}

/// Writer for the STARTUP field.
pub struct STARTUP_W {
    w: W,
}

/// Writer for the WRTLOCK bit.
pub struct WRTLOCK_W {
    w: W,
}

/// Writer for the CALIB field.
pub struct CALIB_W {
    w: W,
}

/// Marker for the register itself; carries its documented reset value.
pub struct OSC32K_SPEC;

impl OSC32K_SPEC {
    /// The value the register holds after power-on reset.
    pub fn reset_value() -> (v: u32)
        ensures
            v == OSC32K_RESET,
    {
        0x003f_0080
    }
}

impl R {
    /// The captured register value.
    pub closed spec fn spec_bits(&self) -> u32 {
        self.bits
    }

    /// Capture a raw register value for field decoding.
    pub fn new(bits: u32) -> (r: R)
        ensures
            r.spec_bits() == bits,
    {
        R { bits }
    }

    /// The whole register word.
    pub fn bits(&self) -> (bits: u32)
        ensures
            bits == self.spec_bits(),
    {
        self.bits
    }

    /// Bit 1 - oscillator enable.
    pub fn enable(&self) -> (f: ENABLE_R)
        ensures
            f.spec_bit() == spec_bit_get(self.spec_bits(), 1),
    {
        ENABLE_R::new(((self.bits >> 1) & 0x01) != 0)
    }

    /// Bit 2 - 32 kHz output enable.
    pub fn en32k(&self) -> (f: EN32K_R)
        ensures
            f.spec_bit() == spec_bit_get(self.spec_bits(), 2),
    {
        EN32K_R::new(((self.bits >> 2) & 0x01) != 0)
    }

    /// Bit 3 - 1 kHz output enable.
    pub fn en1k(&self) -> (f: EN1K_R)
        ensures
            f.spec_bit() == spec_bit_get(self.spec_bits(), 3),
    {
        EN1K_R::new(((self.bits >> 3) & 0x01) != 0)
    }

    /// Bit 6 - run in standby.
    pub fn runstdby(&self) -> (f: RUNSTDBY_R)
        ensures
            f.spec_bit() == spec_bit_get(self.spec_bits(), 6),
    {
        RUNSTDBY_R::new(((self.bits >> 6) & 0x01) != 0)
    }

    /// Bit 7 - on-demand control.
    pub fn ondemand(&self) -> (f: ONDEMAND_R)
        ensures
            f.spec_bit() == spec_bit_get(self.spec_bits(), 7),
    {
        ONDEMAND_R::new(((self.bits >> 7) & 0x01) != 0)
    }

    /// Bits 8:10 - oscillator start-up time.
    pub fn startup(&self) -> (f: STARTUP_R)
        ensures
            f.spec_bits() == spec_field_get(self.spec_bits(), 8, 0x07),
    {
        let b: u32 = self.bits;
        let v: u32 = (b >> 8) & 0x07;
        assert(v <= 0x07) by (bit_vector)
            requires
                v == (b >> 8) & 0x07,
        ;
        STARTUP_R::new(v as u8)
    }

    /// Bit 12 - write lock.
    pub fn wrtlock(&self) -> (f: WRTLOCK_R)
        ensures
            f.spec_bit() == spec_bit_get(self.spec_bits(), 12),
    {
        WRTLOCK_R::new(((self.bits >> 12) & 0x01) != 0)
    }

    /// Bits 16:22 - oscillator calibration.
    pub fn calib(&self) -> (f: CALIB_R)
        ensures
            f.spec_bits() == spec_field_get(self.spec_bits(), 16, 0x7f),
    {
        let b: u32 = self.bits;
        let v: u32 = (b >> 16) & 0x7f;
        assert(v <= 0x7f) by (bit_vector)
            requires
                v == (b >> 16) & 0x7f,
        ;
        CALIB_R::new(v as u8)
    }
}

impl W {
    /// The accumulated register value.
    pub closed spec fn spec_bits(&self) -> u32 {
        self.bits
    }

    /// Start a write from an existing register value.
    pub fn new(bits: u32) -> (w: W)
        ensures
            w.spec_bits() == bits,
    {
        W { bits }
    }

    /// Bit 1 - oscillator enable.
    pub fn enable(self) -> (f: ENABLE_W)
        ensures
            f.spec_inner() == self.spec_bits(),
    {
        ENABLE_W { w: self }
    }

    /// Bit 2 - 32 kHz output enable.
    pub fn en32k(self) -> (f: EN32K_W)
        ensures
            f.spec_inner() == self.spec_bits(),
    {
        EN32K_W { w: self }
    }

    /// Bit 3 - 1 kHz output enable.
    pub fn en1k(self) -> (f: EN1K_W)
        ensures
            f.spec_inner() == self.spec_bits(),
    {
        EN1K_W { w: self }
    }

    /// Bit 6 - run in standby.
    pub fn runstdby(self) -> (f: RUNSTDBY_W)
        ensures
            f.spec_inner() == self.spec_bits(),
    {
        RUNSTDBY_W { w: self }
    }

    /// Bit 7 - on-demand control.
    pub fn ondemand(self) -> (f: ONDEMAND_W)
        ensures
            f.spec_inner() == self.spec_bits(),
    {
        ONDEMAND_W { w: self }
    }

    /// Bits 8:10 - oscillator start-up time.
    pub fn startup(self) -> (f: STARTUP_W)
        ensures
            f.spec_inner() == self.spec_bits(),
    {
        STARTUP_W { w: self }
    }

    /// Bit 12 - write lock.
    pub fn wrtlock(self) -> (f: WRTLOCK_W)
        ensures
            f.spec_inner() == self.spec_bits(),
    {
        WRTLOCK_W { w: self }
    }

    /// Bits 16:22 - oscillator calibration.
    pub fn calib(self) -> (f: CALIB_W)
        ensures
            f.spec_inner() == self.spec_bits(),
    {
        CALIB_W { w: self }
    }

    /// Replace the whole register word.
    pub fn bits(self, bits: u32) -> (w: W)
        ensures
            w.spec_bits() == bits,
    {
        W { bits }
    }

    /// The register word this write would store.
    pub fn value(&self) -> (bits: u32)
        ensures
            bits == self.spec_bits(),
    {
        self.bits
    }
}

impl ENABLE_R {
    /// The decoded bit value.
    pub closed spec fn spec_bit(&self) -> bool {
        self.0
    }

    pub(crate) fn new(bits: bool) -> (f: ENABLE_R)
        ensures
            f.spec_bit() == bits,
    {
        ENABLE_R(bits)
    }

    /// The raw bit value.
    pub fn bit(&self) -> (b: bool)
        ensures
            b == self.spec_bit(),
    {
        self.0
    }

    /// Whether the bit is set.
    pub fn bit_is_set(&self) -> (b: bool)
        ensures
            b == self.spec_bit(),
    {
        self.0
    }

    /// Whether the bit is clear.
    pub fn bit_is_clear(&self) -> (b: bool)
        ensures
            b == !self.spec_bit(),
    {
        !self.0
    }
}

impl EN32K_R {
    /// The decoded bit value.
    pub closed spec fn spec_bit(&self) -> bool {
        self.0
    }

    pub(crate) fn new(bits: bool) -> (f: EN32K_R)
        ensures
            f.spec_bit() == bits,
    {
        EN32K_R(bits)
    }

    /// The raw bit value.
    pub fn bit(&self) -> (b: bool)
        ensures
            b == self.spec_bit(),
    {
        self.0
    }

    /// Whether the bit is set.
    pub fn bit_is_set(&self) -> (b: bool)
        ensures
            b == self.spec_bit(),
    {
        self.0
    }

    /// Whether the bit is clear.
    pub fn bit_is_clear(&self) -> (b: bool)
        ensures
            b == !self.spec_bit(),
    {
        !self.0
    }
}

impl EN1K_R {
    /// The decoded bit value.
    pub closed spec fn spec_bit(&self) -> bool {
        self.0
    }

    pub(crate) fn new(bits: bool) -> (f: EN1K_R)
        ensures
            f.spec_bit() == bits,
    {
        EN1K_R(bits)
    }

    /// The raw bit value.
    pub fn bit(&self) -> (b: bool)
        ensures
            b == self.spec_bit(),
    {
        self.0
    }

    /// Whether the bit is set.
    pub fn bit_is_set(&self) -> (b: bool)
        ensures
            b == self.spec_bit(),
    {
        self.0
    }

    /// Whether the bit is clear.
    pub fn bit_is_clear(&self) -> (b: bool)
        ensures
            b == !self.spec_bit(),
    {
        !self.0
    }
}

impl RUNSTDBY_R {
    /// The decoded bit value.
    pub closed spec fn spec_bit(&self) -> bool {
        self.0
    }

    pub(crate) fn new(bits: bool) -> (f: RUNSTDBY_R)
        ensures
            f.spec_bit() == bits,
    {
        RUNSTDBY_R(bits)
    }

    /// The raw bit value.
    pub fn bit(&self) -> (b: bool)
        ensures
            b == self.spec_bit(),
    {
        self.0
    }

    /// Whether the bit is set.
    pub fn bit_is_set(&self) -> (b: bool)
        ensures
            b == self.spec_bit(),
    {
        self.0
    }

    /// Whether the bit is clear.
    pub fn bit_is_clear(&self) -> (b: bool)
        ensures
            b == !self.spec_bit(),
    {
        !self.0
    }
}

impl ONDEMAND_R {
    /// The decoded bit value.
    pub closed spec fn spec_bit(&self) -> bool {
        self.0
    }

    pub(crate) fn new(bits: bool) -> (f: ONDEMAND_R)
        ensures
            f.spec_bit() == bits,
    {
        ONDEMAND_R(bits)
    }

    /// The raw bit value.
    pub fn bit(&self) -> (b: bool)
        ensures
            b == self.spec_bit(),
    {
        self.0
    }

    /// Whether the bit is set.
    pub fn bit_is_set(&self) -> (b: bool)
        ensures
            b == self.spec_bit(),
    {
        self.0
    }

    /// Whether the bit is clear.
    pub fn bit_is_clear(&self) -> (b: bool)
        ensures
            b == !self.spec_bit(),
    {
        !self.0
    }
}

impl STARTUP_R {
    /// The decoded field value.
    pub closed spec fn spec_bits(&self) -> u8 {
        self.0
    }

    pub(crate) fn new(bits: u8) -> (f: STARTUP_R)
        ensures
            f.spec_bits() == bits,
    {
        STARTUP_R(bits)
    }

    /// The raw field value.
    pub fn bits(&self) -> (b: u8)
        ensures
            b == self.spec_bits(),
    {
        self.0
    }
}

impl WRTLOCK_R {
    /// The decoded bit value.
    pub closed spec fn spec_bit(&self) -> bool {
        self.0
    }

    pub(crate) fn new(bits: bool) -> (f: WRTLOCK_R)
        ensures
            f.spec_bit() == bits,
    {
        WRTLOCK_R(bits)
    }

    /// The raw bit value.
    pub fn bit(&self) -> (b: bool)
        ensures
            b == self.spec_bit(),
    {
        self.0
    }

    /// Whether the bit is set.
    pub fn bit_is_set(&self) -> (b: bool)
        ensures
            b == self.spec_bit(),
    {
        self.0
    }

    /// Whether the bit is clear.
    pub fn bit_is_clear(&self) -> (b: bool)
        ensures
            b == !self.spec_bit(),
    {
        !self.0
    }
}

impl CALIB_R {
    /// The decoded field value.
    pub closed spec fn spec_bits(&self) -> u8 {
        self.0
    }

    pub(crate) fn new(bits: u8) -> (f: CALIB_R)
        ensures
            f.spec_bits() == bits,
    {
        CALIB_R(bits)
    }

    /// The raw field value.
    pub fn bits(&self) -> (b: u8)
        ensures
            b == self.spec_bits(),
    {
        self.0
    }
}

impl ENABLE_W {
    /// The register word before this field write.
    pub closed spec fn spec_inner(&self) -> u32 {
        self.w.bits
    }

    /// Set the field bit.
    pub fn set_bit(self) -> (w: W)
        ensures
            w.spec_bits() == spec_bit_insert(self.spec_inner(), 1, true),
    {
        self.bit(true)
    }

    /// Clear the field bit.
    pub fn clear_bit(self) -> (w: W)
        ensures
            w.spec_bits() == spec_bit_insert(self.spec_inner(), 1, false),
    {
        self.bit(false)
    }

    /// Write a raw bit to the field.
    pub fn bit(self, value: bool) -> (w: W)
        ensures
            w.spec_bits() == spec_bit_insert(self.spec_inner(), 1, value),
    {
        W { bits: (self.w.bits & !(0x01u32 << 1)) | (((value as u32) & 0x01) << 1) }
    }
}

impl EN32K_W {
    /// The register word before this field write.
    pub closed spec fn spec_inner(&self) -> u32 {
        self.w.bits
    }

    /// Set the field bit.
    pub fn set_bit(self) -> (w: W)
        ensures
            w.spec_bits() == spec_bit_insert(self.spec_inner(), 2, true),
    {
        self.bit(true)
    }

    /// Clear the field bit.
    pub fn clear_bit(self) -> (w: W)
        ensures
            w.spec_bits() == spec_bit_insert(self.spec_inner(), 2, false),
    {
        self.bit(false)
    }

    /// Write a raw bit to the field.
    pub fn bit(self, value: bool) -> (w: W)
        ensures
            w.spec_bits() == spec_bit_insert(self.spec_inner(), 2, value),
    {
        W { bits: (self.w.bits & !(0x01u32 << 2)) | (((value as u32) & 0x01) << 2) }
    }
}

impl EN1K_W {
    /// The register word before this field write.
    pub closed spec fn spec_inner(&self) -> u32 {
        self.w.bits
    }

    /// Set the field bit.
    pub fn set_bit(self) -> (w: W)
        ensures
            w.spec_bits() == spec_bit_insert(self.spec_inner(), 3, true),
    {
        self.bit(true)
    }

    /// Clear the field bit.
    pub fn clear_bit(self) -> (w: W)
        ensures
            w.spec_bits() == spec_bit_insert(self.spec_inner(), 3, false),
    {
        self.bit(false)
    }

    /// Write a raw bit to the field.
    pub fn bit(self, value: bool) -> (w: W)
        ensures
            w.spec_bits() == spec_bit_insert(self.spec_inner(), 3, value),
    {
        W { bits: (self.w.bits & !(0x01u32 << 3)) | (((value as u32) & 0x01) << 3) }
    }
}

impl RUNSTDBY_W {
    /// The register word before this field write.
    pub closed spec fn spec_inner(&self) -> u32 {
        self.w.bits
    }

    /// Set the field bit.
    pub fn set_bit(self) -> (w: W)
        ensures
            w.spec_bits() == spec_bit_insert(self.spec_inner(), 6, true),
    {
        self.bit(true)
    }

    /// Clear the field bit.
    pub fn clear_bit(self) -> (w: W)
        ensures
            w.spec_bits() == spec_bit_insert(self.spec_inner(), 6, false),
    {
        self.bit(false)
    }

    /// Write a raw bit to the field.
    pub fn bit(self, value: bool) -> (w: W)
        ensures
            w.spec_bits() == spec_bit_insert(self.spec_inner(), 6, value),
    {
        W { bits: (self.w.bits & !(0x01u32 << 6)) | (((value as u32) & 0x01) << 6) }
    }
}

impl ONDEMAND_W {
    /// The register word before this field write.
    pub closed spec fn spec_inner(&self) -> u32 {
        self.w.bits
    }

    /// Set the field bit.
    pub fn set_bit(self) -> (w: W)
        ensures
            w.spec_bits() == spec_bit_insert(self.spec_inner(), 7, true),
    {
        self.bit(true)
    }

    /// Clear the field bit.
    pub fn clear_bit(self) -> (w: W)
        ensures
            w.spec_bits() == spec_bit_insert(self.spec_inner(), 7, false),
    {
        self.bit(false)
    }

    /// Write a raw bit to the field.
    pub fn bit(self, value: bool) -> (w: W)
        ensures
            w.spec_bits() == spec_bit_insert(self.spec_inner(), 7, value),
    {
        W { bits: (self.w.bits & !(0x01u32 << 7)) | (((value as u32) & 0x01) << 7) }
    }
}

impl STARTUP_W {
    /// The register word before this field write.
    pub closed spec fn spec_inner(&self) -> u32 {
        self.w.bits
    }

    /// Write raw bits to the field.
    pub fn bits(self, value: u8) -> (w: W)
        ensures
            w.spec_bits() == spec_field_insert(self.spec_inner(), 8, 0x07, value),
    {
        W { bits: (self.w.bits & !(0x07u32 << 8)) | (((value as u32) & 0x07) << 8) }
    }
}

impl WRTLOCK_W {
    /// The register word before this field write.
    pub closed spec fn spec_inner(&self) -> u32 {
        self.w.bits
    }

    /// Set the field bit.
    pub fn set_bit(self) -> (w: W)
        ensures
            w.spec_bits() == spec_bit_insert(self.spec_inner(), 12, true),
    {
        self.bit(true)
    }

    /// Clear the field bit.
    pub fn clear_bit(self) -> (w: W)
        ensures
            w.spec_bits() == spec_bit_insert(self.spec_inner(), 12, false),
    {
        self.bit(false)
    }

    /// Write a raw bit to the field.
    pub fn bit(self, value: bool) -> (w: W)
        ensures
            w.spec_bits() == spec_bit_insert(self.spec_inner(), 12, value),
    {
        W { bits: (self.w.bits & !(0x01u32 << 12)) | (((value as u32) & 0x01) << 12) }
    }
}

impl CALIB_W {
    /// The register word before this field write.
    pub closed spec fn spec_inner(&self) -> u32 {
        self.w.bits
    }

    /// Write raw bits to the field.
    pub fn bits(self, value: u8) -> (w: W)
        ensures
            w.spec_bits() == spec_field_insert(self.spec_inner(), 16, 0x7f, value),
    {
        W { bits: (self.w.bits & !(0x7fu32 << 16)) | (((value as u32) & 0x7f) << 16) }
    }
}

} // verus!

//! The ultra-low-power 32 kHz oscillator and its two output taps.
//!
//! The base oscillator can never be disabled by software; it is created
//! already enabled by the reset-state assembler. Two derived clocks tap it:
//! a 32 kHz output and a 1 kHz output, each counted as one user of the base.
//! Both tap frequencies are fixed by hardware, so they hold whatever the
//! configuration: the 32 kHz tap always reports 32768 Hz and the 1 kHz tap
//! always reports 1024 Hz.

use vstd::prelude::*;

use crate::enabled::Enabled;
use crate::enabled::Source;
use crate::time::Hertz;

verus! {

/// The fields of the oscillator's control register, as a specification view.
#[derive(Clone, Copy, PartialEq, Eq, Structural, Debug)]
pub struct OscUlpReg {
    /// Calibration field.
    pub calib: u8,
    /// Write lock.
    pub wrtlock: bool,
}

/// Token proving exclusive ownership of the base oscillator's register.
pub struct OscUlpBaseToken {
    regs: OscUlpReg,
}

/// Token for the 1 kHz output tap.
pub struct OscUlp1kToken(());

/// Token for the 32 kHz output tap.
pub struct OscUlp32kToken(());

/// The tokens for the two output taps.
pub struct Tokens {
    /// Token for the 1 kHz tap.
    pub osculp1k: OscUlp1kToken,
    /// Token for the 32 kHz tap.
    pub osculp32k: OscUlp32kToken,
}

impl Tokens {
    /// Issue the one set of tap tokens.
    pub(crate) fn new() -> Tokens {
        Tokens { osculp1k: OscUlp1kToken(()), osculp32k: OscUlp32kToken(()) }
    }
}

impl OscUlpBaseToken {
    /// The current fields of the owned control register.
    pub closed spec fn spec_regs(&self) -> OscUlpReg {
        self.regs
    }

    fn set_calibration(&mut self, calib: u8)
        ensures
            final(self).spec_regs() == (OscUlpReg { calib, ..old(self).spec_regs() }),
    {
        self.regs.calib = calib;
    }

    fn wrtlock(&mut self)
        ensures
            final(self).spec_regs() == (OscUlpReg { wrtlock: true, ..old(self).spec_regs() }),
    {
        self.regs.wrtlock = true;
    }
}

/// The always-running base oscillator.
pub struct OscUlpBase {
    token: OscUlpBaseToken,
}

/// The enabled base oscillator.
pub type EnabledOscUlpBase = Enabled<OscUlpBase>;

impl OscUlpBase {
    /// The owned register token.
    pub closed spec fn spec_token(&self) -> OscUlpBaseToken {
        self.token
    }

    /// Create the base oscillator, already enabled, as hardware leaves it at
    /// power-on reset. The calibration field stands for the chip-specific
    /// factory value.
    pub(crate) fn new() -> (enabled: EnabledOscUlpBase)
        ensures
            enabled.spec_users() == 0,
            enabled.spec_item().spec_token().spec_regs() == (OscUlpReg {
                calib: 0,
                wrtlock: false,
            }),
    {
        let token = OscUlpBaseToken { regs: OscUlpReg { calib: 0, wrtlock: false } };
        Enabled::new(OscUlpBase { token })
    }
}

impl EnabledOscUlpBase {
    /// Override the factory-default calibration value in the register.
    pub fn set_calibration(&mut self, calib: u8)
        ensures
            final(self).spec_users() == old(self).spec_users(),
            final(self).spec_item().spec_token().spec_regs() == (OscUlpReg {
                calib,
                ..old(self).spec_item().spec_token().spec_regs()
            }),
    {
        self.item.token.set_calibration(calib);
    }

    /// Set the write-lock bit, which lasts until power-on reset, and consume
    /// the handle so that no further register access is possible.
    pub fn write_lock(self) {
        let mut this = self;
        this.item.token.wrtlock();
    }
}

/// Type-level identity tag of the 1 kHz output tap.
pub struct OscUlp1kId;

/// Type-level identity tag of the 32 kHz output tap.
pub struct OscUlp32kId;

/// The 1 kHz output tap of the base oscillator.
pub struct OscUlp1k {
    #[allow(dead_code)]
    token: OscUlp1kToken,
}

/// The enabled 1 kHz tap.
pub type EnabledOscUlp1k = Enabled<OscUlp1k>;

impl OscUlp1k {
    /// Enable the 1 kHz output, counting one more user of the base.
    pub(crate) fn new(token: OscUlp1kToken, base: EnabledOscUlpBase) -> (r: (
        EnabledOscUlp1k,
        EnabledOscUlpBase,
    ))
        requires
            base.spec_users() < u32::MAX,
        ensures
            r.0.spec_users() == 0,
            r.1.spec_item() == base.spec_item(),
            r.1.spec_users() == base.spec_users() + 1,
    {
        (Enabled::new(OscUlp1k { token }), base.inc())
    }
}

impl Source for OscUlp1k {
    type Id = OscUlp1kId;

    open spec fn wf(&self) -> bool {
        true
    }

    open spec fn freq_spec(&self) -> u32 {
        1024
    }

    fn freq(&self) -> (f: Hertz) {
        Hertz(1024)
    }
}

/// The 32 kHz output tap of the base oscillator.
pub struct OscUlp32k {
    #[allow(dead_code)]
    token: OscUlp32kToken,
}

/// The enabled 32 kHz tap.
pub type EnabledOscUlp32k = Enabled<OscUlp32k>;

impl OscUlp32k {
    /// Enable the 32 kHz output, counting one more user of the base.
    pub(crate) fn new(token: OscUlp32kToken, base: EnabledOscUlpBase) -> (r: (
        EnabledOscUlp32k,
        EnabledOscUlpBase,
    ))
        requires
            base.spec_users() < u32::MAX,
        ensures
            r.0.spec_users() == 0,
            r.1.spec_item() == base.spec_item(),
            r.1.spec_users() == base.spec_users() + 1,
    {
        (Enabled::new(OscUlp32k { token }), base.inc())
    }
}

impl Source for OscUlp32k {
    type Id = OscUlp32kId;

    open spec fn wf(&self) -> bool {
        true
    }

    open spec fn freq_spec(&self) -> u32 {
        32_768
    }

    fn freq(&self) -> (f: Hertz) {
        Hertz(32_768)
    }
}

/// The tap frequencies are fixed by hardware: whatever state the taps are
/// in, the 32 kHz output reports exactly 32768 Hz and the 1 kHz output
/// exactly 1024 Hz.
pub proof fn lemma_osculp_taps_fixed_frequency(tap32k: OscUlp32k, tap1k: OscUlp1k)
    ensures
        tap32k.freq_spec() == 32_768,
        tap1k.freq_spec() == 1024,
{
}

} // verus!

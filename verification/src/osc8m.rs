//! The internal 8 MHz oscillator.
//!
//! This oscillator is running at power-on reset and drives the main clock
//! generator. Its output can be divided by a small prescaler; the frequency
//! reported by an enabled handle follows the chosen prescaler exactly.

use vstd::prelude::*;

use crate::enabled::Enabled;
use crate::enabled::Source;
use crate::status::Pclksr;
use crate::status::WouldBlock;
use crate::time::Hertz;

verus! {

/// Type-level identity tag of the internal 8 MHz oscillator.
pub struct Osc8mId;

/// Calibration band of the oscillator.
#[derive(Clone, Copy, PartialEq, Eq, Structural, Debug)]
#[allow(missing_docs)]
pub enum FreqRange {
    Range4To6Mhz,
    Range6To8Mhz,
    Range8To11Mhz,
    Range11To15Mhz,
}

/// The register encoding of a [`FreqRange`] choice.
pub open spec fn spec_freq_range_bits(freq_range: FreqRange) -> u8 {
    match freq_range {
        FreqRange::Range4To6Mhz => 0x0,
        FreqRange::Range6To8Mhz => 0x1,
        FreqRange::Range8To11Mhz => 0x2,
        FreqRange::Range11To15Mhz => 0x3,
    }
}

impl From<FreqRange> for u8 {
    /// The raw value of the register's frequency-range field.
    fn from(freq_range: FreqRange) -> (bits: u8) {
        match freq_range {
            FreqRange::Range4To6Mhz => 0x0,
            FreqRange::Range6To8Mhz => 0x1,
            FreqRange::Range8To11Mhz => 0x2,
            FreqRange::Range11To15Mhz => 0x3,
        }
    }
}

impl vstd::std_specs::convert::FromSpecImpl<FreqRange> for u8 {
    open spec fn obeys_from_spec() -> bool {
        true
    }

    open spec fn from_spec(freq_range: FreqRange) -> u8 {
        spec_freq_range_bits(freq_range)
    }
}

/// Division applied to the oscillator output.
#[derive(Clone, Copy, PartialEq, Eq, Structural, Debug)]
#[allow(missing_docs)]
pub enum Prescaler {
    Prescaler1,
    Prescaler2,
    Prescaler4,
    Prescaler8,
}

/// The register encoding of a [`Prescaler`] choice.
pub open spec fn spec_prescaler_bits(prescaler: Prescaler) -> u8 {
    match prescaler {
        Prescaler::Prescaler1 => 0x0,
        Prescaler::Prescaler2 => 0x1,
        Prescaler::Prescaler4 => 0x2,
        Prescaler::Prescaler8 => 0x3,
    }
}

impl From<Prescaler> for u8 {
    /// The raw value of the register's prescaler field.
    fn from(prescaler: Prescaler) -> (bits: u8) {
        match prescaler {
            Prescaler::Prescaler1 => 0x0,
            Prescaler::Prescaler2 => 0x1,
            Prescaler::Prescaler4 => 0x2,
            Prescaler::Prescaler8 => 0x3,
        }
    }
}

impl vstd::std_specs::convert::FromSpecImpl<Prescaler> for u8 {
    open spec fn obeys_from_spec() -> bool {
        true
    }

    open spec fn from_spec(prescaler: Prescaler) -> u8 {
        spec_prescaler_bits(prescaler)
    }
}

/// The fields of the oscillator's control register, as a specification view.
#[derive(Clone, Copy, PartialEq, Eq, Structural, Debug)]
pub struct Osc8mReg {
    /// Oscillator enable.
    pub enable: bool,
    /// On-demand control.
    pub ondemand: bool,
    /// Run in standby.
    pub runstdby: bool,
    /// Prescaler field.
    pub presc: u8,
    /// Frequency-range field.
    pub frange: u8,
    /// Calibration field.
    pub calib: u16,
}

/// Token proving exclusive ownership of the oscillator's control register.
pub struct Osc8mToken {
    regs: Osc8mReg,
}

impl Osc8mToken {
    /// The current fields of the owned control register.
    pub closed spec fn spec_regs(&self) -> Osc8mReg {
        self.regs
    }

    /// Issue the one token. At power-on reset the oscillator is already
    /// enabled and undivided; the calibration field stands for the
    /// chip-specific factory value.
    pub(crate) fn new() -> (t: Osc8mToken)
        ensures
            t.spec_regs() == (Osc8mReg {
                enable: true,
                ondemand: true,
                runstdby: false,
                presc: 0,
                frange: 0x2,
                calib: 0,
            }),
    {
        Osc8mToken {
            regs: Osc8mReg {
                enable: true,
                ondemand: true,
                runstdby: false,
                presc: 0,
                frange: 0x2,
                calib: 0,
            },
        }
    }

    fn set_calibration(&mut self, calib: u16)
        ensures
            final(self).spec_regs() == (Osc8mReg { calib, ..old(self).spec_regs() }),
    {
        self.regs.calib = calib;
    }

    fn set_frequency_range(&mut self, freq_range: FreqRange)
        ensures
            final(self).spec_regs() == (Osc8mReg {
                frange: spec_freq_range_bits(freq_range),
                ..old(self).spec_regs()
            }),
    {
        self.regs.frange = u8::from(freq_range);
    }

    fn set_prescaler(&mut self, prescaler: Prescaler)
        ensures
            final(self).spec_regs() == (Osc8mReg {
                presc: spec_prescaler_bits(prescaler),
                ..old(self).spec_regs()
            }),
    {
        self.regs.presc = u8::from(prescaler);
    }

    fn set_on_demand(&mut self, on_demand: bool)
        ensures
            final(self).spec_regs() == (Osc8mReg { ondemand: on_demand, ..old(self).spec_regs() }),
    {
        self.regs.ondemand = on_demand;
    }

    fn set_run_standby(&mut self, run_standby: bool)
        ensures
            final(self).spec_regs() == (Osc8mReg { runstdby: run_standby, ..old(self).spec_regs() }),
    {
        self.regs.runstdby = run_standby;
    }

    fn enable(&mut self)
        ensures
            final(self).spec_regs() == (Osc8mReg { enable: true, ..old(self).spec_regs() }),
    {
        self.regs.enable = true;
    }

    fn disable(&mut self)
        ensures
            final(self).spec_regs() == (Osc8mReg { enable: false, ..old(self).spec_regs() }),
    {
        self.regs.enable = false;
    }

    fn wait_ready(&self, status: &Pclksr) -> (r: Result<(), WouldBlock>)
        ensures
            r is Ok <==> status.osc8mrdy,
    {
        if status.osc8mrdy {
            Ok(())
        } else {
            Err(WouldBlock)
        }
    }
}

/// The oscillator with its in-memory configuration.
pub struct Osc8m {
    token: Osc8mToken,
    run_standby: bool,
    on_demand_mode: bool,
    prescaler: Prescaler,
}

/// An enabled internal 8 MHz oscillator.
pub type EnabledOsc8m = Enabled<Osc8m>;

/// The output frequency for a prescaler choice, in hertz.
pub open spec fn spec_osc8m_freq(prescaler: Prescaler) -> u32 {
    match prescaler {
        Prescaler::Prescaler1 => 8_000_000,
        Prescaler::Prescaler2 => 4_000_000,
        Prescaler::Prescaler4 => 2_000_000,
        Prescaler::Prescaler8 => 1_000_000,
    }
}

impl Osc8m {
    /// The owned register token.
    pub closed spec fn spec_token(&self) -> Osc8mToken {
        self.token
    }

    /// The configured run-in-standby choice.
    pub closed spec fn spec_run_standby(&self) -> bool {
        self.run_standby
    }

    /// The configured on-demand choice.
    pub closed spec fn spec_on_demand(&self) -> bool {
        self.on_demand_mode
    }

    /// The configured prescaler.
    pub closed spec fn spec_prescaler(&self) -> Prescaler {
        self.prescaler
    }

    /// The oscillator state after [`Osc8m::enable`] has run.
    pub closed spec fn spec_enabled_state(self) -> Osc8m {
        Osc8m {
            token: Osc8mToken {
                regs: Osc8mReg {
                    enable: true,
                    ondemand: self.on_demand_mode,
                    runstdby: self.run_standby,
                    presc: spec_prescaler_bits(self.prescaler),
                    ..self.token.regs
                },
            },
            ..self
        }
    }

    /// The oscillator state after an enabled handle has been disabled.
    pub closed spec fn spec_disabled_state(self) -> Osc8m {
        Osc8m {
            token: Osc8mToken { regs: Osc8mReg { enable: false, ..self.token.regs } },
            ..self
        }
    }

    /// The output frequency, as set by the configured prescaler.
    pub fn freq(&self) -> (f: Hertz)
        ensures
            f.0 == spec_osc8m_freq(self.spec_prescaler()),
    {
        match self.prescaler {
            Prescaler::Prescaler1 => Hertz(8_000_000),
            Prescaler::Prescaler2 => Hertz(4_000_000),
            Prescaler::Prescaler4 => Hertz(2_000_000),
            Prescaler::Prescaler8 => Hertz(1_000_000),
        }
    }

    /// Wrap a token with the default configuration. No hardware effect.
    pub fn new(token: Osc8mToken) -> (osc: Osc8m)
        ensures
            osc.spec_token() == token,
            !osc.spec_run_standby(),
            osc.spec_on_demand(),
            osc.spec_prescaler() == Prescaler::Prescaler1,
    {
        Osc8m { token, run_standby: false, on_demand_mode: true, prescaler: Prescaler::Prescaler1 }
    }

    /// Give the token back.
    pub fn free(self) -> (token: Osc8mToken)
        ensures
            token == self.spec_token(),
    {
        self.token
    }

    /// Choose whether the oscillator only runs while a peripheral requests it.
    pub fn on_demand(self, on_demand: bool) -> (osc: Osc8m)
        ensures
            osc.spec_on_demand() == on_demand,
            osc.spec_token() == self.spec_token(),
            osc.spec_run_standby() == self.spec_run_standby(),
            osc.spec_prescaler() == self.spec_prescaler(),
    {
        Osc8m { on_demand_mode: on_demand, ..self }
    }

    /// Choose whether the oscillator keeps running during standby.
    pub fn run_standby(self, run_standby: bool) -> (osc: Osc8m)
        ensures
            osc.spec_run_standby() == run_standby,
            osc.spec_token() == self.spec_token(),
            osc.spec_on_demand() == self.spec_on_demand(),
            osc.spec_prescaler() == self.spec_prescaler(),
    {
        Osc8m { run_standby, ..self }
    }

    /// Choose the output division.
    pub fn prescaler(self, prescaler: Prescaler) -> (osc: Osc8m)
        ensures
            osc.spec_prescaler() == prescaler,
            osc.spec_token() == self.spec_token(),
            osc.spec_on_demand() == self.spec_on_demand(),
            osc.spec_run_standby() == self.spec_run_standby(),
    {
        Osc8m { prescaler, ..self }
    }

    /// Decide from a captured status word whether the oscillator is ready.
    pub fn wait_ready(&self, status: &Pclksr) -> (r: Result<(), WouldBlock>)
        ensures
            r is Ok <==> status.osc8mrdy,
    {
        self.token.wait_ready(status)
    }

    /// Override the factory-default calibration value in the register.
    pub fn set_calibration(&mut self, calib: u16)
        ensures
            final(self).spec_token().spec_regs() == (Osc8mReg {
                calib,
                ..old(self).spec_token().spec_regs()
            }),
            final(self).spec_run_standby() == old(self).spec_run_standby(),
            final(self).spec_on_demand() == old(self).spec_on_demand(),
            final(self).spec_prescaler() == old(self).spec_prescaler(),
    {
        self.token.set_calibration(calib);
    }

    /// Override the factory-default frequency-range value in the register.
    pub fn set_frequency_range(&mut self, freq_range: FreqRange)
        ensures
            final(self).spec_token().spec_regs() == (Osc8mReg {
                frange: spec_freq_range_bits(freq_range),
                ..old(self).spec_token().spec_regs()
            }),
            final(self).spec_run_standby() == old(self).spec_run_standby(),
            final(self).spec_on_demand() == old(self).spec_on_demand(),
            final(self).spec_prescaler() == old(self).spec_prescaler(),
    {
        self.token.set_frequency_range(freq_range);
    }

    /// Write the stored configuration to the register, set the enable bit,
    /// and hand back an enabled handle with no users.
    pub fn enable(self) -> (enabled: EnabledOsc8m)
        ensures
            enabled.spec_users() == 0,
            enabled.spec_item() == self.spec_enabled_state(),
            enabled.spec_item().spec_run_standby() == self.spec_run_standby(),
            enabled.spec_item().spec_on_demand() == self.spec_on_demand(),
            enabled.spec_item().spec_prescaler() == self.spec_prescaler(),
            enabled.spec_item().spec_token().spec_regs() == (Osc8mReg {
                enable: true,
                ondemand: self.spec_on_demand(),
                runstdby: self.spec_run_standby(),
                presc: spec_prescaler_bits(self.spec_prescaler()),
                ..self.spec_token().spec_regs()
            }),
    {
        let mut this = self;
        this.token.set_on_demand(this.on_demand_mode);
        this.token.set_run_standby(this.run_standby);
        this.token.set_prescaler(this.prescaler);
        this.token.enable();
        Enabled::new(this)
    }
}

impl EnabledOsc8m {
    /// Clear the enable bit and return the configured handle. Only a clock
    /// with no remaining users can be disabled.
    pub fn disable(self) -> (osc: Osc8m)
        requires
            self.spec_users() == 0,
        ensures
            osc == self.spec_item().spec_disabled_state(),
            osc.spec_run_standby() == self.spec_item().spec_run_standby(),
            osc.spec_on_demand() == self.spec_item().spec_on_demand(),
            osc.spec_prescaler() == self.spec_item().spec_prescaler(),
            osc.spec_token().spec_regs() == (Osc8mReg {
                enable: false,
                ..self.spec_item().spec_token().spec_regs()
            }),
    {
        let mut this = self;
        this.item.token.disable();
        this.item
    }
}

impl Source for Osc8m {
    type Id = Osc8mId;

    open spec fn wf(&self) -> bool {
        true
    }

    open spec fn freq_spec(&self) -> u32 {
        spec_osc8m_freq(self.spec_prescaler())
    }

    fn freq(&self) -> (f: Hertz) {
        self.freq()
    }
}

/// Enabling and then disabling the oscillator hands back a handle whose
/// configuration record is identical to the one before enabling.
pub proof fn lemma_osc8m_enable_disable_roundtrip(osc: Osc8m)
    ensures
        osc.spec_enabled_state().spec_disabled_state().spec_run_standby() == osc.spec_run_standby(),
        osc.spec_enabled_state().spec_disabled_state().spec_on_demand() == osc.spec_on_demand(),
        osc.spec_enabled_state().spec_disabled_state().spec_prescaler() == osc.spec_prescaler(),
{
}

} // verus!

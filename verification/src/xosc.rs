//! The external multi-megahertz oscillator.
//!
//! The oscillator can be driven by an external clock signal on one pin
//! ([`ClockMode`]) or by a crystal across two pins ([`CrystalMode`]); the
//! crystal mode additionally carries an amplitude-gain setting. The source
//! frequency is whatever the board provides, so the handle stores it and an
//! enabled handle reports it unchanged.

use vstd::prelude::*;

use crate::enabled::Enabled;
use crate::enabled::Source;
use crate::status::Pclksr;
use crate::status::WouldBlock;
use crate::time::Hertz;

verus! {

/// Type-level identity tag of the external oscillator.
pub struct XoscId;

/// Amplitude gain setting, normally chosen by crystal frequency range.
///
/// `Zero` leaves the gain field at its default of zero; gain is only used
/// when automatic amplitude control is disabled.
#[derive(Clone, Copy, PartialEq, Eq, Structural, Debug)]
#[allow(missing_docs)]
pub enum Gain {
    Zero,
    TwoMHz,
    FourMHz,
    EightMHz,
    SixteenMHz,
    ThirtyTwoMHz,
}

/// Register-level encoding of the gain field.
#[derive(Clone, Copy, PartialEq, Eq, Structural, Debug)]
#[allow(missing_docs)]
#[allow(non_camel_case_types)]
pub enum GAIN_A {
    _0,
    _1,
    _2,
    _3,
    _4,
}

/// The register encoding of a [`Gain`] choice.
pub open spec fn spec_gain_variant(gain: Gain) -> GAIN_A {
    match gain {
        Gain::Zero => GAIN_A::_0,
        Gain::TwoMHz => GAIN_A::_0,
        Gain::FourMHz => GAIN_A::_1,
        Gain::EightMHz => GAIN_A::_2,
        Gain::SixteenMHz => GAIN_A::_3,
        Gain::ThirtyTwoMHz => GAIN_A::_4,
    }
}

impl From<Gain> for GAIN_A {
    /// The register field variant selected by a gain choice.
    fn from(gain: Gain) -> (v: GAIN_A) {
        match gain {
            Gain::Zero => GAIN_A::_0,
            Gain::TwoMHz => GAIN_A::_0,
            Gain::FourMHz => GAIN_A::_1,
            Gain::EightMHz => GAIN_A::_2,
            Gain::SixteenMHz => GAIN_A::_3,
            Gain::ThirtyTwoMHz => GAIN_A::_4,
        }
    }
}

impl vstd::std_specs::convert::FromSpecImpl<Gain> for GAIN_A {
    open spec fn obeys_from_spec() -> bool {
        true
    }

    open spec fn from_spec(gain: Gain) -> GAIN_A {
        spec_gain_variant(gain)
    }
}

/// Number of cycles to pass before the oscillator output is used.
#[derive(Clone, Copy, PartialEq, Eq, Structural, Debug)]
#[allow(missing_docs)]
pub enum Startup {
    CYCLE1,
    CYCLE2,
    CYCLE4,
    CYCLE8,
    CYCLE16,
    CYCLE32,
    CYCLE64,
    CYCLE128,
    CYCLE256,
    CYCLE512,
    CYCLE1024,
    CYCLE2048,
    CYCLE4096,
    CYCLE8192,
    CYCLE16384,
    CYCLE32768,
}

/// The register encoding of a [`Startup`] choice.
pub open spec fn spec_startup_bits(startup: Startup) -> u8 {
    match startup {
        Startup::CYCLE1 => 0x0,
        Startup::CYCLE2 => 0x1,
        Startup::CYCLE4 => 0x2,
        Startup::CYCLE8 => 0x3,
        Startup::CYCLE16 => 0x4,
        Startup::CYCLE32 => 0x5,
        Startup::CYCLE64 => 0x6,
        Startup::CYCLE128 => 0x7,
        Startup::CYCLE256 => 0x8,
        Startup::CYCLE512 => 0x9,
        Startup::CYCLE1024 => 0xA,
        Startup::CYCLE2048 => 0xB,
        Startup::CYCLE4096 => 0xC,
        Startup::CYCLE8192 => 0xD,
        Startup::CYCLE16384 => 0xE,
        Startup::CYCLE32768 => 0xF,
    }
}

impl From<Startup> for u8 {
    /// The raw value of the register's start-up field.
    fn from(startup: Startup) -> (bits: u8) {
        match startup {
            Startup::CYCLE1 => 0x0,
            Startup::CYCLE2 => 0x1,
            Startup::CYCLE4 => 0x2,
            Startup::CYCLE8 => 0x3,
            Startup::CYCLE16 => 0x4,
            Startup::CYCLE32 => 0x5,
            Startup::CYCLE64 => 0x6,
            Startup::CYCLE128 => 0x7,
            Startup::CYCLE256 => 0x8,
            Startup::CYCLE512 => 0x9,
            Startup::CYCLE1024 => 0xA,
            Startup::CYCLE2048 => 0xB,
            Startup::CYCLE4096 => 0xC,
            Startup::CYCLE8192 => 0xD,
            Startup::CYCLE16384 => 0xE,
            Startup::CYCLE32768 => 0xF,
        }
    }
}

impl vstd::std_specs::convert::FromSpecImpl<Startup> for u8 {
    open spec fn obeys_from_spec() -> bool {
        true
    }

    open spec fn from_spec(startup: Startup) -> u8 {
        spec_startup_bits(startup)
    }
}

/// The fields of the oscillator's control register, as a specification view.
#[derive(Clone, Copy, PartialEq, Eq, Structural, Debug)]
pub struct XoscReg {
    /// Oscillator enable.
    pub enable: bool,
    /// Crystal-oscillator enable: set when a crystal drives the pins.
    pub xtalen: bool,
    /// Start-up time field.
    pub startup: u8,
    /// On-demand control.
    pub ondemand: bool,
    /// Run in standby.
    pub runstdby: bool,
    /// Automatic amplitude gain control.
    pub ampgc: bool,
    /// Gain field.
    pub gain: GAIN_A,
}

/// The register's power-on reset state: everything off, on-demand set.
pub open spec fn spec_xosc_reset_reg() -> XoscReg {
    XoscReg {
        enable: false,
        xtalen: false,
        startup: 0,
        ondemand: true,
        runstdby: false,
        ampgc: false,
        gain: GAIN_A::_0,
    }
}

/// Token proving exclusive ownership of the oscillator's control register.
pub struct XoscToken {
    regs: XoscReg,
}

impl XoscToken {
    /// The current fields of the owned control register.
    pub closed spec fn spec_regs(&self) -> XoscReg {
        self.regs
    }

    /// Issue the one token, holding the register's power-on reset state.
    pub(crate) fn new() -> (t: XoscToken)
        ensures
            t.spec_regs() == spec_xosc_reset_reg(),
    {
        XoscToken {
            regs: XoscReg {
                enable: false,
                xtalen: false,
                startup: 0,
                ondemand: true,
                runstdby: false,
                ampgc: false,
                gain: GAIN_A::_0,
            },
        }
    }

    fn reset(&mut self)
        ensures
            final(self).spec_regs() == spec_xosc_reset_reg(),
    {
        self.regs = XoscReg {
            enable: false,
            xtalen: false,
            startup: 0,
            ondemand: true,
            runstdby: false,
            ampgc: false,
            gain: GAIN_A::_0,
        };
    }

    fn set_start_up(&mut self, start_up: Startup)
        ensures
            final(self).spec_regs() == (XoscReg {
                startup: spec_startup_bits(start_up),
                ..old(self).spec_regs()
            }),
    {
        self.regs.startup = u8::from(start_up);
    }

    fn set_on_demand(&mut self, on_demand: bool)
        ensures
            final(self).spec_regs() == (XoscReg { ondemand: on_demand, ..old(self).spec_regs() }),
    {
        self.regs.ondemand = on_demand;
    }

    fn set_run_standby(&mut self, run_standby: bool)
        ensures
            final(self).spec_regs() == (XoscReg { runstdby: run_standby, ..old(self).spec_regs() }),
    {
        self.regs.runstdby = run_standby;
    }

    fn set_source(&mut self, from_crystal: bool)
        ensures
            final(self).spec_regs() == (XoscReg { xtalen: from_crystal, ..old(self).spec_regs() }),
    {
        self.regs.xtalen = from_crystal;
    }

    fn set_gain(&mut self, gain: Gain)
        ensures
            final(self).spec_regs() == (XoscReg {
                gain: spec_gain_variant(gain),
                ..old(self).spec_regs()
            }),
    {
        self.regs.gain = GAIN_A::from(gain);
    }

    fn set_amplitude_loop_control(&mut self, ampgc: bool)
        ensures
            final(self).spec_regs() == (XoscReg { ampgc, ..old(self).spec_regs() }),
    {
        self.regs.ampgc = ampgc;
    }

    fn enable(&mut self)
        ensures
            final(self).spec_regs() == (XoscReg { enable: true, ..old(self).spec_regs() }),
    {
        self.regs.enable = true;
    }

    fn disable(&mut self)
        ensures
            final(self).spec_regs() == (XoscReg { enable: false, ..old(self).spec_regs() }),
    {
        self.regs.enable = false;
    }

    fn wait_ready(&self, status: &Pclksr) -> (r: Result<(), WouldBlock>)
        ensures
            r is Ok <==> status.xoscrdy,
    {
        if status.xoscrdy {
            Ok(())
        } else {
            Err(WouldBlock)
        }
    }
}

/// Type-level operation mode of the oscillator: externally provided clock or
/// crystal.
pub trait Mode: Sized {
    /// Whether this mode sets the crystal-enable register bit.
    spec fn spec_xtalen() -> bool;

    /// The gain this mode programs.
    spec fn spec_gain(&self) -> Gain;

    /// The amplitude-control choice this mode programs.
    spec fn spec_ampgc(&self) -> bool;

    /// The crystal-enable register bit for this mode.
    fn xtalen() -> (b: bool)
        ensures
            b == Self::spec_xtalen(),
    ;

    /// The gain value to program.
    fn gain(&self) -> (g: Gain)
        ensures
            g == self.spec_gain(),
    ;

    /// The amplitude-control bit to program.
    fn amplitude_loop_control(&self) -> (b: bool)
        ensures
            b == self.spec_ampgc(),
    ;
}

/// The oscillator driven by an externally provided clock signal.
#[derive(Clone, Copy, PartialEq, Eq, Structural, Debug)]
pub struct ClockMode;

impl Mode for ClockMode {
    open spec fn spec_xtalen() -> bool {
        false
    }

    open spec fn spec_gain(&self) -> Gain {
        Gain::Zero
    }

    open spec fn spec_ampgc(&self) -> bool {
        false
    }

    fn xtalen() -> bool {
        false
    }

    fn gain(&self) -> Gain {
        Gain::Zero
    }

    fn amplitude_loop_control(&self) -> bool {
        false
    }
}

/// The oscillator driven by an external crystal.
#[derive(Clone, Copy, PartialEq, Eq, Structural, Debug)]
pub struct CrystalMode {
    gain: Gain,
    amplitude_loop_control: bool,
}

impl CrystalMode {
    /// The configured gain.
    pub closed spec fn spec_gain_field(&self) -> Gain {
        self.gain
    }

    /// The configured amplitude-control choice.
    pub closed spec fn spec_ampgc_field(&self) -> bool {
        self.amplitude_loop_control
    }
}

impl Mode for CrystalMode {
    open spec fn spec_xtalen() -> bool {
        true
    }

    open spec fn spec_gain(&self) -> Gain {
        self.spec_gain_field()
    }

    open spec fn spec_ampgc(&self) -> bool {
        self.spec_ampgc_field()
    }

    fn xtalen() -> bool {
        true
    }

    fn gain(&self) -> Gain {
        self.gain
    }

    fn amplitude_loop_control(&self) -> bool {
        self.amplitude_loop_control
    }
}

/// The oscillator with its in-memory configuration.
pub struct Xosc<M: Mode> {
    token: XoscToken,
    mode: M,
    src_freq: Hertz,
    start_up_cycles: Startup,
    on_demand: bool,
    run_standby: bool,
}

/// An enabled external oscillator.
pub type EnabledXosc<M> = Enabled<Xosc<M>>;

impl<M: Mode> Xosc<M> {
    /// The owned register token.
    pub closed spec fn spec_token(&self) -> XoscToken {
        self.token
    }

    /// The mode value, carrying the gain and amplitude-control choices.
    pub closed spec fn spec_mode(&self) -> M {
        self.mode
    }

    /// The board-provided source frequency.
    pub closed spec fn spec_src_freq(&self) -> u32 {
        self.src_freq.0
    }

    /// The configured start-up time.
    pub closed spec fn spec_start_up(&self) -> Startup {
        self.start_up_cycles
    }

    /// The configured on-demand choice.
    pub closed spec fn spec_on_demand(&self) -> bool {
        self.on_demand
    }

    /// The configured run-in-standby choice.
    pub closed spec fn spec_run_standby(&self) -> bool {
        self.run_standby
    }

    /// The oscillator state after [`Xosc::enable`] has run: the register is
    /// reset, then every configuration field and the enable bit are written.
    pub closed spec fn spec_enabled_state(self) -> Xosc<M> {
        Xosc {
            token: XoscToken {
                regs: XoscReg {
                    enable: true,
                    xtalen: M::spec_xtalen(),
                    startup: spec_startup_bits(self.start_up_cycles),
                    ondemand: self.on_demand,
                    runstdby: self.run_standby,
                    ampgc: self.mode.spec_ampgc(),
                    gain: spec_gain_variant(self.mode.spec_gain()),
                },
            },
            ..self
        }
    }

    /// The oscillator state after an enabled handle has been disabled.
    pub closed spec fn spec_disabled_state(self) -> Xosc<M> {
        Xosc { token: XoscToken { regs: XoscReg { enable: false, ..self.token.regs } }, ..self }
    }

    /// The board-provided frequency of the oscillator.
    pub fn freq(&self) -> (f: Hertz)
        ensures
            f.0 == self.spec_src_freq(),
    {
        self.src_freq
    }

    /// Choose how many cycles pass before the oscillator output is used.
    pub fn set_start_up(self, start_up: Startup) -> (osc: Xosc<M>)
        ensures
            osc.spec_start_up() == start_up,
            osc.spec_token() == self.spec_token(),
            osc.spec_mode() == self.spec_mode(),
            osc.spec_src_freq() == self.spec_src_freq(),
            osc.spec_on_demand() == self.spec_on_demand(),
            osc.spec_run_standby() == self.spec_run_standby(),
    {
        Xosc { start_up_cycles: start_up, ..self }
    }

    /// Choose whether the oscillator only runs while a peripheral requests it.
    pub fn set_on_demand(self, on_demand: bool) -> (osc: Xosc<M>)
        ensures
            osc.spec_on_demand() == on_demand,
            osc.spec_token() == self.spec_token(),
            osc.spec_mode() == self.spec_mode(),
            osc.spec_src_freq() == self.spec_src_freq(),
            osc.spec_start_up() == self.spec_start_up(),
            osc.spec_run_standby() == self.spec_run_standby(),
    {
        Xosc { on_demand, ..self }
    }

    /// Choose whether the oscillator keeps running during standby.
    pub fn set_run_standby(self, run_standby: bool) -> (osc: Xosc<M>)
        ensures
            osc.spec_run_standby() == run_standby,
            osc.spec_token() == self.spec_token(),
            osc.spec_mode() == self.spec_mode(),
            osc.spec_src_freq() == self.spec_src_freq(),
            osc.spec_start_up() == self.spec_start_up(),
            osc.spec_on_demand() == self.spec_on_demand(),
    {
        Xosc { run_standby, ..self }
    }

    /// Reset the register, write the stored configuration in order, set the
    /// enable bit, and hand back an enabled handle with no users.
    pub fn enable(self) -> (enabled: EnabledXosc<M>)
        ensures
            enabled.spec_users() == 0,
            enabled.spec_item() == self.spec_enabled_state(),
            enabled.spec_item().spec_src_freq() == self.spec_src_freq(),
            enabled.spec_item().spec_mode() == self.spec_mode(),
            enabled.spec_item().spec_start_up() == self.spec_start_up(),
            enabled.spec_item().spec_on_demand() == self.spec_on_demand(),
            enabled.spec_item().spec_run_standby() == self.spec_run_standby(),
            enabled.spec_item().spec_token().spec_regs() == (XoscReg {
                enable: true,
                xtalen: M::spec_xtalen(),
                startup: spec_startup_bits(self.spec_start_up()),
                ondemand: self.spec_on_demand(),
                runstdby: self.spec_run_standby(),
                ampgc: self.spec_mode().spec_ampgc(),
                gain: spec_gain_variant(self.spec_mode().spec_gain()),
            }),
    {
        let mut this = self;
        this.token.reset();
        this.token.set_source(M::xtalen());
        this.token.set_start_up(this.start_up_cycles);
        this.token.set_on_demand(this.on_demand);
        this.token.set_run_standby(this.run_standby);
        this.token.set_amplitude_loop_control(this.mode.amplitude_loop_control());
        let gain = this.mode.gain();
        this.token.set_gain(gain);
        this.token.enable();
        Enabled::new(this)
    }
}

impl Xosc<ClockMode> {
    /// Construct the oscillator from a single-pin clock signal of the given
    /// frequency.
    pub fn from_clock(token: XoscToken, src_freq: Hertz) -> (osc: Xosc<ClockMode>)
        ensures
            osc.spec_token() == token,
            osc.spec_src_freq() == src_freq.0,
            osc.spec_start_up() == Startup::CYCLE1,
            osc.spec_on_demand(),
            !osc.spec_run_standby(),
    {
        Xosc {
            token,
            mode: ClockMode,
            src_freq,
            start_up_cycles: Startup::CYCLE1,
            on_demand: true,
            run_standby: false,
        }
    }

    /// Give the token back.
    pub fn free(self) -> (token: XoscToken)
        ensures
            token == self.spec_token(),
    {
        self.token
    }
}

impl Xosc<CrystalMode> {
    /// Construct the oscillator from a two-pin crystal of the given
    /// frequency. Amplitude control starts on, which protects the crystal
    /// and lowers power use.
    pub fn from_crystal(token: XoscToken, src_freq: Hertz) -> (osc: Xosc<CrystalMode>)
        ensures
            osc.spec_token() == token,
            osc.spec_src_freq() == src_freq.0,
            osc.spec_start_up() == Startup::CYCLE1,
            osc.spec_on_demand(),
            !osc.spec_run_standby(),
            osc.spec_mode().spec_gain_field() == Gain::Zero,
            osc.spec_mode().spec_ampgc_field(),
    {
        Xosc {
            token,
            mode: CrystalMode { gain: Gain::Zero, amplitude_loop_control: true },
            src_freq,
            start_up_cycles: Startup::CYCLE1,
            on_demand: true,
            run_standby: false,
        }
    }

    /// Choose whether automatic amplitude control is used.
    pub fn set_amplitude_loop_control(self, ampgc: bool) -> (osc: Xosc<CrystalMode>)
        ensures
            osc.spec_mode().spec_ampgc_field() == ampgc,
            osc.spec_mode().spec_gain_field() == self.spec_mode().spec_gain_field(),
            osc.spec_token() == self.spec_token(),
            osc.spec_src_freq() == self.spec_src_freq(),
            osc.spec_start_up() == self.spec_start_up(),
            osc.spec_on_demand() == self.spec_on_demand(),
            osc.spec_run_standby() == self.spec_run_standby(),
    {
        let mut this = self;
        this.mode.amplitude_loop_control = ampgc;
        this
    }

    /// Choose the amplitude gain value.
    pub fn set_gain(self, gain: Gain) -> (osc: Xosc<CrystalMode>)
        ensures
            osc.spec_mode().spec_gain_field() == gain,
            osc.spec_mode().spec_ampgc_field() == self.spec_mode().spec_ampgc_field(),
            osc.spec_token() == self.spec_token(),
            osc.spec_src_freq() == self.spec_src_freq(),
            osc.spec_start_up() == self.spec_start_up(),
            osc.spec_on_demand() == self.spec_on_demand(),
            osc.spec_run_standby() == self.spec_run_standby(),
    {
        let mut this = self;
        this.mode.gain = gain;
        this
    }

    /// Give the token back.
    pub fn free(self) -> (token: XoscToken)
        ensures
            token == self.spec_token(),
    {
        self.token
    }
}

impl<M: Mode> EnabledXosc<M> {
    /// Clear the enable bit and return the configured handle. Only a clock
    /// with no remaining users can be disabled.
    pub fn disable(self) -> (osc: Xosc<M>)
        requires
            self.spec_users() == 0,
        ensures
            osc == self.spec_item().spec_disabled_state(),
            osc.spec_src_freq() == self.spec_item().spec_src_freq(),
            osc.spec_mode() == self.spec_item().spec_mode(),
            osc.spec_start_up() == self.spec_item().spec_start_up(),
            osc.spec_on_demand() == self.spec_item().spec_on_demand(),
            osc.spec_run_standby() == self.spec_item().spec_run_standby(),
            osc.spec_token().spec_regs() == (XoscReg {
                enable: false,
                ..self.spec_item().spec_token().spec_regs()
            }),
    {
        let mut this = self;
        this.item.token.disable();
        this.item
    }

    /// Decide from a captured status word whether the oscillator is ready.
    pub fn wait_ready(&self, status: &Pclksr) -> (r: Result<(), WouldBlock>)
        ensures
            r is Ok <==> status.xoscrdy,
    {
        self.item.token.wait_ready(status)
    }
}

impl<M: Mode> Source for Xosc<M> {
    type Id = XoscId;

    open spec fn wf(&self) -> bool {
        true
    }

    open spec fn freq_spec(&self) -> u32 {
        self.spec_src_freq()
    }

    fn freq(&self) -> (f: Hertz) {
        self.src_freq
    }
}

/// Enabling and then disabling the oscillator hands back a handle whose
/// configuration record is identical to the one before enabling.
pub proof fn lemma_xosc_enable_disable_roundtrip<M: Mode>(osc: Xosc<M>)
    ensures
        osc.spec_enabled_state().spec_disabled_state().spec_src_freq() == osc.spec_src_freq(),
        osc.spec_enabled_state().spec_disabled_state().spec_mode() == osc.spec_mode(),
        osc.spec_enabled_state().spec_disabled_state().spec_start_up() == osc.spec_start_up(),
        osc.spec_enabled_state().spec_disabled_state().spec_on_demand() == osc.spec_on_demand(),
        osc.spec_enabled_state().spec_disabled_state().spec_run_standby() == osc.spec_run_standby(),
{
}

} // verus!

//! The internal 32 kHz oscillator.
//!
//! [`Osc32kToken`] owns the oscillator's control register. [`Osc32k`] wraps
//! the token with an in-memory configuration record that builder calls edit;
//! [`Osc32k::enable`] writes the configuration to the register and yields an
//! enabled handle, and disabling an enabled handle with no users returns the
//! configured handle unchanged.

use vstd::prelude::*;

use crate::enabled::Enabled;
use crate::enabled::Source;
use crate::osc32k_reg;
use crate::osc32k_reg::spec_bit_insert;
use crate::osc32k_reg::spec_field_insert;
use crate::osc32k_reg::OSC32K_RESET;
use crate::status::Pclksr;
use crate::status::WouldBlock;
use crate::time::Hertz;

verus! {

/// Type-level identity tag of the internal 32 kHz oscillator.
pub struct Osc32kId;

/// Number of cycles the oscillator output stays masked during start-up.
#[derive(Clone, Copy, PartialEq, Eq, Structural, Debug)]
#[allow(missing_docs)]
pub enum Startup {
    CYCLE3,
    CYCLE4,
    CYCLE6,
    CYCLE10,
    CYCLE18,
    CYCLE34,
    CYCLE66,
    CYCLE130,
}

/// The register encoding of a [`Startup`] choice.
pub open spec fn spec_startup_bits(startup: Startup) -> u8 {
    match startup {
        Startup::CYCLE3 => 0x0,
        Startup::CYCLE4 => 0x1,
        Startup::CYCLE6 => 0x2,
        Startup::CYCLE10 => 0x3,
        Startup::CYCLE18 => 0x4,
        Startup::CYCLE34 => 0x5,
        Startup::CYCLE66 => 0x6,
        Startup::CYCLE130 => 0x7,
    }
}

impl From<Startup> for u8 {
    /// The raw value of the register's start-up field.
    fn from(startup: Startup) -> (bits: u8) {
        match startup {
            Startup::CYCLE3 => 0x0,
            Startup::CYCLE4 => 0x1,
            Startup::CYCLE6 => 0x2,
            Startup::CYCLE10 => 0x3,
            Startup::CYCLE18 => 0x4,
            Startup::CYCLE34 => 0x5,
            Startup::CYCLE66 => 0x6,
            Startup::CYCLE130 => 0x7,
        }
    }
}

impl vstd::std_specs::convert::FromSpecImpl<Startup> for u8 {
    open spec fn obeys_from_spec() -> bool {
        true
    }

    open spec fn from_spec(startup: Startup) -> u8 {
        spec_startup_bits(startup)
    }
}

/// Token proving exclusive ownership of the oscillator's control register.
///
/// The token holds the register word itself; every mutation of the
/// oscillator's hardware state goes through exactly this one value.
pub struct Osc32kToken {
    reg: u32,
}

impl Osc32kToken {
    /// The current value of the owned control register.
    pub closed spec fn spec_reg(&self) -> u32 {
        self.reg
    }

    /// Issue the one token, holding the register's power-on reset value.
    pub(crate) fn new() -> (t: Osc32kToken)
        ensures
            t.spec_reg() == OSC32K_RESET,
    {
        Osc32kToken { reg: 0x003f_0080 }
    }

    fn set_start_up(&mut self, start_up: Startup)
        ensures
            final(self).spec_reg() == spec_field_insert(
                old(self).spec_reg(),
                8,
                0x07,
                spec_startup_bits(start_up),
            ),
    {
        let bits: u8 = u8::from(start_up);
        let w = osc32k_reg::W::new(self.reg);
        let w = w.startup().bits(bits);
        self.reg = w.value();
    }

    fn set_calibration(&mut self, calib: u8)
        ensures
            final(self).spec_reg() == spec_field_insert(old(self).spec_reg(), 16, 0x7f, calib),
    {
        let w = osc32k_reg::W::new(self.reg);
        let w = w.calib().bits(calib);
        self.reg = w.value();
    }

    fn set_on_demand(&mut self, on_demand: bool)
        ensures
            final(self).spec_reg() == spec_bit_insert(old(self).spec_reg(), 7, on_demand),
    {
        let w = osc32k_reg::W::new(self.reg);
        let w = w.ondemand().bit(on_demand);
        self.reg = w.value();
    }

    fn set_run_standby(&mut self, run_standby: bool)
        ensures
            final(self).spec_reg() == spec_bit_insert(old(self).spec_reg(), 6, run_standby),
    {
        let w = osc32k_reg::W::new(self.reg);
        let w = w.runstdby().bit(run_standby);
        self.reg = w.value();
    }

    fn enable_32k(&mut self, enabled: bool)
        ensures
            final(self).spec_reg() == spec_bit_insert(old(self).spec_reg(), 2, enabled),
    {
        let w = osc32k_reg::W::new(self.reg);
        let w = w.en32k().bit(enabled);
        self.reg = w.value();
    }

    fn enable(&mut self)
        ensures
            final(self).spec_reg() == spec_bit_insert(old(self).spec_reg(), 1, true),
    {
        let w = osc32k_reg::W::new(self.reg);
        let w = w.enable().bit(true);
        self.reg = w.value();
    }

    fn wrtlock(&mut self)
        ensures
            final(self).spec_reg() == spec_bit_insert(old(self).spec_reg(), 12, true),
    {
        let w = osc32k_reg::W::new(self.reg);
        let w = w.wrtlock().bit(true);
        self.reg = w.value();
    }

    fn disable(&mut self)
        ensures
            final(self).spec_reg() == spec_bit_insert(old(self).spec_reg(), 1, false),
    {
        let w = osc32k_reg::W::new(self.reg);
        let w = w.enable().bit(false);
        self.reg = w.value();
    }

    fn wait_ready(&self, status: &Pclksr) -> (r: Result<(), WouldBlock>)
        ensures
            r is Ok <==> status.osc32krdy,
    {
        if status.osc32krdy {
            Ok(())
        } else {
            Err(WouldBlock)
        }
    }
}

/// The oscillator with its in-memory configuration, not yet enabled.
pub struct Osc32k {
    token: Osc32kToken,
    run_standby: bool,
    on_demand_mode: bool,
    start_up: Startup,
}

/// An enabled internal 32 kHz oscillator.
pub type EnabledOsc32k = Enabled<Osc32k>;

impl Osc32k {
    /// The owned register token.
    pub closed spec fn spec_token(&self) -> Osc32kToken {
        self.token
    }

    /// The configured run-in-standby choice.
    pub closed spec fn spec_run_standby(&self) -> bool {
        self.run_standby
    }

    /// The configured on-demand choice.
    pub closed spec fn spec_on_demand(&self) -> bool {
        self.on_demand_mode
    }

    /// The configured start-up time.
    pub closed spec fn spec_start_up(&self) -> Startup {
        self.start_up
    }

    /// The register value that [`Osc32k::enable`] stores: the configuration
    /// fields, the 32 kHz output enable and the oscillator enable bit.
    pub open spec fn spec_enable_reg(reg: u32, on_demand: bool, run_standby: bool, startup: u8) -> u32 {
        spec_bit_insert(
            spec_bit_insert(
                spec_field_insert(
                    spec_bit_insert(spec_bit_insert(reg, 7, on_demand), 6, run_standby),
                    8,
                    0x07,
                    startup,
                ),
                2,
                true,
            ),
            1,
            true,
        )
    }

    /// The oscillator state after [`Osc32k::enable`] has run.
    pub closed spec fn spec_enabled_state(self) -> Osc32k {
        Osc32k {
            token: Osc32kToken {
                reg: Self::spec_enable_reg(
                    self.token.reg,
                    self.on_demand_mode,
                    self.run_standby,
                    spec_startup_bits(self.start_up),
                ),
            },
            ..self
        }
    }

    /// The oscillator state after an enabled handle has been disabled: the
    /// enable bit and the 32 kHz output enable are cleared, nothing else
    /// changes.
    pub closed spec fn spec_disabled_state(self) -> Osc32k {
        Osc32k {
            token: Osc32kToken {
                reg: spec_bit_insert(spec_bit_insert(self.token.reg, 1, false), 2, false),
            },
            ..self
        }
    }

    /// Wrap a token with the default configuration. No hardware effect.
    pub fn new(token: Osc32kToken) -> (osc: Osc32k)
        ensures
            osc.spec_token() == token,
            !osc.spec_run_standby(),
            osc.spec_on_demand(),
            osc.spec_start_up() == Startup::CYCLE66,
    {
        Osc32k { token, run_standby: false, on_demand_mode: true, start_up: Startup::CYCLE66 }
    }

    /// Give the token back.
    pub fn free(self) -> (token: Osc32kToken)
        ensures
            token == self.spec_token(),
    {
        self.token
    }

    /// Choose for how long the clock output stays masked during start-up.
    pub fn start_up(self, start_up: Startup) -> (osc: Osc32k)
        ensures
            osc.spec_start_up() == start_up,
            osc.spec_token() == self.spec_token(),
            osc.spec_run_standby() == self.spec_run_standby(),
            osc.spec_on_demand() == self.spec_on_demand(),
    {
        Osc32k { start_up, ..self }
    }

    /// Choose whether the oscillator only runs while a peripheral requests it.
    pub fn on_demand(self, on_demand: bool) -> (osc: Osc32k)
        ensures
            osc.spec_on_demand() == on_demand,
            osc.spec_token() == self.spec_token(),
            osc.spec_run_standby() == self.spec_run_standby(),
            osc.spec_start_up() == self.spec_start_up(),
    {
        Osc32k { on_demand_mode: on_demand, ..self }
    }

    /// Choose whether the oscillator keeps running during standby.
    pub fn run_standby(self, run_standby: bool) -> (osc: Osc32k)
        ensures
            osc.spec_run_standby() == run_standby,
            osc.spec_token() == self.spec_token(),
            osc.spec_on_demand() == self.spec_on_demand(),
            osc.spec_start_up() == self.spec_start_up(),
    {
        Osc32k { run_standby, ..self }
    }

    /// Decide from a captured status word whether the oscillator is ready.
    pub fn wait_ready(&self, status: &Pclksr) -> (r: Result<(), WouldBlock>)
        ensures
            r is Ok <==> status.osc32krdy,
    {
        self.token.wait_ready(status)
    }

    /// Override the factory-default calibration value in the register.
    pub fn set_calibration(&mut self, calib: u8)
        ensures
            final(self).spec_token().spec_reg() == spec_field_insert(
                old(self).spec_token().spec_reg(),
                16,
                0x7f,
                calib,
            ),
            final(self).spec_run_standby() == old(self).spec_run_standby(),
            final(self).spec_on_demand() == old(self).spec_on_demand(),
            final(self).spec_start_up() == old(self).spec_start_up(),
    {
        self.token.set_calibration(calib);
    }

    /// Set the write-lock bit, which lasts until power-on reset, and consume
    /// the handle so that no further register access is possible.
    pub fn write_lock(self) {
        let mut this = self;
        this.token.wrtlock();
    }

    /// Write the stored configuration to the register, set the output and
    /// enable bits, and hand back an enabled handle with no users.
    pub fn enable(self) -> (enabled: EnabledOsc32k)
        ensures
            enabled.spec_users() == 0,
            enabled.spec_item() == self.spec_enabled_state(),
            enabled.spec_item().spec_run_standby() == self.spec_run_standby(),
            enabled.spec_item().spec_on_demand() == self.spec_on_demand(),
            enabled.spec_item().spec_start_up() == self.spec_start_up(),
            enabled.spec_item().spec_token().spec_reg() == Self::spec_enable_reg(
                self.spec_token().spec_reg(),
                self.spec_on_demand(),
                self.spec_run_standby(),
                spec_startup_bits(self.spec_start_up()),
            ),
    {
        let mut this = self;
        this.token.set_on_demand(this.on_demand_mode);
        this.token.set_run_standby(this.run_standby);
        this.token.set_start_up(this.start_up);
        this.token.enable_32k(true);
        this.token.enable();
        Enabled::new(this)
    }
}

impl EnabledOsc32k {
    /// Set the write-lock bit, which lasts until power-on reset, and consume
    /// the handle so that no further register access is possible.
    pub fn write_lock(self) {
        let mut this = self;
        this.item.token.wrtlock();
    }

    /// Clear the enable and output bits and return the configured handle.
    /// Only a clock with no remaining users can be disabled.
    pub fn disable(self) -> (osc: Osc32k)
        requires
            self.spec_users() == 0,
        ensures
            osc == self.spec_item().spec_disabled_state(),
            osc.spec_run_standby() == self.spec_item().spec_run_standby(),
            osc.spec_on_demand() == self.spec_item().spec_on_demand(),
            osc.spec_start_up() == self.spec_item().spec_start_up(),
            osc.spec_token().spec_reg() == spec_bit_insert(
                spec_bit_insert(self.spec_item().spec_token().spec_reg(), 1, false),
                2,
                false,
            ),
    {
        let mut this = self;
        this.item.token.disable();
        this.item.token.enable_32k(false);
        this.item
    }
}

impl Source for Osc32k {
    type Id = Osc32kId;

    open spec fn wf(&self) -> bool {
        true
    }

    open spec fn freq_spec(&self) -> u32 {
        32_768
    }

    fn freq(&self) -> (f: Hertz) {
        Hertz(32_768)
    }
}

/// Enabling and then disabling an oscillator hands back a handle whose
/// configuration record is identical to the one before enabling.
pub proof fn lemma_osc32k_enable_disable_roundtrip(osc: Osc32k)
    ensures
        osc.spec_enabled_state().spec_disabled_state().spec_run_standby() == osc.spec_run_standby(),
        osc.spec_enabled_state().spec_disabled_state().spec_on_demand() == osc.spec_on_demand(),
        osc.spec_enabled_state().spec_disabled_state().spec_start_up() == osc.spec_start_up(),
{
}

} // verus!

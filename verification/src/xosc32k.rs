//! The external 32 kHz oscillator.
//!
//! A fixed 32768 Hz source, driven either by an external clock signal or by
//! a watch crystal. It can feed the phase-locked loop or a clock generator.

use vstd::prelude::*;

use crate::enabled::Enabled;
use crate::enabled::Source;
use crate::status::Pclksr;
use crate::status::WouldBlock;
use crate::time::Hertz;

verus! {

/// Type-level identity tag of the external 32 kHz oscillator.
pub struct Xosc32kId;

/// The fields of the oscillator's control register, as a specification view.
#[derive(Clone, Copy, PartialEq, Eq, Structural, Debug)]
pub struct Xosc32kReg {
    /// Oscillator enable.
    pub enable: bool,
    /// Crystal-oscillator enable: set when a crystal drives the pins.
    pub xtalen: bool,
    /// 32 kHz output enable.
    pub en32k: bool,
    /// On-demand control.
    pub ondemand: bool,
    /// Run in standby.
    pub runstdby: bool,
}

/// Token proving exclusive ownership of the oscillator's control register.
pub struct Xosc32kToken {
    regs: Xosc32kReg,
}

impl Xosc32kToken {
    /// The current fields of the owned control register.
    pub closed spec fn spec_regs(&self) -> Xosc32kReg {
        self.regs
    }

    /// Issue the one token, holding the register's power-on reset state.
    pub(crate) fn new() -> (t: Xosc32kToken)
        ensures
            t.spec_regs() == (Xosc32kReg {
                enable: false,
                xtalen: false,
                en32k: false,
                ondemand: true,
                runstdby: false,
            }),
    {
        Xosc32kToken {
            regs: Xosc32kReg {
                enable: false,
                xtalen: false,
                en32k: false,
                ondemand: true,
                runstdby: false,
            },
        }
    }

    fn wait_ready(&self, status: &Pclksr) -> (r: Result<(), WouldBlock>)
        ensures
            r is Ok <==> status.xosc32krdy,
    {
        if status.xosc32krdy {
            Ok(())
        } else {
            Err(WouldBlock)
        }
    }
}

/// The oscillator with its in-memory configuration.
pub struct Xosc32k {
    token: Xosc32kToken,
    from_crystal: bool,
    on_demand: bool,
    run_standby: bool,
}

/// An enabled external 32 kHz oscillator.
pub type EnabledXosc32k = Enabled<Xosc32k>;

impl Xosc32k {
    /// The owned register token.
    pub closed spec fn spec_token(&self) -> Xosc32kToken {
        self.token
    }

    /// Whether a crystal drives the pins.
    pub closed spec fn spec_from_crystal(&self) -> bool {
        self.from_crystal
    }

    /// The configured on-demand choice.
    pub closed spec fn spec_on_demand(&self) -> bool {
        self.on_demand
    }

    /// The configured run-in-standby choice.
    pub closed spec fn spec_run_standby(&self) -> bool {
        self.run_standby
    }

    /// The oscillator state after [`Xosc32k::enable`] has run.
    pub closed spec fn spec_enabled_state(self) -> Xosc32k {
        Xosc32k {
            token: Xosc32kToken {
                regs: Xosc32kReg {
                    enable: true,
                    xtalen: self.from_crystal,
                    en32k: true,
                    ondemand: self.on_demand,
                    runstdby: self.run_standby,
                },
            },
            ..self
        }
    }

    /// The oscillator state after an enabled handle has been disabled.
    pub closed spec fn spec_disabled_state(self) -> Xosc32k {
        Xosc32k {
            token: Xosc32kToken {
                regs: Xosc32kReg { enable: false, en32k: false, ..self.token.regs },
            },
            ..self
        }
    }

    /// Construct the oscillator from a single-pin 32768 Hz clock signal.
    pub fn from_clock(token: Xosc32kToken) -> (osc: Xosc32k)
        ensures
            osc.spec_token() == token,
            !osc.spec_from_crystal(),
            osc.spec_on_demand(),
            !osc.spec_run_standby(),
    {
        Xosc32k { token, from_crystal: false, on_demand: true, run_standby: false }
    }

    /// Construct the oscillator from a two-pin watch crystal.
    pub fn from_crystal(token: Xosc32kToken) -> (osc: Xosc32k)
        ensures
            osc.spec_token() == token,
            osc.spec_from_crystal(),
            osc.spec_on_demand(),
            !osc.spec_run_standby(),
    {
        Xosc32k { token, from_crystal: true, on_demand: true, run_standby: false }
    }

    /// Choose whether the oscillator only runs while a peripheral requests it.
    pub fn on_demand(self, on_demand: bool) -> (osc: Xosc32k)
        ensures
            osc.spec_on_demand() == on_demand,
            osc.spec_token() == self.spec_token(),
            osc.spec_from_crystal() == self.spec_from_crystal(),
            osc.spec_run_standby() == self.spec_run_standby(),
    {
        Xosc32k { on_demand, ..self }
    }

    /// Choose whether the oscillator keeps running during standby.
    pub fn run_standby(self, run_standby: bool) -> (osc: Xosc32k)
        ensures
            osc.spec_run_standby() == run_standby,
            osc.spec_token() == self.spec_token(),
            osc.spec_from_crystal() == self.spec_from_crystal(),
            osc.spec_on_demand() == self.spec_on_demand(),
    {
        Xosc32k { run_standby, ..self }
    }

    /// Give the token back.
    pub fn free(self) -> (token: Xosc32kToken)
        ensures
            token == self.spec_token(),
    {
        self.token
    }

    /// Decide from a captured status word whether the oscillator is ready.
    pub fn wait_ready(&self, status: &Pclksr) -> (r: Result<(), WouldBlock>)
        ensures
            r is Ok <==> status.xosc32krdy,
    {
        self.token.wait_ready(status)
    }

    /// Write the stored configuration to the register, set the output and
    /// enable bits, and hand back an enabled handle with no users.
    pub fn enable(self) -> (enabled: EnabledXosc32k)
        ensures
            enabled.spec_users() == 0,
            enabled.spec_item() == self.spec_enabled_state(),
            enabled.spec_item().spec_from_crystal() == self.spec_from_crystal(),
            enabled.spec_item().spec_on_demand() == self.spec_on_demand(),
            enabled.spec_item().spec_run_standby() == self.spec_run_standby(),
            enabled.spec_item().spec_token().spec_regs() == (Xosc32kReg {
                enable: true,
                xtalen: self.spec_from_crystal(),
                en32k: true,
                ondemand: self.spec_on_demand(),
                runstdby: self.spec_run_standby(),
            }),
    {
        let mut this = self;
        this.token.regs = Xosc32kReg {
            enable: true,
            xtalen: this.from_crystal,
            en32k: true,
            ondemand: this.on_demand,
            runstdby: this.run_standby,
        };
        Enabled::new(this)
    }
}

impl EnabledXosc32k {
    /// Clear the enable and output bits and return the configured handle.
    /// Only a clock with no remaining users can be disabled.
    pub fn disable(self) -> (osc: Xosc32k)
        requires
            self.spec_users() == 0,
        ensures
            osc == self.spec_item().spec_disabled_state(),
            osc.spec_from_crystal() == self.spec_item().spec_from_crystal(),
            osc.spec_on_demand() == self.spec_item().spec_on_demand(),
            osc.spec_run_standby() == self.spec_item().spec_run_standby(),
            osc.spec_token().spec_regs() == (Xosc32kReg {
                enable: false,
                en32k: false,
                ..self.spec_item().spec_token().spec_regs()
            }),
    {
        let mut this = self;
        this.item.token.regs.enable = false;
        this.item.token.regs.en32k = false;
        this.item
    }
}

/// Enabling and then disabling the oscillator hands back a handle whose
/// configuration record is identical to the one before enabling.
pub proof fn lemma_xosc32k_enable_disable_roundtrip(osc: Xosc32k)
    ensures
        osc.spec_enabled_state().spec_disabled_state().spec_from_crystal() == osc.spec_from_crystal(),
        osc.spec_enabled_state().spec_disabled_state().spec_on_demand() == osc.spec_on_demand(),
        osc.spec_enabled_state().spec_disabled_state().spec_run_standby() == osc.spec_run_standby(),
{
}

impl Source for Xosc32k {
    type Id = Xosc32kId;

    open spec fn wf(&self) -> bool {
        true
    }

    open spec fn freq_spec(&self) -> u32 {
        32_768
    }

    fn freq(&self) -> (f: Hertz) {
        Hertz(32_768)
    }
}

} // verus!

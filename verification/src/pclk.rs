//! Peripheral channel clocks.
//!
//! A peripheral channel clock is the last element of the clock chain, bound
//! 1:1 to one peripheral and sourced from any enabled clock generator.
//! Enabling a channel selects the generator, sets the channel's enable bit,
//! records the generator's frequency at that moment, and counts the channel
//! as one user of the generator; disabling undoes both.

use vstd::prelude::*;

use core::marker::PhantomData;

use crate::enabled::Enabled;
use crate::enabled::Source;
use crate::gclk::DynGclkId;
use crate::gclk::GclkId;
use crate::time::Hertz;

verus! {

/// Value-level identity of a peripheral channel clock.
///
/// Each variant maps through [`DynPclkId::chan`] to the index of the
/// channel's slot in the hardware's channel-control register.
#[derive(Clone, Copy, PartialEq, Eq, Structural, Debug)]
#[allow(missing_docs)]
pub enum DynPclkId {
    Dfll,
    Dpll,
    Dpll32k,
    Wdt,
    Rtc,
    Eic,
    Usb,
    EvSys0,
    EvSys1,
    EvSys2,
    EvSys3,
    EvSys4,
    EvSys5,
    EvSys6,
    EvSys7,
    EvSys8,
    EvSys9,
    EvSys10,
    EvSys11,
    Slow,
    Sercom0,
    Sercom1,
    Sercom2,
    Sercom3,
    Tcc0Tcc1,
    Tcc2Tc3,
    Tc4Tc5,
    Adc,
    AcDig,
    AcAna,
    Dac,
    I2s0,
    I2s1,
}

/// The channel-control register index of each channel.
pub open spec fn spec_pclk_chan(id: DynPclkId) -> u8 {
    match id {
        DynPclkId::Dfll => 0,
        DynPclkId::Dpll => 1,
        DynPclkId::Dpll32k => 2,
        DynPclkId::Wdt => 3,
        DynPclkId::Rtc => 4,
        DynPclkId::Eic => 5,
        DynPclkId::Usb => 6,
        DynPclkId::EvSys0 => 7,
        DynPclkId::EvSys1 => 8,
        DynPclkId::EvSys2 => 9,
        DynPclkId::EvSys3 => 10,
        DynPclkId::EvSys4 => 11,
        DynPclkId::EvSys5 => 12,
        DynPclkId::EvSys6 => 13,
        DynPclkId::EvSys7 => 14,
        DynPclkId::EvSys8 => 15,
        DynPclkId::EvSys9 => 16,
        DynPclkId::EvSys10 => 17,
        DynPclkId::EvSys11 => 18,
        DynPclkId::Slow => 19,
        DynPclkId::Sercom0 => 20,
        DynPclkId::Sercom1 => 21,
        DynPclkId::Sercom2 => 22,
        DynPclkId::Sercom3 => 23,
        DynPclkId::Tcc0Tcc1 => 26,
        DynPclkId::Tcc2Tc3 => 27,
        DynPclkId::Tc4Tc5 => 28,
        DynPclkId::Adc => 30,
        DynPclkId::AcDig => 31,
        DynPclkId::AcAna => 32,
        DynPclkId::Dac => 33,
        DynPclkId::I2s0 => 35,
        DynPclkId::I2s1 => 36,
    }
}

impl DynPclkId {
    /// The index of this channel's slot in the channel-control register.
    pub fn chan(&self) -> (n: u8)
        ensures
            n == spec_pclk_chan(*self),
    {
        match self {
            DynPclkId::Dfll => 0,
            DynPclkId::Dpll => 1,
            DynPclkId::Dpll32k => 2,
            DynPclkId::Wdt => 3,
            DynPclkId::Rtc => 4,
            DynPclkId::Eic => 5,
            DynPclkId::Usb => 6,
            DynPclkId::EvSys0 => 7,
            DynPclkId::EvSys1 => 8,
            DynPclkId::EvSys2 => 9,
            DynPclkId::EvSys3 => 10,
            DynPclkId::EvSys4 => 11,
            DynPclkId::EvSys5 => 12,
            DynPclkId::EvSys6 => 13,
            DynPclkId::EvSys7 => 14,
            DynPclkId::EvSys8 => 15,
            DynPclkId::EvSys9 => 16,
            DynPclkId::EvSys10 => 17,
            DynPclkId::EvSys11 => 18,
            DynPclkId::Slow => 19,
            DynPclkId::Sercom0 => 20,
            DynPclkId::Sercom1 => 21,
            DynPclkId::Sercom2 => 22,
            DynPclkId::Sercom3 => 23,
            DynPclkId::Tcc0Tcc1 => 26,
            DynPclkId::Tcc2Tc3 => 27,
            DynPclkId::Tc4Tc5 => 28,
            DynPclkId::Adc => 30,
            DynPclkId::AcDig => 31,
            DynPclkId::AcAna => 32,
            DynPclkId::Dac => 33,
            DynPclkId::I2s0 => 35,
            DynPclkId::I2s1 => 36,
        }
    }
}

/// Value-level identity of a channel's source; channels are always sourced
/// from a clock generator.
pub type DynPclkSourceId = DynGclkId;

/// Register-level encoding of the generator-select field.
#[derive(Clone, Copy, PartialEq, Eq, Structural, Debug)]
#[allow(missing_docs)]
#[allow(non_camel_case_types)]
pub enum GEN_A {
    GCLK0,
    GCLK1,
    GCLK2,
    GCLK3,
    GCLK4,
    GCLK5,
    GCLK6,
    GCLK7,
}

/// The register field variant selecting a generator.
pub open spec fn spec_gen_variant(source: DynPclkSourceId) -> GEN_A {
    match source {
        DynGclkId::Gclk0 => GEN_A::GCLK0,
        DynGclkId::Gclk1 => GEN_A::GCLK1,
        DynGclkId::Gclk2 => GEN_A::GCLK2,
        DynGclkId::Gclk3 => GEN_A::GCLK3,
        DynGclkId::Gclk4 => GEN_A::GCLK4,
        DynGclkId::Gclk5 => GEN_A::GCLK5,
        DynGclkId::Gclk6 => GEN_A::GCLK6,
        DynGclkId::Gclk7 => GEN_A::GCLK7,
    }
}

impl From<DynPclkSourceId> for GEN_A {
    /// The register field variant selecting a generator.
    fn from(source: DynPclkSourceId) -> (v: GEN_A) {
        match source {
            DynGclkId::Gclk0 => GEN_A::GCLK0,
            DynGclkId::Gclk1 => GEN_A::GCLK1,
            DynGclkId::Gclk2 => GEN_A::GCLK2,
            DynGclkId::Gclk3 => GEN_A::GCLK3,
            DynGclkId::Gclk4 => GEN_A::GCLK4,
            DynGclkId::Gclk5 => GEN_A::GCLK5,
            DynGclkId::Gclk6 => GEN_A::GCLK6,
            DynGclkId::Gclk7 => GEN_A::GCLK7,
        }
    }
}

impl vstd::std_specs::convert::FromSpecImpl<DynPclkSourceId> for GEN_A {
    open spec fn obeys_from_spec() -> bool {
        true
    }

    open spec fn from_spec(source: DynPclkSourceId) -> GEN_A {
        spec_gen_variant(source)
    }
}

/// Type-level constraint on channel sources: only clock generators qualify.
pub trait PclkSourceId: GclkId {
}

impl<G: GclkId> PclkSourceId for G {
}

/// Token proving exclusive ownership of one channel's control-register slot.
///
/// The token records which channel it addresses and owns the channel's
/// generator-select and enable fields.
pub struct PclkToken {
    id: DynPclkId,
    gen: GEN_A,
    clken: bool,
}

impl PclkToken {
    /// The channel this token addresses.
    pub closed spec fn spec_id(&self) -> DynPclkId {
        self.id
    }

    /// The generator-select field of the owned slot.
    pub closed spec fn spec_gen(&self) -> GEN_A {
        self.gen
    }

    /// The enable field of the owned slot.
    pub closed spec fn spec_clken(&self) -> bool {
        self.clken
    }

    /// Issue the token for one channel, holding the slot's reset state.
    pub(crate) fn new(id: DynPclkId) -> (t: PclkToken)
        ensures
            t.spec_id() == id,
            t.spec_gen() == GEN_A::GCLK0,
            !t.spec_clken(),
    {
        PclkToken { id, gen: GEN_A::GCLK0, clken: false }
    }

    fn set_source(&mut self, source: DynPclkSourceId)
        ensures
            final(self).spec_id() == old(self).spec_id(),
            final(self).spec_gen() == spec_gen_variant(source),
            final(self).spec_clken() == old(self).spec_clken(),
    {
        self.gen = GEN_A::from(source);
    }

    fn enable(&mut self)
        ensures
            final(self).spec_id() == old(self).spec_id(),
            final(self).spec_gen() == old(self).spec_gen(),
            final(self).spec_clken(),
    {
        self.clken = true;
    }

    fn disable(&mut self)
        ensures
            final(self).spec_id() == old(self).spec_id(),
            final(self).spec_gen() == old(self).spec_gen(),
            !final(self).spec_clken(),
    {
        self.clken = false;
    }
}

/// An enabled peripheral channel clock, sourced from generator `G`.
pub struct Pclk<G: PclkSourceId> {
    token: PclkToken,
    src: PhantomData<G>,
    freq: Hertz,
}

impl<G: PclkSourceId> Pclk<G> {
    /// The owned channel token.
    pub closed spec fn spec_token(&self) -> PclkToken {
        self.token
    }

    /// The frequency recorded from the generator at enable time.
    pub closed spec fn spec_freq(&self) -> u32 {
        self.freq.0
    }

    /// Select the generator, set the channel enable bit, record the
    /// generator's frequency, and count the channel as one more user of the
    /// generator.
    pub fn enable<T: Source<Id = G>>(token: PclkToken, gclk: Enabled<T>) -> (r: (
        Pclk<G>,
        Enabled<T>,
    ))
        requires
            gclk.wf(),
            gclk.spec_users() < u32::MAX,
        ensures
            r.0.spec_token().spec_id() == token.spec_id(),
            r.0.spec_token().spec_gen() == spec_gen_variant(G::spec_dyn()),
            r.0.spec_token().spec_clken(),
            r.0.spec_freq() == gclk.freq_spec(),
            r.1.spec_item() == gclk.spec_item(),
            r.1.spec_users() == gclk.spec_users() + 1,
    {
        let mut token = token;
        let freq = gclk.freq();
        token.set_source(G::dyn_id());
        token.enable();
        (Pclk { token, src: PhantomData, freq }, gclk.inc())
    }

    /// Clear the channel enable bit, give the token back, and release the
    /// generator.
    pub fn disable<T: Source<Id = G>>(self, gclk: Enabled<T>) -> (r: (PclkToken, Enabled<T>))
        requires
            gclk.spec_users() > 0,
        ensures
            r.0.spec_id() == self.spec_token().spec_id(),
            r.0.spec_gen() == self.spec_token().spec_gen(),
            !r.0.spec_clken(),
            r.1.spec_item() == gclk.spec_item(),
            r.1.spec_users() == gclk.spec_users() - 1,
    {
        let mut this = self;
        this.token.disable();
        (this.token, gclk.dec())
    }

    /// The frequency recorded when the channel was enabled.
    pub fn freq(&self) -> (f: Hertz)
        ensures
            f.0 == self.spec_freq(),
    {
        self.freq
    }
}

/// The tokens for every peripheral channel clock.
#[allow(missing_docs)]
pub struct Tokens {
    pub dfll: PclkToken,
    pub dpll: PclkToken,
    pub dpll32k: PclkToken,
    pub rtc: PclkToken,
    pub eic: PclkToken,
    pub usb: PclkToken,
    pub ev_sys0: PclkToken,
    pub ev_sys1: PclkToken,
    pub ev_sys2: PclkToken,
    pub ev_sys3: PclkToken,
    pub ev_sys4: PclkToken,
    pub ev_sys5: PclkToken,
    pub ev_sys6: PclkToken,
    pub ev_sys7: PclkToken,
    pub ev_sys8: PclkToken,
    pub ev_sys9: PclkToken,
    pub ev_sys10: PclkToken,
    pub ev_sys11: PclkToken,
    pub slow: PclkToken,
    pub sercom0: PclkToken,
    pub sercom1: PclkToken,
    pub sercom2: PclkToken,
    pub sercom3: PclkToken,
    pub tcc0_tcc1: PclkToken,
    pub tcc2_tc3: PclkToken,
    pub tc4_tc5: PclkToken,
    pub adc: PclkToken,
    pub ac_dig: PclkToken,
    pub ac_ana: PclkToken,
    pub dac: PclkToken,
    pub i2s0: PclkToken,
    pub i2s1: PclkToken,
}

impl Tokens {
    /// Issue the one token per channel. The watchdog channel is not here:
    /// it is already enabled at power-on reset.
    pub(crate) fn new() -> (t: Tokens)
        ensures
            t.dfll.spec_id() == DynPclkId::Dfll,
            t.dpll.spec_id() == DynPclkId::Dpll,
            t.dpll32k.spec_id() == DynPclkId::Dpll32k,
            t.rtc.spec_id() == DynPclkId::Rtc,
            t.eic.spec_id() == DynPclkId::Eic,
            t.usb.spec_id() == DynPclkId::Usb,
            t.ev_sys0.spec_id() == DynPclkId::EvSys0,
            t.ev_sys1.spec_id() == DynPclkId::EvSys1,
            t.ev_sys2.spec_id() == DynPclkId::EvSys2,
            t.ev_sys3.spec_id() == DynPclkId::EvSys3,
            t.ev_sys4.spec_id() == DynPclkId::EvSys4,
            t.ev_sys5.spec_id() == DynPclkId::EvSys5,
            t.ev_sys6.spec_id() == DynPclkId::EvSys6,
            t.ev_sys7.spec_id() == DynPclkId::EvSys7,
            t.ev_sys8.spec_id() == DynPclkId::EvSys8,
            t.ev_sys9.spec_id() == DynPclkId::EvSys9,
            t.ev_sys10.spec_id() == DynPclkId::EvSys10,
            t.ev_sys11.spec_id() == DynPclkId::EvSys11,
            t.slow.spec_id() == DynPclkId::Slow,
            t.sercom0.spec_id() == DynPclkId::Sercom0,
            t.sercom1.spec_id() == DynPclkId::Sercom1,
            t.sercom2.spec_id() == DynPclkId::Sercom2,
            t.sercom3.spec_id() == DynPclkId::Sercom3,
            t.tcc0_tcc1.spec_id() == DynPclkId::Tcc0Tcc1,
            t.tcc2_tc3.spec_id() == DynPclkId::Tcc2Tc3,
            t.tc4_tc5.spec_id() == DynPclkId::Tc4Tc5,
            t.adc.spec_id() == DynPclkId::Adc,
            t.ac_dig.spec_id() == DynPclkId::AcDig,
            t.ac_ana.spec_id() == DynPclkId::AcAna,
            t.dac.spec_id() == DynPclkId::Dac,
            t.i2s0.spec_id() == DynPclkId::I2s0,
            t.i2s1.spec_id() == DynPclkId::I2s1,
    {
        Tokens {
            dfll: PclkToken::new(DynPclkId::Dfll),
            dpll: PclkToken::new(DynPclkId::Dpll),
            dpll32k: PclkToken::new(DynPclkId::Dpll32k),
            rtc: PclkToken::new(DynPclkId::Rtc),
            eic: PclkToken::new(DynPclkId::Eic),
            usb: PclkToken::new(DynPclkId::Usb),
            ev_sys0: PclkToken::new(DynPclkId::EvSys0),
            ev_sys1: PclkToken::new(DynPclkId::EvSys1),
            ev_sys2: PclkToken::new(DynPclkId::EvSys2),
            ev_sys3: PclkToken::new(DynPclkId::EvSys3),
            ev_sys4: PclkToken::new(DynPclkId::EvSys4),
            ev_sys5: PclkToken::new(DynPclkId::EvSys5),
            ev_sys6: PclkToken::new(DynPclkId::EvSys6),
            ev_sys7: PclkToken::new(DynPclkId::EvSys7),
            ev_sys8: PclkToken::new(DynPclkId::EvSys8),
            ev_sys9: PclkToken::new(DynPclkId::EvSys9),
            ev_sys10: PclkToken::new(DynPclkId::EvSys10),
            ev_sys11: PclkToken::new(DynPclkId::EvSys11),
            slow: PclkToken::new(DynPclkId::Slow),
            sercom0: PclkToken::new(DynPclkId::Sercom0),
            sercom1: PclkToken::new(DynPclkId::Sercom1),
            sercom2: PclkToken::new(DynPclkId::Sercom2),
            sercom3: PclkToken::new(DynPclkId::Sercom3),
            tcc0_tcc1: PclkToken::new(DynPclkId::Tcc0Tcc1),
            tcc2_tc3: PclkToken::new(DynPclkId::Tcc2Tc3),
            tc4_tc5: PclkToken::new(DynPclkId::Tc4Tc5),
            adc: PclkToken::new(DynPclkId::Adc),
            ac_dig: PclkToken::new(DynPclkId::AcDig),
            ac_ana: PclkToken::new(DynPclkId::AcAna),
            dac: PclkToken::new(DynPclkId::Dac),
            i2s0: PclkToken::new(DynPclkId::I2s0),
            i2s1: PclkToken::new(DynPclkId::I2s1),
        }
    }
}

} // verus!

//! The digital phase-locked loop.
//!
//! The loop multiplies a reference clock: from an input of frequency `f`
//! divided by a predivider `d`, an integer multiplier `m` and a 5-bit
//! fractional part `k` it produces `(f / d) * (m + k / 32)`, computed in
//! integer arithmetic. [`Dpll::enable`] checks the hardware's windows first
//! — predivider within 1 to 2048, effective input within 32 kHz to 3.2 MHz,
//! output within 48 MHz to 96 MHz — and writes no register field unless all
//! of them hold; on a violation the caller gets the configuration back
//! exactly as it was.
//!
//! The reference may be a peripheral channel clock, the external
//! multi-megahertz oscillator (the only source with a real predivider), or
//! the external 32 kHz oscillator.

use vstd::prelude::*;

use crate::enabled::Enabled;
use crate::enabled::Source;
use crate::gclk::GclkId;
use crate::pclk::DynPclkId;
use crate::pclk::Pclk;
use crate::status::DpllStatus;
use crate::status::WouldBlock;
use crate::time::Hertz;
use crate::xosc::XoscId;
use crate::xosc32k::Xosc32kId;

verus! {

/// Type-level identity tag of the phase-locked loop.
pub struct DpllId;

/// Raw predivider for a crystal-driven loop.
///
/// The actual division factor of the loop input is `2 * (raw_prediv + 1)`
/// when the external oscillator drives the loop, and 1 for every other
/// source.
pub type RawPredivider = u16;

/// Value-level identity of the loop's reference source.
#[derive(Clone, Copy, PartialEq, Eq, Structural, Debug)]
pub enum DynDpllSourceId {
    /// Driven by a peripheral channel clock.
    Pclk,
    /// Driven by the external multi-megahertz oscillator.
    Xosc,
    /// Driven by the external 32 kHz oscillator.
    Xosc32k,
}

/// Register-level encoding of the reference-clock select field.
#[derive(Clone, Copy, PartialEq, Eq, Structural, Debug)]
#[allow(missing_docs)]
#[allow(non_camel_case_types)]
pub enum REFCLK_A {
    REF0,
    REF1,
    GCLK,
}

/// The register field variant selecting a reference source.
pub open spec fn spec_refclk_variant(source: DynDpllSourceId) -> REFCLK_A {
    match source {
        DynDpllSourceId::Pclk => REFCLK_A::GCLK,
        DynDpllSourceId::Xosc => REFCLK_A::REF1,
        DynDpllSourceId::Xosc32k => REFCLK_A::REF0,
    }
}

impl From<DynDpllSourceId> for REFCLK_A {
    /// The register field variant selecting a reference source.
    fn from(source: DynDpllSourceId) -> (v: REFCLK_A) {
        match source {
            DynDpllSourceId::Pclk => REFCLK_A::GCLK,
            DynDpllSourceId::Xosc => REFCLK_A::REF1,
            DynDpllSourceId::Xosc32k => REFCLK_A::REF0,
        }
    }
}

impl vstd::std_specs::convert::FromSpecImpl<DynDpllSourceId> for REFCLK_A {
    open spec fn obeys_from_spec() -> bool {
        true
    }

    open spec fn from_spec(source: DynDpllSourceId) -> REFCLK_A {
        spec_refclk_variant(source)
    }
}

/// Type-level identity of the loop's reference source.
///
/// Implemented by every clock-generator identity (reference through a
/// peripheral channel clock), by the external oscillator identity and by
/// the external 32 kHz oscillator identity.
pub trait DpllSourceId {
    /// The channel-clock value held while this source drives the loop:
    /// the channel clock itself for a generator-driven loop, nothing for
    /// the oscillator-driven ones.
    type Pclk;

    /// The value-level source identity.
    spec fn spec_dyn() -> DynDpllSourceId;

    /// The division factor the raw predivider stands for with this source.
    spec fn spec_prediv(raw_prediv: RawPredivider) -> u32;

    /// Return the value-level source identity.
    fn dyn_id() -> (id: DynDpllSourceId)
        ensures
            id == Self::spec_dyn(),
    ;

    /// Compute the division factor of the raw predivider; always at least 1.
    fn predivider(raw_prediv: RawPredivider) -> (d: u32)
        ensures
            d == Self::spec_prediv(raw_prediv),
            d >= 1,
    ;
}

impl<G: GclkId> DpllSourceId for G {
    type Pclk = Pclk<G>;

    open spec fn spec_dyn() -> DynDpllSourceId {
        DynDpllSourceId::Pclk
    }

    open spec fn spec_prediv(raw_prediv: RawPredivider) -> u32 {
        1
    }

    fn dyn_id() -> DynDpllSourceId {
        DynDpllSourceId::Pclk
    }

    fn predivider(raw_prediv: RawPredivider) -> u32 {
        1
    }
}

impl DpllSourceId for XoscId {
    type Pclk = ();

    open spec fn spec_dyn() -> DynDpllSourceId {
        DynDpllSourceId::Xosc
    }

    open spec fn spec_prediv(raw_prediv: RawPredivider) -> u32 {
        (2 * (1 + raw_prediv as u32)) as u32
    }

    fn dyn_id() -> DynDpllSourceId {
        DynDpllSourceId::Xosc
    }

    fn predivider(raw_prediv: RawPredivider) -> u32 {
        2 * (1 + raw_prediv as u32)
    }
}

impl DpllSourceId for Xosc32kId {
    type Pclk = ();

    open spec fn spec_dyn() -> DynDpllSourceId {
        DynDpllSourceId::Xosc32k
    }

    open spec fn spec_prediv(raw_prediv: RawPredivider) -> u32 {
        1
    }

    fn dyn_id() -> DynDpllSourceId {
        DynDpllSourceId::Xosc32k
    }

    fn predivider(raw_prediv: RawPredivider) -> u32 {
        1
    }
}

/// The fields of the loop's control registers, as a specification view.
#[derive(Clone, Copy, PartialEq, Eq, Structural, Debug)]
pub struct DpllReg {
    /// Loop enable.
    pub enable: bool,
    /// On-demand control.
    pub ondemand: bool,
    /// Reference-clock select field.
    pub refclk: REFCLK_A,
    /// Reference divider field, used only with the external oscillator.
    pub div: u16,
    /// Integer loop-divider field; holds the multiplier less one.
    pub ldr: u16,
    /// Fractional loop-divider field.
    pub ldrfrac: u8,
    /// Lock bypass.
    pub lbypass: bool,
    /// Wake up fast.
    pub wuf: bool,
}

/// Token proving exclusive ownership of the loop's control registers.
pub struct DpllToken {
    regs: DpllReg,
}

impl DpllToken {
    /// The current fields of the owned control registers.
    pub closed spec fn spec_regs(&self) -> DpllReg {
        self.regs
    }

    /// Issue the one token, holding the registers' power-on reset state.
    pub(crate) fn new() -> (t: DpllToken)
        ensures
            t.spec_regs() == (DpllReg {
                enable: false,
                ondemand: true,
                refclk: REFCLK_A::REF0,
                div: 0,
                ldr: 0,
                ldrfrac: 0,
                lbypass: false,
                wuf: false,
            }),
    {
        DpllToken {
            regs: DpllReg {
                enable: false,
                ondemand: true,
                refclk: REFCLK_A::REF0,
                div: 0,
                ldr: 0,
                ldrfrac: 0,
                lbypass: false,
                wuf: false,
            },
        }
    }

    fn set_loop_div(&mut self, mult: u16, frac: u8)
        requires
            mult >= 1,
        ensures
            final(self).spec_regs() == (DpllReg {
                ldr: ((mult - 1) as u16) & 0xfff,
                ldrfrac: frac & 0xf,
                ..old(self).spec_regs()
            }),
    {
        self.regs.ldr = (mult - 1) & 0xfff;
        self.regs.ldrfrac = frac & 0xf;
    }

    fn set_source_clock(&mut self, source: DynDpllSourceId)
        ensures
            final(self).spec_regs() == (DpllReg {
                refclk: spec_refclk_variant(source),
                ..old(self).spec_regs()
            }),
    {
        self.regs.refclk = REFCLK_A::from(source);
    }

    fn set_source_div(&mut self, div: u16)
        ensures
            final(self).spec_regs() == (DpllReg { div: div & 0x3ff, ..old(self).spec_regs() }),
    {
        self.regs.div = div & 0x3ff;
    }

    fn set_lock_bypass(&mut self, bypass: bool)
        ensures
            final(self).spec_regs() == (DpllReg { lbypass: bypass, ..old(self).spec_regs() }),
    {
        self.regs.lbypass = bypass;
    }

    fn set_wake_up_fast(&mut self, wuf: bool)
        ensures
            final(self).spec_regs() == (DpllReg { wuf, ..old(self).spec_regs() }),
    {
        self.regs.wuf = wuf;
    }

    fn set_on_demand(&mut self, on_demand: bool)
        ensures
            final(self).spec_regs() == (DpllReg { ondemand: on_demand, ..old(self).spec_regs() }),
    {
        self.regs.ondemand = on_demand;
    }

    fn enable(&mut self)
        ensures
            final(self).spec_regs() == (DpllReg { enable: true, ..old(self).spec_regs() }),
    {
        self.regs.enable = true;
    }

    fn disable(&mut self)
        ensures
            final(self).spec_regs() == (DpllReg { enable: false, ..old(self).spec_regs() }),
    {
        self.regs.enable = false;
    }

    fn wait_until_ready(&self, status: &DpllStatus) -> (r: Result<(), WouldBlock>)
        ensures
            r is Ok <==> status.clkrdy,
    {
        if status.clkrdy {
            Ok(())
        } else {
            Err(WouldBlock)
        }
    }

    fn wait_until_locked(&self, status: &DpllStatus) -> (r: Result<(), WouldBlock>)
        ensures
            r is Ok <==> status.lock,
    {
        if status.lock {
            Ok(())
        } else {
            Err(WouldBlock)
        }
    }
}

/// The loop output frequency: the effective input times the multiplier,
/// with the fractional part rounded down as the hardware divider does.
pub open spec fn spec_dpll_output(src: u32, prediv: u32, mult: u16, frac: u8) -> int {
    ((src as int) / (prediv as int)) * ((mult as int) + (frac as int) / 32)
}

/// The hardware-mandated windows: predivider within 1 to 2048, effective
/// input within 32 kHz to 3.2 MHz, output within 48 MHz to 96 MHz.
pub open spec fn spec_dpll_valid(src: u32, prediv: u32, mult: u16, frac: u8) -> bool {
    &&& 1 <= prediv <= 2048
    &&& 32_000 <= (src as int) / (prediv as int) <= 3_200_000
    &&& 48_000_000 <= spec_dpll_output(src, prediv, mult, frac) <= 96_000_000
}

/// The loop with its in-memory configuration, not yet enabled.
pub struct Dpll<I: DpllSourceId> {
    token: DpllToken,
    src_freq: Hertz,
    mult: u16,
    frac: u8,
    lock_bypass: bool,
    wake_up_fast: bool,
    on_demand: bool,
    pclk: I::Pclk,
    raw_prediv: RawPredivider,
}

/// An enabled phase-locked loop.
pub type EnabledDpll<I> = Enabled<Dpll<I>>;

impl<I: DpllSourceId> Dpll<I> {
    /// The owned register token.
    pub closed spec fn spec_token(&self) -> DpllToken {
        self.token
    }

    /// The reference frequency recorded at construction.
    pub closed spec fn spec_src_freq(&self) -> u32 {
        self.src_freq.0
    }

    /// The configured integer multiplier.
    pub closed spec fn spec_mult(&self) -> u16 {
        self.mult
    }

    /// The configured fractional multiplier, in 32nds.
    pub closed spec fn spec_frac(&self) -> u8 {
        self.frac
    }

    /// The configured lock-bypass choice.
    pub closed spec fn spec_lock_bypass(&self) -> bool {
        self.lock_bypass
    }

    /// The configured wake-up-fast choice.
    pub closed spec fn spec_wake_up_fast(&self) -> bool {
        self.wake_up_fast
    }

    /// The configured on-demand choice.
    pub closed spec fn spec_on_demand(&self) -> bool {
        self.on_demand
    }

    /// The held channel-clock value.
    pub closed spec fn spec_pclk(&self) -> I::Pclk {
        self.pclk
    }

    /// The configured raw predivider.
    pub closed spec fn spec_raw_prediv(&self) -> RawPredivider {
        self.raw_prediv
    }

    /// The division factor the configuration stands for.
    pub open spec fn spec_prediv_of(&self) -> u32 {
        I::spec_prediv(self.spec_raw_prediv())
    }

    /// The output frequency of this configuration.
    pub open spec fn spec_output(&self) -> int {
        spec_dpll_output(self.spec_src_freq(), self.spec_prediv_of(), self.spec_mult(), self.spec_frac())
    }

    /// Whether this configuration passes the hardware windows.
    pub open spec fn spec_valid(&self) -> bool {
        spec_dpll_valid(self.spec_src_freq(), self.spec_prediv_of(), self.spec_mult(), self.spec_frac())
    }

    /// The loop state after the registers have been written: source select,
    /// reference divider for the crystal source, loop divider, mode flags
    /// and the enable bit.
    pub closed spec fn spec_enabled_state(self) -> Dpll<I> {
        Dpll {
            token: DpllToken {
                regs: DpllReg {
                    enable: true,
                    ondemand: self.on_demand,
                    refclk: spec_refclk_variant(I::spec_dyn()),
                    div: if I::spec_dyn() == DynDpllSourceId::Xosc {
                        self.raw_prediv & 0x3ff
                    } else {
                        self.token.regs.div
                    },
                    ldr: ((self.mult - 1) as u16) & 0xfff,
                    ldrfrac: self.frac & 0xf,
                    lbypass: self.lock_bypass,
                    wuf: self.wake_up_fast,
                },
            },
            ..self
        }
    }

    /// The loop state after an enabled handle has been disabled.
    pub closed spec fn spec_disabled_state(self) -> Dpll<I> {
        Dpll { token: DpllToken { regs: DpllReg { enable: false, ..self.token.regs } }, ..self }
    }

    /// Choose the loop divider: output becomes the effective input times
    /// `int + frac / 32`. No hardware access; validation happens at enable.
    pub fn set_loop_div(self, mult: u16, frac: u8) -> (dpll: Dpll<I>)
        ensures
            dpll.spec_mult() == mult,
            dpll.spec_frac() == frac,
            dpll.spec_token() == self.spec_token(),
            dpll.spec_src_freq() == self.spec_src_freq(),
            dpll.spec_lock_bypass() == self.spec_lock_bypass(),
            dpll.spec_wake_up_fast() == self.spec_wake_up_fast(),
            dpll.spec_on_demand() == self.spec_on_demand(),
            dpll.spec_pclk() == self.spec_pclk(),
            dpll.spec_raw_prediv() == self.spec_raw_prediv(),
    {
        Dpll { mult, frac, ..self }
    }

    /// Choose whether the output runs regardless of lock status.
    pub fn set_lock_bypass(self, bypass: bool) -> (dpll: Dpll<I>)
        ensures
            dpll.spec_lock_bypass() == bypass,
            dpll.spec_token() == self.spec_token(),
            dpll.spec_src_freq() == self.spec_src_freq(),
            dpll.spec_mult() == self.spec_mult(),
            dpll.spec_frac() == self.spec_frac(),
            dpll.spec_wake_up_fast() == self.spec_wake_up_fast(),
            dpll.spec_on_demand() == self.spec_on_demand(),
            dpll.spec_pclk() == self.spec_pclk(),
            dpll.spec_raw_prediv() == self.spec_raw_prediv(),
    {
        Dpll { lock_bypass: bypass, ..self }
    }

    /// Choose whether the output is available before lock on wake-up.
    pub fn set_wake_up_fast(self, wuf: bool) -> (dpll: Dpll<I>)
        ensures
            dpll.spec_wake_up_fast() == wuf,
            dpll.spec_token() == self.spec_token(),
            dpll.spec_src_freq() == self.spec_src_freq(),
            dpll.spec_mult() == self.spec_mult(),
            dpll.spec_frac() == self.spec_frac(),
            dpll.spec_lock_bypass() == self.spec_lock_bypass(),
            dpll.spec_on_demand() == self.spec_on_demand(),
            dpll.spec_pclk() == self.spec_pclk(),
            dpll.spec_raw_prediv() == self.spec_raw_prediv(),
    {
        Dpll { wake_up_fast: wuf, ..self }
    }

    /// Choose whether the loop only runs while a peripheral requests it.
    pub fn set_on_demand(self, on_demand: bool) -> (dpll: Dpll<I>)
        ensures
            dpll.spec_on_demand() == on_demand,
            dpll.spec_token() == self.spec_token(),
            dpll.spec_src_freq() == self.spec_src_freq(),
            dpll.spec_mult() == self.spec_mult(),
            dpll.spec_frac() == self.spec_frac(),
            dpll.spec_lock_bypass() == self.spec_lock_bypass(),
            dpll.spec_wake_up_fast() == self.spec_wake_up_fast(),
            dpll.spec_pclk() == self.spec_pclk(),
            dpll.spec_raw_prediv() == self.spec_raw_prediv(),
    {
        Dpll { on_demand, ..self }
    }

    /// The output frequency of the stored configuration, computed in the
    /// same integer arithmetic the hardware divider uses. The configuration
    /// must yield a representable value.
    pub fn freq(&self) -> (f: Hertz)
        requires
            self.spec_output() <= u32::MAX,
        ensures
            f.0 == self.spec_output(),
    {
        let predivider: u32 = I::predivider(self.raw_prediv);
        Hertz(self.src_freq.0 / predivider * (self.mult as u32 + self.frac as u32 / 32))
    }

    /// Validate the stored configuration against the hardware windows and,
    /// only if every window holds, write the registers and enable the loop.
    /// On a violation nothing is written and the caller gets the
    /// configuration back unchanged.
    pub fn enable(self) -> (r: Result<EnabledDpll<I>, Dpll<I>>)
        ensures
            r is Ok <==> self.spec_valid(),
            r matches Ok(enabled) ==> {
                &&& enabled.spec_users() == 0
                &&& enabled.spec_item() == self.spec_enabled_state()
                &&& enabled.spec_item().spec_src_freq() == self.spec_src_freq()
                &&& enabled.spec_item().spec_mult() == self.spec_mult()
                &&& enabled.spec_item().spec_frac() == self.spec_frac()
                &&& enabled.spec_item().spec_raw_prediv() == self.spec_raw_prediv()
                &&& enabled.spec_item().spec_output() == self.spec_output()
                &&& enabled.wf()
            },
            r matches Err(dpll) ==> dpll == self,
    {
        let predivider: u32 = I::predivider(self.raw_prediv);
        let input_frequency: u32 = self.src_freq.0 / predivider;
        let factor: u32 = self.mult as u32 + self.frac as u32 / 32;
        proof {
            assert((input_frequency as u64) * (factor as u64) <= u64::MAX) by (nonlinear_arith)
                requires
                    input_frequency <= u32::MAX,
                    factor <= u32::MAX,
            ;
        }
        let output: u64 = (input_frequency as u64) * (factor as u64);

        if predivider <= 2048 && 32_000 <= input_frequency && input_frequency <= 3_200_000
            && 48_000_000 <= output && output <= 96_000_000 {
            proof {
                assert(factor >= 15) by (nonlinear_arith)
                    requires
                        48_000_000 <= (input_frequency as u64) * (factor as u64),
                        input_frequency <= 3_200_000,
                ;
            }
            Ok(self.force_enable())
        } else {
            Err(self)
        }
    }

    /// Write the registers and enable the loop without checking the
    /// windows. The multiplier must be at least 1, since the hardware field
    /// stores it less one.
    pub fn force_enable(self) -> (enabled: EnabledDpll<I>)
        requires
            self.spec_mult() >= 1,
        ensures
            enabled.spec_users() == 0,
            enabled.spec_item() == self.spec_enabled_state(),
            enabled.spec_item().spec_token().spec_regs() == (DpllReg {
                enable: true,
                ondemand: self.spec_on_demand(),
                refclk: spec_refclk_variant(I::spec_dyn()),
                div: if I::spec_dyn() == DynDpllSourceId::Xosc {
                    self.spec_raw_prediv() & 0x3ff
                } else {
                    self.spec_token().spec_regs().div
                },
                ldr: ((self.spec_mult() - 1) as u16) & 0xfff,
                ldrfrac: self.spec_frac() & 0xf,
                lbypass: self.spec_lock_bypass(),
                wuf: self.spec_wake_up_fast(),
            }),
    {
        let mut this = self;
        this.token.set_source_clock(I::dyn_id());
        match I::dyn_id() {
            DynDpllSourceId::Xosc => {
                let raw = this.raw_prediv;
                this.token.set_source_div(raw);
            },
            _ => {},
        }
        let mult = this.mult;
        let frac = this.frac;
        this.token.set_loop_div(mult, frac);
        let lock_bypass = this.lock_bypass;
        this.token.set_lock_bypass(lock_bypass);
        let wake_up_fast = this.wake_up_fast;
        this.token.set_wake_up_fast(wake_up_fast);
        let on_demand = this.on_demand;
        this.token.set_on_demand(on_demand);
        this.token.enable();
        Enabled::new(this)
    }
}

impl<G: GclkId> Dpll<G> {
    /// Drive the loop from the dedicated peripheral channel clock. The
    /// channel clock is consumed and held until [`Dpll::free`].
    pub fn from_pclk(token: DpllToken, pclk: Pclk<G>) -> (dpll: Dpll<G>)
        requires
            pclk.spec_token().spec_id() == DynPclkId::Dpll,
        ensures
            dpll.spec_token() == token,
            dpll.spec_src_freq() == pclk.spec_freq(),
            dpll.spec_mult() == 1,
            dpll.spec_frac() == 0,
            !dpll.spec_lock_bypass(),
            !dpll.spec_wake_up_fast(),
            dpll.spec_on_demand(),
            dpll.spec_pclk() == pclk,
            dpll.spec_raw_prediv() == 1,
    {
        let src_freq = pclk.freq();
        Dpll {
            token,
            src_freq,
            mult: 1,
            frac: 0,
            lock_bypass: false,
            wake_up_fast: false,
            on_demand: true,
            pclk,
            raw_prediv: 1,
        }
    }

    /// Take the loop apart, releasing the token and the channel clock.
    pub fn free(self) -> (r: (DpllToken, Pclk<G>))
        ensures
            r.0 == self.spec_token(),
            r.1 == self.spec_pclk(),
    {
        (self.token, self.pclk)
    }
}

impl Dpll<Xosc32kId> {
    /// Drive the loop from the external 32 kHz oscillator, counting the
    /// loop as one more user of it.
    pub fn from_xosc32k<T: Source<Id = Xosc32kId>>(token: DpllToken, xosc32k: Enabled<T>) -> (r: (
        Dpll<Xosc32kId>,
        Enabled<T>,
    ))
        requires
            xosc32k.wf(),
            xosc32k.spec_users() < u32::MAX,
        ensures
            r.0.spec_token() == token,
            r.0.spec_src_freq() == xosc32k.freq_spec(),
            r.0.spec_mult() == 1,
            r.0.spec_frac() == 0,
            !r.0.spec_lock_bypass(),
            !r.0.spec_wake_up_fast(),
            r.0.spec_on_demand(),
            r.0.spec_raw_prediv() == 1,
            r.1.spec_item() == xosc32k.spec_item(),
            r.1.spec_users() == xosc32k.spec_users() + 1,
    {
        let src_freq = xosc32k.freq();
        let dpll = Dpll {
            token,
            src_freq,
            mult: 1,
            frac: 0,
            lock_bypass: false,
            wake_up_fast: false,
            on_demand: true,
            pclk: (),
            raw_prediv: 1,
        };
        (dpll, xosc32k.inc())
    }

    /// Take the loop apart, releasing the token and the oscillator.
    pub fn free<T: Source<Id = Xosc32kId>>(self, xosc32k: Enabled<T>) -> (r: (
        DpllToken,
        Enabled<T>,
    ))
        requires
            xosc32k.spec_users() > 0,
        ensures
            r.0 == self.spec_token(),
            r.1.spec_item() == xosc32k.spec_item(),
            r.1.spec_users() == xosc32k.spec_users() - 1,
    {
        (self.token, xosc32k.dec())
    }
}

impl Dpll<XoscId> {
    /// Drive the loop from the external oscillator with the given raw
    /// predivider, counting the loop as one more user of it.
    pub fn from_xosc<T: Source<Id = XoscId>>(
        token: DpllToken,
        xosc: Enabled<T>,
        raw_prediv: RawPredivider,
    ) -> (r: (Dpll<XoscId>, Enabled<T>))
        requires
            xosc.wf(),
            xosc.spec_users() < u32::MAX,
        ensures
            r.0.spec_token() == token,
            r.0.spec_src_freq() == xosc.freq_spec(),
            r.0.spec_mult() == 1,
            r.0.spec_frac() == 0,
            !r.0.spec_lock_bypass(),
            !r.0.spec_wake_up_fast(),
            r.0.spec_on_demand(),
            r.0.spec_raw_prediv() == raw_prediv,
            r.1.spec_item() == xosc.spec_item(),
            r.1.spec_users() == xosc.spec_users() + 1,
    {
        let src_freq = xosc.freq();
        let dpll = Dpll {
            token,
            src_freq,
            mult: 1,
            frac: 0,
            lock_bypass: false,
            wake_up_fast: false,
            on_demand: true,
            pclk: (),
            raw_prediv,
        };
        (dpll, xosc.inc())
    }

    /// Choose the raw predivider applied to the crystal input.
    pub fn set_raw_prediv(self, raw_prediv: RawPredivider) -> (dpll: Dpll<XoscId>)
        ensures
            dpll.spec_raw_prediv() == raw_prediv,
            dpll.spec_token() == self.spec_token(),
            dpll.spec_src_freq() == self.spec_src_freq(),
            dpll.spec_mult() == self.spec_mult(),
            dpll.spec_frac() == self.spec_frac(),
            dpll.spec_lock_bypass() == self.spec_lock_bypass(),
            dpll.spec_wake_up_fast() == self.spec_wake_up_fast(),
            dpll.spec_on_demand() == self.spec_on_demand(),
    {
        Dpll { raw_prediv, ..self }
    }

    /// Take the loop apart, releasing the token and the oscillator.
    pub fn free<T: Source<Id = XoscId>>(self, xosc: Enabled<T>) -> (r: (DpllToken, Enabled<T>))
        requires
            xosc.spec_users() > 0,
        ensures
            r.0 == self.spec_token(),
            r.1.spec_item() == xosc.spec_item(),
            r.1.spec_users() == xosc.spec_users() - 1,
    {
        (self.token, xosc.dec())
    }
}

impl<I: DpllSourceId> EnabledDpll<I> {
    /// Clear the loop enable bit and return the configured handle. Only a
    /// loop with no remaining users can be disabled.
    pub fn disable(self) -> (dpll: Dpll<I>)
        requires
            self.spec_users() == 0,
        ensures
            dpll == self.spec_item().spec_disabled_state(),
            dpll.spec_src_freq() == self.spec_item().spec_src_freq(),
            dpll.spec_mult() == self.spec_item().spec_mult(),
            dpll.spec_frac() == self.spec_item().spec_frac(),
            dpll.spec_lock_bypass() == self.spec_item().spec_lock_bypass(),
            dpll.spec_wake_up_fast() == self.spec_item().spec_wake_up_fast(),
            dpll.spec_on_demand() == self.spec_item().spec_on_demand(),
            dpll.spec_raw_prediv() == self.spec_item().spec_raw_prediv(),
            dpll.spec_token().spec_regs() == (DpllReg {
                enable: false,
                ..self.spec_item().spec_token().spec_regs()
            }),
    {
        let mut this = self;
        this.item.token.disable();
        this.item
    }

    /// Decide from a captured status word whether the output is ready.
    pub fn wait_until_ready(&self, status: &DpllStatus) -> (r: Result<(), WouldBlock>)
        ensures
            r is Ok <==> status.clkrdy,
    {
        self.item.token.wait_until_ready(status)
    }

    /// Decide from a captured status word whether the loop has locked.
    pub fn wait_until_locked(&self, status: &DpllStatus) -> (r: Result<(), WouldBlock>)
        ensures
            r is Ok <==> status.lock,
    {
        self.item.token.wait_until_locked(status)
    }
}

impl<I: DpllSourceId> Source for Dpll<I> {
    type Id = DpllId;

    open spec fn wf(&self) -> bool {
        self.spec_prediv_of() >= 1 && 0 <= self.spec_output() <= u32::MAX
    }

    open spec fn freq_spec(&self) -> u32 {
        self.spec_output() as u32
    }

    fn freq(&self) -> (f: Hertz) {
        self.freq()
    }
}

/// Enabling and then disabling the loop hands back a handle whose
/// configuration record is identical to the one before enabling.
pub proof fn lemma_dpll_enable_disable_roundtrip<I: DpllSourceId>(dpll: Dpll<I>)
    ensures
        dpll.spec_enabled_state().spec_disabled_state().spec_src_freq() == dpll.spec_src_freq(),
        dpll.spec_enabled_state().spec_disabled_state().spec_mult() == dpll.spec_mult(),
        dpll.spec_enabled_state().spec_disabled_state().spec_frac() == dpll.spec_frac(),
        dpll.spec_enabled_state().spec_disabled_state().spec_lock_bypass() == dpll.spec_lock_bypass(),
        dpll.spec_enabled_state().spec_disabled_state().spec_wake_up_fast() == dpll.spec_wake_up_fast(),
        dpll.spec_enabled_state().spec_disabled_state().spec_on_demand() == dpll.spec_on_demand(),
        dpll.spec_enabled_state().spec_disabled_state().spec_raw_prediv() == dpll.spec_raw_prediv(),
        dpll.spec_enabled_state().spec_disabled_state().spec_output() == dpll.spec_output(),
{
}

/// A validated configuration is exactly one whose enabled output frequency
/// lands in the 48 MHz to 96 MHz window with its effective input in the
/// 32 kHz to 3.2 MHz window; within the windows the output is the effective
/// input times `mult + frac / 32`, rounded down.
pub proof fn lemma_dpll_valid_output_window(src: u32, prediv: u32, mult: u16, frac: u8)
    requires
        spec_dpll_valid(src, prediv, mult, frac),
    ensures
        48_000_000 <= spec_dpll_output(src, prediv, mult, frac) <= 96_000_000,
        spec_dpll_output(src, prediv, mult, frac) == ((src as int) / (prediv as int)) * ((
        mult as int) + (frac as int) / 32),
{
}

} // verus!

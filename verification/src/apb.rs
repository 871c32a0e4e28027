//! Synchronous bus clock gates.
//!
//! Three shared mask registers gate the synchronous clock of every
//! peripheral on the bus, one bit per peripheral. Each bit is owned by
//! exactly one token; enabling sets the one bit by a read-modify-write and
//! disabling clears it, and both are proved to leave every other bit of the
//! register word untouched.

use vstd::prelude::*;

use crate::osc32k_reg::spec_bit_get;

verus! {

/// Value-level identity of every gated bus clock.
#[derive(Clone, Copy, PartialEq, Eq, Structural, Debug)]
#[allow(missing_docs)]
pub enum DynApbId {
    Pac0,
    Pm,
    SysCtrl,
    Gclk,
    Wdt,
    Rtc,
    Eic,
    Pac1,
    Dsu,
    NvmCtrl,
    Port,
    Dmac,
    Usb,
    Pac2,
    EvSys,
    Sercom0,
    Sercom1,
    Sercom2,
    Sercom3,
    Tcc0,
    Tcc1,
    Tcc2,
    Tc3,
    Tc4,
    Tc5,
    Adc,
    Ac,
    Dac,
    Ptc,
    I2S,
}

/// One bit in one of the three bus mask registers.
///
/// The variant names the register; the value is the bit's mask within it.
#[derive(Clone, Copy, PartialEq, Eq, Structural, Debug)]
#[allow(missing_docs)]
pub enum DynApbMask {
    A(u32),
    B(u32),
    C(u32),
}

/// The register and mask bit of each bus clock, exactly as the hardware
/// lays the mask registers out.
pub open spec fn spec_apb_mask(id: DynApbId) -> DynApbMask {
    match id {
        DynApbId::Pac0 => DynApbMask::A(1u32 << 0),
        DynApbId::Pm => DynApbMask::A(1u32 << 1),
        DynApbId::SysCtrl => DynApbMask::A(1u32 << 2),
        DynApbId::Gclk => DynApbMask::A(1u32 << 3),
        DynApbId::Wdt => DynApbMask::A(1u32 << 4),
        DynApbId::Rtc => DynApbMask::A(1u32 << 5),
        DynApbId::Eic => DynApbMask::A(1u32 << 6),
        DynApbId::Pac1 => DynApbMask::B(1u32 << 0),
        DynApbId::Dsu => DynApbMask::B(1u32 << 1),
        DynApbId::NvmCtrl => DynApbMask::B(1u32 << 2),
        DynApbId::Port => DynApbMask::B(1u32 << 3),
        DynApbId::Dmac => DynApbMask::B(1u32 << 4),
        DynApbId::Usb => DynApbMask::B(1u32 << 5),
        DynApbId::Pac2 => DynApbMask::C(1u32 << 0),
        DynApbId::EvSys => DynApbMask::C(1u32 << 1),
        DynApbId::Sercom0 => DynApbMask::C(1u32 << 2),
        DynApbId::Sercom1 => DynApbMask::C(1u32 << 3),
        DynApbId::Sercom2 => DynApbMask::C(1u32 << 4),
        DynApbId::Sercom3 => DynApbMask::C(1u32 << 5),
        DynApbId::Tcc0 => DynApbMask::C(1u32 << 8),
        DynApbId::Tcc1 => DynApbMask::C(1u32 << 9),
        DynApbId::Tcc2 => DynApbMask::C(1u32 << 10),
        DynApbId::Tc3 => DynApbMask::C(1u32 << 11),
        DynApbId::Tc4 => DynApbMask::C(1u32 << 12),
        DynApbId::Tc5 => DynApbMask::C(1u32 << 13),
        DynApbId::Adc => DynApbMask::C(1u32 << 16),
        DynApbId::Ac => DynApbMask::C(1u32 << 17),
        DynApbId::Dac => DynApbMask::C(1u32 << 18),
        DynApbId::Ptc => DynApbMask::C(1u32 << 19),
        DynApbId::I2S => DynApbMask::C(1u32 << 20),
    }
}

impl From<DynApbId> for DynApbMask {
    /// The register and mask bit that gate this bus clock.
    fn from(id: DynApbId) -> (m: DynApbMask) {
        match id {
            DynApbId::Pac0 => DynApbMask::A(1u32 << 0),
            DynApbId::Pm => DynApbMask::A(1u32 << 1),
            DynApbId::SysCtrl => DynApbMask::A(1u32 << 2),
            DynApbId::Gclk => DynApbMask::A(1u32 << 3),
            DynApbId::Wdt => DynApbMask::A(1u32 << 4),
            DynApbId::Rtc => DynApbMask::A(1u32 << 5),
            DynApbId::Eic => DynApbMask::A(1u32 << 6),
            DynApbId::Pac1 => DynApbMask::B(1u32 << 0),
            DynApbId::Dsu => DynApbMask::B(1u32 << 1),
            DynApbId::NvmCtrl => DynApbMask::B(1u32 << 2),
            DynApbId::Port => DynApbMask::B(1u32 << 3),
            DynApbId::Dmac => DynApbMask::B(1u32 << 4),
            DynApbId::Usb => DynApbMask::B(1u32 << 5),
            DynApbId::Pac2 => DynApbMask::C(1u32 << 0),
            DynApbId::EvSys => DynApbMask::C(1u32 << 1),
            DynApbId::Sercom0 => DynApbMask::C(1u32 << 2),
            DynApbId::Sercom1 => DynApbMask::C(1u32 << 3),
            DynApbId::Sercom2 => DynApbMask::C(1u32 << 4),
            DynApbId::Sercom3 => DynApbMask::C(1u32 << 5),
            DynApbId::Tcc0 => DynApbMask::C(1u32 << 8),
            DynApbId::Tcc1 => DynApbMask::C(1u32 << 9),
            DynApbId::Tcc2 => DynApbMask::C(1u32 << 10),
            DynApbId::Tc3 => DynApbMask::C(1u32 << 11),
            DynApbId::Tc4 => DynApbMask::C(1u32 << 12),
            DynApbId::Tc5 => DynApbMask::C(1u32 << 13),
            DynApbId::Adc => DynApbMask::C(1u32 << 16),
            DynApbId::Ac => DynApbMask::C(1u32 << 17),
            DynApbId::Dac => DynApbMask::C(1u32 << 18),
            DynApbId::Ptc => DynApbMask::C(1u32 << 19),
            DynApbId::I2S => DynApbMask::C(1u32 << 20),
        }
    }
}

impl vstd::std_specs::convert::FromSpecImpl<DynApbId> for DynApbMask {
    open spec fn obeys_from_spec() -> bool {
        true
    }

    open spec fn from_spec(id: DynApbId) -> DynApbMask {
        spec_apb_mask(id)
    }
}

/// The three bus mask registers, as a specification view.
#[derive(Clone, Copy, PartialEq, Eq, Structural, Debug)]
pub struct ApbView {
    /// Bridge A mask register.
    pub a: u32,
    /// Bridge B mask register.
    pub b: u32,
    /// Bridge C mask register.
    pub c: u32,
}

/// The mask registers after the bit of `id` has been set by OR-ing it in.
pub open spec fn spec_apb_enable(v: ApbView, id: DynApbId) -> ApbView {
    match spec_apb_mask(id) {
        DynApbMask::A(m) => ApbView { a: v.a | m, ..v },
        DynApbMask::B(m) => ApbView { b: v.b | m, ..v },
        DynApbMask::C(m) => ApbView { c: v.c | m, ..v },
    }
}

/// The mask registers after the bit of `id` has been cleared by AND-ing
/// with its complement.
pub open spec fn spec_apb_disable(v: ApbView, id: DynApbId) -> ApbView {
    match spec_apb_mask(id) {
        DynApbMask::A(m) => ApbView { a: v.a & !m, ..v },
        DynApbMask::B(m) => ApbView { b: v.b & !m, ..v },
        DynApbMask::C(m) => ApbView { c: v.c & !m, ..v },
    }
}

/// The bus mask controller, owning the three mask registers.
pub struct Apb {
    apbamask: u32,
    apbbmask: u32,
    apbcmask: u32,
}

impl Apb {
    /// The current values of the three mask registers.
    pub closed spec fn spec_regs(&self) -> ApbView {
        ApbView { a: self.apbamask, b: self.apbbmask, c: self.apbcmask }
    }

    /// Issue the one controller, with the registers at their power-on reset
    /// values: the always-on bridge clocks enabled, everything else gated.
    pub(crate) fn new() -> (apb: Apb)
        ensures
            apb.spec_regs() == (ApbView { a: 0x7f, b: 0x1f, c: 0x01 }),
    {
        Apb { apbamask: 0x7f, apbbmask: 0x1f, apbcmask: 0x01 }
    }

    /// Read the three mask registers.
    pub fn regs(&self) -> (v: ApbView)
        ensures
            v == self.spec_regs(),
    {
        ApbView { a: self.apbamask, b: self.apbbmask, c: self.apbcmask }
    }

    fn enable_mask(&mut self, mask: DynApbMask)
        ensures
            final(self).spec_regs() == (match mask {
                DynApbMask::A(m) => ApbView { a: old(self).spec_regs().a | m, ..old(self).spec_regs() },
                DynApbMask::B(m) => ApbView { b: old(self).spec_regs().b | m, ..old(self).spec_regs() },
                DynApbMask::C(m) => ApbView { c: old(self).spec_regs().c | m, ..old(self).spec_regs() },
            }),
    {
        match mask {
            DynApbMask::A(m) => {
                self.apbamask = self.apbamask | m;
            },
            DynApbMask::B(m) => {
                self.apbbmask = self.apbbmask | m;
            },
            DynApbMask::C(m) => {
                self.apbcmask = self.apbcmask | m;
            },
        }
    }

    fn disable_mask(&mut self, mask: DynApbMask)
        ensures
            final(self).spec_regs() == (match mask {
                DynApbMask::A(m) => ApbView { a: old(self).spec_regs().a & !m, ..old(self).spec_regs() },
                DynApbMask::B(m) => ApbView { b: old(self).spec_regs().b & !m, ..old(self).spec_regs() },
                DynApbMask::C(m) => ApbView { c: old(self).spec_regs().c & !m, ..old(self).spec_regs() },
            }),
    {
        match mask {
            DynApbMask::A(m) => {
                self.apbamask = self.apbamask & !m;
            },
            DynApbMask::B(m) => {
                self.apbbmask = self.apbbmask & !m;
            },
            DynApbMask::C(m) => {
                self.apbcmask = self.apbcmask & !m;
            },
        }
    }

    /// Consume a token, set the token's one mask bit, and return the
    /// enabled-clock proof.
    pub fn enable(&mut self, token: ApbToken) -> (clk: ApbClk)
        ensures
            clk.spec_id() == token.spec_id(),
            final(self).spec_regs() == spec_apb_enable(old(self).spec_regs(), token.spec_id()),
    {
        self.enable_mask(DynApbMask::from(token.id));
        ApbClk::new(token)
    }

    /// Consume an enabled-clock proof, clear its one mask bit, and return
    /// the token.
    pub fn disable(&mut self, clock: ApbClk) -> (token: ApbToken)
        ensures
            token.spec_id() == clock.spec_id(),
            final(self).spec_regs() == spec_apb_disable(old(self).spec_regs(), clock.spec_id()),
    {
        self.disable_mask(DynApbMask::from(clock.token.id));
        clock.free()
    }
}

/// Token proving exclusive ownership of one gate bit, with its clock gated.
pub struct ApbToken {
    id: DynApbId,
}

impl ApbToken {
    /// The bus clock this token gates.
    pub closed spec fn spec_id(&self) -> DynApbId {
        self.id
    }

    /// Issue the token for one gate bit.
    pub(crate) fn new(id: DynApbId) -> (t: ApbToken)
        ensures
            t.spec_id() == id,
    {
        ApbToken { id }
    }

    /// The bus clock this token gates.
    pub fn id(&self) -> (id: DynApbId)
        ensures
            id == self.spec_id(),
    {
        self.id
    }
}

/// Proof that one bus clock is enabled.
pub struct ApbClk {
    token: ApbToken,
}

impl ApbClk {
    /// The bus clock this value proves enabled.
    pub closed spec fn spec_id(&self) -> DynApbId {
        self.token.spec_id()
    }

    fn new(token: ApbToken) -> (clk: ApbClk)
        ensures
            clk.spec_id() == token.spec_id(),
    {
        ApbClk { token }
    }

    fn free(self) -> (token: ApbToken)
        ensures
            token.spec_id() == self.spec_id(),
    {
        self.token
    }

    /// The bus clock this value proves enabled.
    pub fn id(&self) -> (id: DynApbId)
        ensures
            id == self.spec_id(),
    {
        self.token.id()
    }
}

/// The tokens of the bus clocks that are gated off at power-on reset.
#[allow(missing_docs)]
pub struct ApbTokens {
    pub usb: ApbToken,
    pub ev_sys: ApbToken,
    pub sercom0: ApbToken,
    pub sercom1: ApbToken,
    pub sercom2: ApbToken,
    pub sercom3: ApbToken,
    pub tcc0: ApbToken,
    pub tcc1: ApbToken,
    pub tcc2: ApbToken,
    pub tc3: ApbToken,
    pub tc4: ApbToken,
    pub tc5: ApbToken,
    pub adc: ApbToken,
    pub ac: ApbToken,
    pub dac: ApbToken,
    pub i2s: ApbToken,
}

impl ApbTokens {
    /// Issue the one token per gated-off bus clock.
    pub(crate) fn new() -> (t: ApbTokens)
        ensures
            t.usb.spec_id() == DynApbId::Usb,
            t.ev_sys.spec_id() == DynApbId::EvSys,
            t.sercom0.spec_id() == DynApbId::Sercom0,
            t.sercom1.spec_id() == DynApbId::Sercom1,
            t.sercom2.spec_id() == DynApbId::Sercom2,
            t.sercom3.spec_id() == DynApbId::Sercom3,
            t.tcc0.spec_id() == DynApbId::Tcc0,
            t.tcc1.spec_id() == DynApbId::Tcc1,
            t.tcc2.spec_id() == DynApbId::Tcc2,
            t.tc3.spec_id() == DynApbId::Tc3,
            t.tc4.spec_id() == DynApbId::Tc4,
            t.tc5.spec_id() == DynApbId::Tc5,
            t.adc.spec_id() == DynApbId::Adc,
            t.ac.spec_id() == DynApbId::Ac,
            t.dac.spec_id() == DynApbId::Dac,
            t.i2s.spec_id() == DynApbId::I2S,
    {
        ApbTokens {
            usb: ApbToken::new(DynApbId::Usb),
            ev_sys: ApbToken::new(DynApbId::EvSys),
            sercom0: ApbToken::new(DynApbId::Sercom0),
            sercom1: ApbToken::new(DynApbId::Sercom1),
            sercom2: ApbToken::new(DynApbId::Sercom2),
            sercom3: ApbToken::new(DynApbId::Sercom3),
            tcc0: ApbToken::new(DynApbId::Tcc0),
            tcc1: ApbToken::new(DynApbId::Tcc1),
            tcc2: ApbToken::new(DynApbId::Tcc2),
            tc3: ApbToken::new(DynApbId::Tc3),
            tc4: ApbToken::new(DynApbId::Tc4),
            tc5: ApbToken::new(DynApbId::Tc5),
            adc: ApbToken::new(DynApbId::Adc),
            ac: ApbToken::new(DynApbId::Ac),
            dac: ApbToken::new(DynApbId::Dac),
            i2s: ApbToken::new(DynApbId::I2S),
        }
    }
}

/// The enabled-clock proofs of the bus clocks that run at power-on reset.
#[allow(missing_docs)]
pub struct ApbClks {
    pub pac0: ApbClk,
    pub pm: ApbClk,
    pub sys_ctrl: ApbClk,
    pub gclk: ApbClk,
    pub wdt: ApbClk,
    pub rtc: ApbClk,
    pub eic: ApbClk,
    pub pac1: ApbClk,
    pub dsu: ApbClk,
    pub nvm_ctrl: ApbClk,
    pub port: ApbClk,
    pub dmac: ApbClk,
    pub pac2: ApbClk,
}

impl ApbClks {
    /// Issue the one enabled-clock proof per bus clock that hardware
    /// enables at power-on reset.
    pub(crate) fn new() -> (c: ApbClks)
        ensures
            c.pac0.spec_id() == DynApbId::Pac0,
            c.pm.spec_id() == DynApbId::Pm,
            c.sys_ctrl.spec_id() == DynApbId::SysCtrl,
            c.gclk.spec_id() == DynApbId::Gclk,
            c.wdt.spec_id() == DynApbId::Wdt,
            c.rtc.spec_id() == DynApbId::Rtc,
            c.eic.spec_id() == DynApbId::Eic,
            c.pac1.spec_id() == DynApbId::Pac1,
            c.dsu.spec_id() == DynApbId::Dsu,
            c.nvm_ctrl.spec_id() == DynApbId::NvmCtrl,
            c.port.spec_id() == DynApbId::Port,
            c.dmac.spec_id() == DynApbId::Dmac,
            c.pac2.spec_id() == DynApbId::Pac2,
    {
        ApbClks {
            pac0: ApbClk::new(ApbToken::new(DynApbId::Pac0)),
            pm: ApbClk::new(ApbToken::new(DynApbId::Pm)),
            sys_ctrl: ApbClk::new(ApbToken::new(DynApbId::SysCtrl)),
            gclk: ApbClk::new(ApbToken::new(DynApbId::Gclk)),
            wdt: ApbClk::new(ApbToken::new(DynApbId::Wdt)),
            rtc: ApbClk::new(ApbToken::new(DynApbId::Rtc)),
            eic: ApbClk::new(ApbToken::new(DynApbId::Eic)),
            pac1: ApbClk::new(ApbToken::new(DynApbId::Pac1)),
            dsu: ApbClk::new(ApbToken::new(DynApbId::Dsu)),
            nvm_ctrl: ApbClk::new(ApbToken::new(DynApbId::NvmCtrl)),
            port: ApbClk::new(ApbToken::new(DynApbId::Port)),
            dmac: ApbClk::new(ApbToken::new(DynApbId::Dmac)),
            pac2: ApbClk::new(ApbToken::new(DynApbId::Pac2)),
        }
    }
}

/// The raw mask inside a [`DynApbMask`], whichever register it belongs to.
pub open spec fn spec_mask_bits(mask: DynApbMask) -> u32 {
    match mask {
        DynApbMask::A(m) => m,
        DynApbMask::B(m) => m,
        DynApbMask::C(m) => m,
    }
}

/// Every bus clock's mask is a single bit, so by
/// [`lemma_enable_mask_touches_one_bit`] and
/// [`lemma_disable_mask_touches_one_bit`] a gate operation can never move
/// any bit but its own.
pub proof fn lemma_apb_masks_are_single_bits(id: DynApbId)
    ensures
        exists|k: u32| k < 32 && spec_mask_bits(spec_apb_mask(id)) == (1u32 << k),
{
    let m = spec_mask_bits(spec_apb_mask(id));
    match id {
        DynApbId::Pac0 => assert(m == (1u32 << 0)),
        DynApbId::Pm => assert(m == (1u32 << 1)),
        DynApbId::SysCtrl => assert(m == (1u32 << 2)),
        DynApbId::Gclk => assert(m == (1u32 << 3)),
        DynApbId::Wdt => assert(m == (1u32 << 4)),
        DynApbId::Rtc => assert(m == (1u32 << 5)),
        DynApbId::Eic => assert(m == (1u32 << 6)),
        DynApbId::Pac1 => assert(m == (1u32 << 0)),
        DynApbId::Dsu => assert(m == (1u32 << 1)),
        DynApbId::NvmCtrl => assert(m == (1u32 << 2)),
        DynApbId::Port => assert(m == (1u32 << 3)),
        DynApbId::Dmac => assert(m == (1u32 << 4)),
        DynApbId::Usb => assert(m == (1u32 << 5)),
        DynApbId::Pac2 => assert(m == (1u32 << 0)),
        DynApbId::EvSys => assert(m == (1u32 << 1)),
        DynApbId::Sercom0 => assert(m == (1u32 << 2)),
        DynApbId::Sercom1 => assert(m == (1u32 << 3)),
        DynApbId::Sercom2 => assert(m == (1u32 << 4)),
        DynApbId::Sercom3 => assert(m == (1u32 << 5)),
        DynApbId::Tcc0 => assert(m == (1u32 << 8)),
        DynApbId::Tcc1 => assert(m == (1u32 << 9)),
        DynApbId::Tcc2 => assert(m == (1u32 << 10)),
        DynApbId::Tc3 => assert(m == (1u32 << 11)),
        DynApbId::Tc4 => assert(m == (1u32 << 12)),
        DynApbId::Tc5 => assert(m == (1u32 << 13)),
        DynApbId::Adc => assert(m == (1u32 << 16)),
        DynApbId::Ac => assert(m == (1u32 << 17)),
        DynApbId::Dac => assert(m == (1u32 << 18)),
        DynApbId::Ptc => assert(m == (1u32 << 19)),
        DynApbId::I2S => assert(m == (1u32 << 20)),
    }
}

/// Setting one gate bit by OR-ing its mask in touches exactly that bit:
/// the targeted bit is set afterwards and every other bit of the register
/// word keeps its previous value.
pub proof fn lemma_enable_mask_touches_one_bit(reg: u32, k: u32)
    requires
        k < 32,
    ensures
        spec_bit_get(reg | (1u32 << k), k),
        forall|j: u32| j < 32 && j != k ==> spec_bit_get(reg | (1u32 << k), j) == spec_bit_get(reg, j),
{
    assert((((reg | (1u32 << k)) >> k) & 0x01) != 0) by (bit_vector)
        requires
            k < 32,
    ;
    assert(forall|j: u32|
        j < 32 && j != k ==> ((((reg | (1u32 << k)) >> j) & 0x01) != 0) == (((reg >> j) & 0x01)
            != 0)) by (bit_vector)
        requires
            k < 32,
    ;
}

/// Clearing one gate bit by AND-ing with the mask's complement touches
/// exactly that bit: the targeted bit is clear afterwards and every other
/// bit of the register word keeps its previous value.
pub proof fn lemma_disable_mask_touches_one_bit(reg: u32, k: u32)
    requires
        k < 32,
    ensures
        !spec_bit_get(reg & !(1u32 << k), k),
        forall|j: u32| j < 32 && j != k ==> spec_bit_get(reg & !(1u32 << k), j) == spec_bit_get(reg, j),
{
    assert((((reg & !(1u32 << k)) >> k) & 0x01) == 0) by (bit_vector)
        requires
            k < 32,
    ;
    assert(forall|j: u32|
        j < 32 && j != k ==> ((((reg & !(1u32 << k)) >> j) & 0x01) != 0) == (((reg >> j) & 0x01)
            != 0)) by (bit_vector)
        requires
            k < 32,
    ;
}

} // verus!

//! The reset-state assembler.
//!
//! [`por_state`] consumes the raw peripheral blocks exactly once at boot and
//! returns three disjoint collections: the bus-gate controller, the clocks
//! that hardware enables at power-on reset with their usage counters set to
//! the dependencies wired in at reset, and the tokens for every clock that
//! is still unconfigured. Consuming the blocks by value makes a second
//! assembly with the same hardware impossible: the values are gone.

use vstd::prelude::*;

use crate::apb;
use crate::dpll;
use crate::enabled::Enabled;
use crate::gclk;
use crate::gclk::EnabledGclk;
use crate::gclk::Gclk;
use crate::gclk::GclkReg;
use crate::gclk::GclkToken;
use crate::gclk::Gclk0Id;
use crate::gclk::Gclk2Id;
use crate::osc32k;
use crate::osc32k_reg::OSC32K_RESET;
use crate::osc8m;
use crate::osc8m::Osc8m;
use crate::osculp32k;
use crate::osculp32k::EnabledOscUlp1k;
use crate::osculp32k::EnabledOscUlp32k;
use crate::osculp32k::EnabledOscUlpBase;
use crate::osculp32k::OscUlpBase;
use crate::osculp32k::OscUlp1k;
use crate::osculp32k::OscUlp32k;
use crate::pclk;
use crate::pclk::DynPclkId;
use crate::pclk::GEN_A;
use crate::pclk::Pclk;
use crate::pclk::PclkToken;
use crate::xosc;
use crate::xosc32k;

verus! {

/// The oscillator-controller peripheral block.
///
/// Start-up code obtains it exactly once with [`SYSCTRL::new`]; after that
/// it only changes hands by move.
pub struct SYSCTRL(());

impl SYSCTRL {
    /// Take the block. To be called once by start-up code; creating a
    /// second value for the same hardware voids every guarantee of the
    /// clock interface.
    pub fn new() -> SYSCTRL {
        SYSCTRL(())
    }
}

/// The clock-generator-controller peripheral block.
///
/// Start-up code obtains it exactly once with [`GCLK::new`].
pub struct GCLK(());

impl GCLK {
    /// Take the block. To be called once by start-up code; creating a
    /// second value for the same hardware voids every guarantee of the
    /// clock interface.
    pub fn new() -> GCLK {
        GCLK(())
    }
}

/// The power-manager peripheral block, holding the bus mask registers.
///
/// Start-up code obtains it exactly once with [`PM::new`].
pub struct PM(());

impl PM {
    /// Take the block. To be called once by start-up code; creating a
    /// second value for the same hardware voids every guarantee of the
    /// clock interface.
    pub fn new() -> PM {
        PM(())
    }
}

/// Guard around the raw peripheral blocks.
///
/// Trading the blocks for the clock interface normally retires them for
/// good; [`Pac::steal`] is the explicit escape hatch that hands them back,
/// bypassing every invariant of the clock interface from then on.
pub struct Pac {
    sysctrl: SYSCTRL,
    gclk: GCLK,
    pm: PM,
}

impl Pac {
    /// Reclaim the raw peripheral blocks, voiding all further safety
    /// guarantees of the clock interface for this hardware.
    pub fn steal(self) -> (SYSCTRL, GCLK, PM) {
        (self.sysctrl, self.gclk, self.pm)
    }
}

/// The bus controllers.
pub struct Buses {
    /// The bus-gate mask controller.
    pub apb: apb::Apb,
}

/// The clocks that are enabled at power-on reset, with their proven state.
///
/// The main generator runs at 8 MHz from the internal oscillator; the
/// ultra-low-power base oscillator feeds its two taps, the 32 kHz tap
/// drives generator 2, and generator 2 drives the watchdog's channel
/// clock. Every usage counter reflects exactly those dependencies, plus
/// one permanent user each for the main generator (the processor) and the
/// watchdog channel (the watchdog), which therefore can never be disabled.
pub struct Clocks {
    /// Guarded raw peripheral blocks.
    pub pac: Pac,
    /// Bus clocks enabled at reset.
    pub apbs: apb::ApbClks,
    /// The internal 8 MHz oscillator, feeding generator 0.
    pub osc8m: Enabled<Osc8m>,
    /// Generator 0, the main system clock, at 8 MHz.
    pub gclk0: EnabledGclk<Gclk0Id>,
    /// The ultra-low-power base oscillator, feeding both taps.
    pub osculp_base: EnabledOscUlpBase,
    /// The 32 kHz tap, feeding generator 2.
    pub osculp32k: EnabledOscUlp32k,
    /// The 1 kHz tap, unused at reset.
    pub osculp1k: EnabledOscUlp1k,
    /// Generator 2, at 32768 Hz.
    pub gclk2: EnabledGclk<Gclk2Id>,
    /// The watchdog's channel clock, driven by generator 2.
    pub wdt: Enabled<Pclk<Gclk2Id>>,
}

/// The tokens of every clock that is unconfigured at power-on reset.
pub struct Tokens {
    /// Tokens for the gated-off bus clocks.
    pub apbs: apb::ApbTokens,
    /// Token for the phase-locked loop.
    pub dpll: dpll::DpllToken,
    /// Tokens for the idle clock generators.
    pub gclks: gclk::Tokens,
    /// Tokens for the idle peripheral channel clocks.
    pub pclks: pclk::Tokens,
    /// Token for the external multi-megahertz oscillator.
    pub xosc: xosc::XoscToken,
    /// Token for the external 32 kHz oscillator.
    pub xosc32k: xosc32k::Xosc32kToken,
    /// Token for the internal 32 kHz oscillator.
    pub osc32k: osc32k::Osc32kToken,
}

/// Consume the raw peripheral blocks and return the boot-time state of the
/// clock tree: the bus controllers, the clocks hardware has already
/// enabled, and the tokens of everything still unconfigured.
///
/// Because the blocks are consumed by value, a second assembly from the
/// same hardware cannot be written: the values have moved.
pub fn por_state(sysctrl: SYSCTRL, gclk: GCLK, pm: PM) -> (r: (Buses, Clocks, Tokens))
    ensures
        ({
            let (buses, clocks, tokens) = r;
            // Bus gates at their reset values.
            &&& buses.apb.spec_regs() == (apb::ApbView { a: 0x7f, b: 0x1f, c: 0x01 })
            // The 8 MHz oscillator runs undivided with one user: generator 0.
            &&& clocks.osc8m.spec_users() == 1
            &&& clocks.osc8m.spec_item().spec_prescaler() == osc8m::Prescaler::Prescaler1
            &&& clocks.osc8m.freq_spec() == 8_000_000
            // Generator 0 runs at 8 MHz with one permanent user: the processor.
            &&& clocks.gclk0.spec_users() == 1
            &&& clocks.gclk0.spec_item().spec_div() == 1
            &&& clocks.gclk0.freq_spec() == 8_000_000
            &&& clocks.gclk0.wf()
            // The base oscillator feeds its two taps.
            &&& clocks.osculp_base.spec_users() == 2
            // The 32 kHz tap feeds generator 2; the 1 kHz tap is unused.
            &&& clocks.osculp32k.spec_users() == 1
            &&& clocks.osculp32k.freq_spec() == 32_768
            &&& clocks.osculp1k.spec_users() == 0
            &&& clocks.osculp1k.freq_spec() == 1024
            // Generator 2 runs at 32768 Hz with one user: the watchdog channel.
            &&& clocks.gclk2.spec_users() == 1
            &&& clocks.gclk2.spec_item().spec_div() == 1
            &&& clocks.gclk2.freq_spec() == 32_768
            &&& clocks.gclk2.wf()
            // The watchdog channel runs from generator 2 at 32768 Hz with one
            // permanent user: the watchdog.
            &&& clocks.wdt.spec_users() == 1
            &&& clocks.wdt.spec_item().spec_freq() == 32_768
            &&& clocks.wdt.spec_item().spec_token().spec_id() == DynPclkId::Wdt
            &&& clocks.wdt.spec_item().spec_token().spec_gen() == GEN_A::GCLK2
            &&& clocks.wdt.spec_item().spec_token().spec_clken()
            // Every token holds its register's documented reset state.
            &&& tokens.osc32k.spec_reg() == OSC32K_RESET
            &&& tokens.xosc.spec_regs() == xosc::spec_xosc_reset_reg()
            &&& tokens.xosc32k.spec_regs() == (xosc32k::Xosc32kReg {
                enable: false,
                xtalen: false,
                en32k: false,
                ondemand: true,
                runstdby: false,
            })
            &&& tokens.dpll.spec_regs() == (dpll::DpllReg {
                enable: false,
                ondemand: true,
                refclk: dpll::REFCLK_A::REF0,
                div: 0,
                ldr: 0,
                ldrfrac: 0,
                lbypass: false,
                wuf: false,
            })
            &&& tokens.gclks.gclk1.spec_regs() == (GclkReg { genen: false, div: 1 })
            // Every channel token addresses its own channel.
            &&& tokens.pclks.dfll.spec_id() == DynPclkId::Dfll
            &&& tokens.pclks.dpll.spec_id() == DynPclkId::Dpll
            &&& tokens.pclks.dpll32k.spec_id() == DynPclkId::Dpll32k
            &&& tokens.pclks.rtc.spec_id() == DynPclkId::Rtc
            &&& tokens.pclks.eic.spec_id() == DynPclkId::Eic
            &&& tokens.pclks.usb.spec_id() == DynPclkId::Usb
            &&& tokens.pclks.slow.spec_id() == DynPclkId::Slow
            &&& tokens.pclks.sercom0.spec_id() == DynPclkId::Sercom0
            &&& tokens.pclks.sercom1.spec_id() == DynPclkId::Sercom1
            &&& tokens.pclks.sercom2.spec_id() == DynPclkId::Sercom2
            &&& tokens.pclks.sercom3.spec_id() == DynPclkId::Sercom3
            &&& tokens.pclks.tcc0_tcc1.spec_id() == DynPclkId::Tcc0Tcc1
            &&& tokens.pclks.tcc2_tc3.spec_id() == DynPclkId::Tcc2Tc3
            &&& tokens.pclks.tc4_tc5.spec_id() == DynPclkId::Tc4Tc5
            &&& tokens.pclks.adc.spec_id() == DynPclkId::Adc
            &&& tokens.pclks.ac_dig.spec_id() == DynPclkId::AcDig
            &&& tokens.pclks.ac_ana.spec_id() == DynPclkId::AcAna
            &&& tokens.pclks.dac.spec_id() == DynPclkId::Dac
            &&& tokens.pclks.i2s0.spec_id() == DynPclkId::I2s0
            &&& tokens.pclks.i2s1.spec_id() == DynPclkId::I2s1
        }),
{
    let buses = Buses { apb: apb::Apb::new() };
    let pac = Pac { sysctrl, gclk, pm };

    let osc8m = Enabled::new(Osc8m::new(osc8m::Osc8mToken::new()));
    let (gclk0, osc8m) = Gclk::new_enabled_at_reset(GclkToken::<Gclk0Id>::new(), osc8m);
    // The processor itself runs from generator 0, so it can never be disabled.
    let gclk0 = gclk0.inc();

    let osculp_tokens = osculp32k::Tokens::new();
    let osculp_base = OscUlpBase::new();
    let (osculp32k_tap, osculp_base) = OscUlp32k::new(osculp_tokens.osculp32k, osculp_base);
    let (osculp1k_tap, osculp_base) = OscUlp1k::new(osculp_tokens.osculp1k, osculp_base);
    let (gclk2, osculp32k_tap) = Gclk::new_enabled_at_reset(GclkToken::<Gclk2Id>::new(), osculp32k_tap);
    let (wdt, gclk2) = Pclk::enable(PclkToken::new(DynPclkId::Wdt), gclk2);
    // The watchdog runs from its channel clock, so it can never be disabled.
    let wdt = Enabled::new(wdt).inc();

    let clocks = Clocks {
        pac,
        apbs: apb::ApbClks::new(),
        osc8m,
        gclk0,
        osculp_base,
        osculp32k: osculp32k_tap,
        osculp1k: osculp1k_tap,
        gclk2,
        wdt,
    };
    let tokens = Tokens {
        apbs: apb::ApbTokens::new(),
        dpll: dpll::DpllToken::new(),
        gclks: gclk::Tokens::new(),
        pclks: pclk::Tokens::new(),
        xosc: xosc::XoscToken::new(),
        xosc32k: xosc32k::Xosc32kToken::new(),
        osc32k: osc32k::Osc32kToken::new(),
    };
    (buses, clocks, tokens)
}

} // verus!

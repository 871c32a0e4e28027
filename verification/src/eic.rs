//! The external interrupt controller's clocking and debounce setup.
//!
//! The controller consumes a clock through a narrow interface: it is wired
//! either to the ultra-low-power 32 kHz clock or to a generator channel,
//! debouncing is configured per pin by setting one bit per pin in a shared
//! enable register, and the controller is then enabled. The debounce-enable
//! word is proved to be exactly the OR of one bit per requested pin.

use vstd::prelude::*;

use crate::apb::ApbClk;
use crate::apb::DynApbId;

verus! {

/// A debounce-sampling prescaler choice.
#[derive(Clone, Copy, PartialEq, Eq, Structural, Debug)]
#[allow(missing_docs)]
pub enum DebouncePrescaler {
    Div2,
    Div4,
    Div8,
    Div16,
    Div32,
    Div64,
    Div128,
    Div256,
}

/// The identity of one external-interrupt line, as its bit number in the
/// shared debounce-enable register.
pub type ExternalInterruptID = u8;

/// The fields of the controller's registers, as a specification view.
#[derive(Clone, Copy, PartialEq, Eq, Structural, Debug)]
pub struct EicView {
    /// Clock select: the ultra-low-power 32 kHz clock rather than a
    /// generator channel.
    pub cksel_ulp32k: bool,
    /// Controller enable.
    pub enable: bool,
    /// Debouncer sampling uses the low-frequency tick.
    pub tickon: bool,
    /// Seven consecutive low samples are required for a falling edge.
    pub states0: bool,
    /// Seven consecutive high samples are required for a rising edge.
    pub states1: bool,
    /// Prescaler for the lower pin bank.
    pub prescaler0: DebouncePrescaler,
    /// Prescaler for the upper pin bank.
    pub prescaler1: DebouncePrescaler,
    /// One debounce-enable bit per external-interrupt line.
    pub debouncen: u32,
}

/// The external-interrupt-controller peripheral block.
///
/// Start-up code obtains it exactly once with [`EicBlock::new`].
pub struct EicBlock(());

impl EicBlock {
    /// Take the block. To be called once by start-up code; creating a
    /// second value for the same hardware voids the controller's
    /// single-owner guarantees.
    pub fn new() -> EicBlock {
        EicBlock(())
    }
}

/// The debounce-enable word for a list of pins: the OR of one bit per pin.
pub open spec fn spec_debounce_mask(pins: Seq<u8>) -> u32
    decreases pins.len(),
{
    if pins.len() == 0 {
        0u32
    } else {
        spec_debounce_mask(pins.drop_last()) | (1u32 << pins.last())
    }
}

/// The controller after reset, wired to a clock but not yet enabled.
pub struct ConfigurableEIC {
    regs: EicView,
}

/// The state every register holds right after the controller's software
/// reset.
pub open spec fn spec_eic_reset(cksel_ulp32k: bool) -> EicView {
    EicView {
        cksel_ulp32k,
        enable: false,
        tickon: false,
        states0: false,
        states1: false,
        prescaler0: DebouncePrescaler::Div2,
        prescaler1: DebouncePrescaler::Div2,
        debouncen: 0,
    }
}

impl ConfigurableEIC {
    /// The current fields of the controller's registers.
    pub closed spec fn spec_regs(&self) -> EicView {
        self.regs
    }

    fn new(cksel_ulp32k: bool) -> (eic: ConfigurableEIC)
        ensures
            eic.spec_regs() == spec_eic_reset(cksel_ulp32k),
    {
        ConfigurableEIC {
            regs: EicView {
                cksel_ulp32k,
                enable: false,
                tickon: false,
                states0: false,
                states1: false,
                prescaler0: DebouncePrescaler::Div2,
                prescaler1: DebouncePrescaler::Div2,
                debouncen: 0,
            },
        }
    }

    /// Enable debouncing for the given pins with a configuration suited to
    /// physical buttons: seven consecutive samples per edge, both banks
    /// sampling at a sixteenth of the debounce clock, and the low-frequency
    /// tick exactly when the ultra-low-power clock drives the controller.
    fn button_debounce_pins(&mut self, debounce_pins: &[ExternalInterruptID], ulp32k: bool)
        requires
            forall|i: int| 0 <= i < debounce_pins@.len() ==> debounce_pins@[i] < 32,
        ensures
            final(self).spec_regs() == (EicView {
                tickon: ulp32k,
                states0: true,
                states1: true,
                prescaler0: DebouncePrescaler::Div16,
                prescaler1: DebouncePrescaler::Div16,
                debouncen: spec_debounce_mask(debounce_pins@),
                ..old(self).spec_regs()
            }),
    {
        self.regs.tickon = ulp32k;
        self.regs.states0 = true;
        self.regs.states1 = true;
        self.regs.prescaler0 = DebouncePrescaler::Div16;
        self.regs.prescaler1 = DebouncePrescaler::Div16;

        let mut debounceen: u32 = 0;
        let mut i: usize = 0;
        while i < debounce_pins.len()
            invariant
                i <= debounce_pins@.len(),
                forall|j: int| 0 <= j < debounce_pins@.len() ==> debounce_pins@[j] < 32,
                debounceen == spec_debounce_mask(debounce_pins@.take(i as int)),
            decreases debounce_pins@.len() - i,
        {
            let pin: u8 = debounce_pins[i];
            debounceen = debounceen | (1u32 << pin);
            proof {
                assert(debounce_pins@.take(i + 1).drop_last() =~= debounce_pins@.take(i as int));
                assert(debounce_pins@.take(i + 1).last() == debounce_pins@[i as int]);
            }
            i = i + 1;
        }
        proof {
            assert(debounce_pins@.take(debounce_pins@.len() as int) =~= debounce_pins@);
        }
        self.regs.debouncen = debounceen;
    }

    /// Enable button debouncing for the given pins, sampled from the
    /// ultra-low-power 32 kHz clock.
    pub fn button_debounce_pins_ulp32k(&mut self, debounce_pins: &[ExternalInterruptID])
        requires
            forall|i: int| 0 <= i < debounce_pins@.len() ==> debounce_pins@[i] < 32,
        ensures
            final(self).spec_regs() == (EicView {
                tickon: true,
                states0: true,
                states1: true,
                prescaler0: DebouncePrescaler::Div16,
                prescaler1: DebouncePrescaler::Div16,
                debouncen: spec_debounce_mask(debounce_pins@),
                ..old(self).spec_regs()
            }),
    {
        self.button_debounce_pins(debounce_pins, true)
    }

    /// Enable button debouncing for the given pins, sampled from the
    /// generator-channel clock.
    pub fn button_debounce_pins_gclk(&mut self, debounce_pins: &[ExternalInterruptID])
        requires
            forall|i: int| 0 <= i < debounce_pins@.len() ==> debounce_pins@[i] < 32,
        ensures
            final(self).spec_regs() == (EicView {
                tickon: false,
                states0: true,
                states1: true,
                prescaler0: DebouncePrescaler::Div16,
                prescaler1: DebouncePrescaler::Div16,
                debouncen: spec_debounce_mask(debounce_pins@),
                ..old(self).spec_regs()
            }),
    {
        self.button_debounce_pins(debounce_pins, false)
    }

    /// Enable the controller.
    pub fn finalize(self) -> (eic: EIC)
        ensures
            eic.spec_regs() == (EicView { enable: true, ..self.spec_regs() }),
    {
        EIC::from(self)
    }
}

/// Reset the controller, wire it to the ultra-low-power 32 kHz clock, and
/// return it ready for configuration. The controller's bus clock must be
/// enabled.
pub fn init_with_ulp32k(bus_clock: &ApbClk, eic: EicBlock) -> (r: ConfigurableEIC)
    requires
        bus_clock.spec_id() == DynApbId::Eic,
    ensures
        r.spec_regs() == spec_eic_reset(true),
{
    ConfigurableEIC::new(true)
}

/// Reset the controller, wire it to its generator-channel clock, and
/// return it ready for configuration. The controller's bus clock must be
/// enabled.
pub fn init_with_gclk(bus_clock: &ApbClk, eic: EicBlock) -> (r: ConfigurableEIC)
    requires
        bus_clock.spec_id() == DynApbId::Eic,
    ensures
        r.spec_regs() == spec_eic_reset(false),
{
    ConfigurableEIC::new(false)
}

/// The configured, enabled external interrupt controller.
pub struct EIC {
    regs: EicView,
}

impl EIC {
    /// The current fields of the controller's registers.
    pub closed spec fn spec_regs(&self) -> EicView {
        self.regs
    }
}

impl From<ConfigurableEIC> for EIC {
    /// Set the controller's enable bit.
    fn from(eic: ConfigurableEIC) -> (r: EIC) {
        EIC { regs: EicView { enable: true, ..eic.regs } }
    }
}

impl vstd::std_specs::convert::FromSpecImpl<ConfigurableEIC> for EIC {
    open spec fn obeys_from_spec() -> bool {
        true
    }

    closed spec fn from_spec(eic: ConfigurableEIC) -> EIC {
        EIC { regs: EicView { enable: true, ..eic.spec_regs() } }
    }
}

/// Either a configured (enabled) or configurable (disabled) controller.
pub trait OptionallyConfigurableEIC {
    /// The current fields of the controller's registers.
    spec fn spec_eic(&self) -> EicView;

    /// Read the controller's register state.
    fn eic(&self) -> (v: &EicView)
        ensures
            *v == self.spec_eic(),
    ;
}

impl OptionallyConfigurableEIC for ConfigurableEIC {
    open spec fn spec_eic(&self) -> EicView {
        self.spec_regs()
    }

    fn eic(&self) -> &EicView {
        &self.regs
    }
}

impl OptionallyConfigurableEIC for EIC {
    open spec fn spec_eic(&self) -> EicView {
        self.spec_regs()
    }

    fn eic(&self) -> &EicView {
        &self.regs
    }
}

} // verus!

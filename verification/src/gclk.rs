//! Generic clock generators.
//!
//! A generator takes any enabled source, divides its frequency by a small
//! integer, and feeds peripheral channel clocks. Generator 0 is the main
//! system clock; it is running at power-on reset. A running generator can be
//! swapped to a different source without going through a disabled state,
//! moving one usage count from the old source to the new one.

use vstd::prelude::*;

use core::marker::PhantomData;

use crate::enabled::Enabled;
use crate::enabled::Source;
use crate::time::Hertz;

verus! {

/// Value-level identity of a clock generator.
#[derive(Clone, Copy, PartialEq, Eq, Structural, Debug)]
#[allow(missing_docs)]
pub enum DynGclkId {
    Gclk0,
    Gclk1,
    Gclk2,
    Gclk3,
    Gclk4,
    Gclk5,
    Gclk6,
    Gclk7,
}

/// Type-level identity of a clock generator.
pub trait GclkId: Sized {
    /// The value-level identity.
    spec fn spec_dyn() -> DynGclkId;

    /// Return the value-level identity.
    fn dyn_id() -> (id: DynGclkId)
        ensures
            id == Self::spec_dyn(),
    ;
}

/// Type-level identity tag of generator 0, the main system clock.
pub struct Gclk0Id;

/// Type-level identity tag of generator 1.
pub struct Gclk1Id;

/// Type-level identity tag of generator 2.
pub struct Gclk2Id;

/// Type-level identity tag of generator 3.
pub struct Gclk3Id;

/// Type-level identity tag of generator 4.
pub struct Gclk4Id;

/// Type-level identity tag of generator 5.
pub struct Gclk5Id;

/// Type-level identity tag of generator 6.
pub struct Gclk6Id;

/// Type-level identity tag of generator 7.
pub struct Gclk7Id;

impl GclkId for Gclk0Id {
    open spec fn spec_dyn() -> DynGclkId {
        DynGclkId::Gclk0
    }

    fn dyn_id() -> DynGclkId {
        DynGclkId::Gclk0
    }
}

impl GclkId for Gclk1Id {
    open spec fn spec_dyn() -> DynGclkId {
        DynGclkId::Gclk1
    }

    fn dyn_id() -> DynGclkId {
        DynGclkId::Gclk1
    }
}

impl GclkId for Gclk2Id {
    open spec fn spec_dyn() -> DynGclkId {
        DynGclkId::Gclk2
    }

    fn dyn_id() -> DynGclkId {
        DynGclkId::Gclk2
    }
}

impl GclkId for Gclk3Id {
    open spec fn spec_dyn() -> DynGclkId {
        DynGclkId::Gclk3
    }

    fn dyn_id() -> DynGclkId {
        DynGclkId::Gclk3
    }
}

impl GclkId for Gclk4Id {
    open spec fn spec_dyn() -> DynGclkId {
        DynGclkId::Gclk4
    }

    fn dyn_id() -> DynGclkId {
        DynGclkId::Gclk4
    }
}

impl GclkId for Gclk5Id {
    open spec fn spec_dyn() -> DynGclkId {
        DynGclkId::Gclk5
    }

    fn dyn_id() -> DynGclkId {
        DynGclkId::Gclk5
    }
}

impl GclkId for Gclk6Id {
    open spec fn spec_dyn() -> DynGclkId {
        DynGclkId::Gclk6
    }

    fn dyn_id() -> DynGclkId {
        DynGclkId::Gclk6
    }
}

impl GclkId for Gclk7Id {
    open spec fn spec_dyn() -> DynGclkId {
        DynGclkId::Gclk7
    }

    fn dyn_id() -> DynGclkId {
        DynGclkId::Gclk7
    }
}

/// The fields of a generator's control registers, as a specification view.
#[derive(Clone, Copy, PartialEq, Eq, Structural, Debug)]
pub struct GclkReg {
    /// Generator enable.
    pub genen: bool,
    /// Division factor written to the generator divider register.
    pub div: u16,
}

/// Token proving exclusive ownership of one generator's control registers.
pub struct GclkToken<G: GclkId> {
    gen: PhantomData<G>,
    regs: GclkReg,
}

impl<G: GclkId> GclkToken<G> {
    /// The current fields of the owned control registers.
    pub closed spec fn spec_regs(&self) -> GclkReg {
        self.regs
    }

    /// Issue the one token for this generator, holding the reset state.
    pub(crate) fn new() -> (t: GclkToken<G>)
        ensures
            t.spec_regs() == (GclkReg { genen: false, div: 1 }),
    {
        GclkToken { gen: PhantomData, regs: GclkReg { genen: false, div: 1 } }
    }
}

/// The tokens of the generators that are idle at power-on reset.
///
/// Generator 0 and generator 2 are not here: they are already running at
/// reset, driven by the internal 8 MHz oscillator and the ultra-low-power
/// oscillator's 32 kHz tap.
#[allow(missing_docs)]
pub struct Tokens {
    pub gclk1: GclkToken<Gclk1Id>,
    pub gclk3: GclkToken<Gclk3Id>,
    pub gclk4: GclkToken<Gclk4Id>,
    pub gclk5: GclkToken<Gclk5Id>,
    pub gclk6: GclkToken<Gclk6Id>,
    pub gclk7: GclkToken<Gclk7Id>,
}

impl Tokens {
    /// Issue the one token per idle generator.
    pub(crate) fn new() -> (t: Tokens)
        ensures
            t.gclk1.spec_regs() == (GclkReg { genen: false, div: 1 }),
            t.gclk3.spec_regs() == (GclkReg { genen: false, div: 1 }),
            t.gclk4.spec_regs() == (GclkReg { genen: false, div: 1 }),
            t.gclk5.spec_regs() == (GclkReg { genen: false, div: 1 }),
            t.gclk6.spec_regs() == (GclkReg { genen: false, div: 1 }),
            t.gclk7.spec_regs() == (GclkReg { genen: false, div: 1 }),
    {
        Tokens {
            gclk1: GclkToken::new(),
            gclk3: GclkToken::new(),
            gclk4: GclkToken::new(),
            gclk5: GclkToken::new(),
            gclk6: GclkToken::new(),
            gclk7: GclkToken::new(),
        }
    }
}

/// A clock generator bound to a source, not yet enabled.
pub struct Gclk<G: GclkId> {
    token: GclkToken<G>,
    src_freq: Hertz,
    div: u16,
}

/// An enabled clock generator.
pub type EnabledGclk<G> = Enabled<Gclk<G>>;

/// Generator 0, the main system clock.
pub type Gclk0 = Gclk<Gclk0Id>;

/// Generator 2, reserved for low-frequency sources at reset.
pub type Gclk2 = Gclk<Gclk2Id>;

impl<G: GclkId> Gclk<G> {
    /// The owned register token.
    pub closed spec fn spec_token(&self) -> GclkToken<G> {
        self.token
    }

    /// The frequency of the bound source.
    pub closed spec fn spec_src_freq(&self) -> u32 {
        self.src_freq.0
    }

    /// The configured division factor.
    pub closed spec fn spec_div(&self) -> u16 {
        self.div
    }

    /// Bind a generator token to an enabled source, counting one more user
    /// of the source. The division factor starts at one.
    pub fn new<T: Source>(token: GclkToken<G>, source: Enabled<T>) -> (r: (Gclk<G>, Enabled<T>))
        requires
            source.wf(),
            source.spec_users() < u32::MAX,
        ensures
            r.0.spec_token() == token,
            r.0.spec_src_freq() == source.freq_spec(),
            r.0.spec_div() == 1,
            r.1.spec_item() == source.spec_item(),
            r.1.spec_users() == source.spec_users() + 1,
    {
        let src_freq = source.freq();
        (Gclk { token, src_freq, div: 1 }, source.inc())
    }

    /// Unbind the generator, giving the token back and releasing the source.
    pub fn free<T: Source>(self, source: Enabled<T>) -> (r: (GclkToken<G>, Enabled<T>))
        requires
            source.spec_users() > 0,
        ensures
            r.0 == self.spec_token(),
            r.1.spec_item() == source.spec_item(),
            r.1.spec_users() == source.spec_users() - 1,
    {
        (self.token, source.dec())
    }

    /// Choose the division factor applied to the source frequency.
    pub fn div(self, div: u16) -> (gclk: Gclk<G>)
        requires
            div >= 1,
        ensures
            gclk.spec_div() == div,
            gclk.spec_token() == self.spec_token(),
            gclk.spec_src_freq() == self.spec_src_freq(),
    {
        Gclk { div, ..self }
    }

    /// Write the division factor, set the generator enable bit, and hand
    /// back an enabled handle with no users.
    pub fn enable(self) -> (enabled: EnabledGclk<G>)
        requires
            self.spec_div() >= 1,
        ensures
            enabled.spec_users() == 0,
            enabled.spec_item().spec_src_freq() == self.spec_src_freq(),
            enabled.spec_item().spec_div() == self.spec_div(),
            enabled.spec_item().spec_token().spec_regs() == (GclkReg {
                genen: true,
                div: self.spec_div(),
            }),
            enabled.wf(),
    {
        let mut this = self;
        this.token.regs = GclkReg { genen: true, div: this.div };
        Enabled::new(this)
    }

    /// Wrap an already-running generator, as the reset-state assembler finds
    /// generator 0 and generator 2 at power-on.
    pub(crate) fn new_enabled_at_reset<T: Source>(token: GclkToken<G>, source: Enabled<T>) -> (r: (
        EnabledGclk<G>,
        Enabled<T>,
    ))
        requires
            source.wf(),
            source.spec_users() < u32::MAX,
        ensures
            r.0.spec_users() == 0,
            r.0.spec_item().spec_src_freq() == source.freq_spec(),
            r.0.spec_item().spec_div() == 1,
            r.0.wf(),
            r.1.spec_item() == source.spec_item(),
            r.1.spec_users() == source.spec_users() + 1,
    {
        let (gclk, source) = Gclk::new(token, source);
        (gclk.enable(), source)
    }
}

impl<G: GclkId> EnabledGclk<G> {
    /// Clear the generator enable bit and return the configured handle.
    /// Only a generator with no remaining users can be disabled.
    pub fn disable(self) -> (gclk: Gclk<G>)
        requires
            self.spec_users() == 0,
        ensures
            gclk.spec_src_freq() == self.spec_item().spec_src_freq(),
            gclk.spec_div() == self.spec_item().spec_div(),
            gclk.spec_token().spec_regs() == (GclkReg {
                genen: false,
                ..self.spec_item().spec_token().spec_regs()
            }),
    {
        let mut this = self;
        this.item.token.regs.genen = false;
        this.item
    }

    /// Switch the running generator from one enabled source to another
    /// without disabling it: the old source loses this generator as a user,
    /// the new one gains it, and the generator's own users are untouched.
    pub fn swap<O: Source, N: Source>(self, old_source: Enabled<O>, new_source: Enabled<N>) -> (r: (
        EnabledGclk<G>,
        Enabled<O>,
        Enabled<N>,
    ))
        requires
            old_source.spec_users() > 0,
            new_source.spec_users() < u32::MAX,
            new_source.wf(),
        ensures
            r.0.spec_item().spec_src_freq() == new_source.freq_spec(),
            r.0.spec_item().spec_div() == self.spec_item().spec_div(),
            r.0.spec_item().spec_token() == self.spec_item().spec_token(),
            r.0.spec_users() == self.spec_users(),
            r.1.spec_item() == old_source.spec_item(),
            r.1.spec_users() == old_source.spec_users() - 1,
            r.2.spec_item() == new_source.spec_item(),
            r.2.spec_users() == new_source.spec_users() + 1,
    {
        let mut this = self;
        this.item.src_freq = new_source.freq();
        (this, old_source.dec(), new_source.inc())
    }
}

impl<G: GclkId> Source for Gclk<G> {
    type Id = G;

    open spec fn wf(&self) -> bool {
        self.spec_div() >= 1
    }

    open spec fn freq_spec(&self) -> u32 {
        (self.spec_src_freq() / self.spec_div() as u32) as u32
    }

    fn freq(&self) -> (f: Hertz) {
        Hertz(self.src_freq.0 / (self.div as u32))
    }
}

} // verus!

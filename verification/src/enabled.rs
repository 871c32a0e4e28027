//! The enabled-clock wrapper and the source capability.
//!
//! [`Enabled`] wraps a clock whose hardware enable bit has been set and
//! carries the number of downstream consumers that currently depend on it.
//! Each clock module only offers `disable` on an [`Enabled`] value whose
//! counter is provably zero, so a running source can never be switched off
//! under a consumer.
//!
//! [`Source`] is the capability every enabled clock offers downstream: an
//! output frequency and a type-level identity tag.

use vstd::prelude::*;

use crate::time::Hertz;

verus! {

/// Capability of a clock that can feed a downstream consumer.
///
/// Implemented by the clock types themselves; an [`Enabled`] wrapper around
/// an implementor exposes the same frequency. `Id` is the type-level identity
/// tag that downstream clocks name when they require a particular source.
pub trait Source: Sized {
    /// Identity tag of this clock unit.
    type Id;

    /// Whether the stored configuration yields a representable frequency.
    spec fn wf(&self) -> bool;

    /// The output frequency, in hertz.
    spec fn freq_spec(&self) -> u32;

    /// Return the output frequency of the clock.
    fn freq(&self) -> (f: Hertz)
        requires
            self.wf(),
        ensures
            f.0 == self.freq_spec(),
    ;
}

/// A clock that is enabled in hardware, together with its usage counter.
///
/// The counter records how many downstream consumers currently depend on the
/// clock. It is raised by [`Enabled::inc`] when a consumer binds to the clock
/// and lowered by [`Enabled::dec`] when the dependency is released; the
/// per-clock `disable` operations demand a counter of zero, so every verified
/// caller must prove the clock is unreferenced before switching it off.
///
/// The fields are public so that the contracts over them stay fully
/// transparent. Writing them directly forfeits the counting discipline, just
/// as reclaiming the raw register blocks forfeits the rest: the verified
/// interface never does either.
pub struct Enabled<T> {
    /// The wrapped clock.
    pub item: T,
    /// How many downstream consumers currently depend on the clock.
    pub users: u32,
}

impl<T> Enabled<T> {
    /// The wrapped clock value.
    pub open spec fn spec_item(&self) -> T {
        self.item
    }

    /// The number of live downstream dependents.
    pub open spec fn spec_users(&self) -> u32 {
        self.users
    }

    /// The state after one more dependent has been recorded.
    pub open spec fn spec_inc(self) -> Enabled<T> {
        Enabled { users: (self.users + 1) as u32, ..self }
    }

    /// The state after one dependent has been released.
    pub open spec fn spec_dec(self) -> Enabled<T> {
        Enabled { users: (self.users - 1) as u32, ..self }
    }

    /// Wrap a freshly enabled clock; nothing depends on it yet.
    pub(crate) fn new(item: T) -> (e: Enabled<T>)
        ensures
            e.spec_item() == item,
            e.spec_users() == 0,
    {
        Enabled { item, users: 0 }
    }

    /// Record one more downstream dependent.
    pub fn inc(self) -> (e: Enabled<T>)
        requires
            self.spec_users() < u32::MAX,
        ensures
            e == self.spec_inc(),
            e.spec_item() == self.spec_item(),
            e.spec_users() == self.spec_users() + 1,
    {
        Enabled { users: self.users + 1, ..self }
    }

    /// Release one downstream dependent.
    pub fn dec(self) -> (e: Enabled<T>)
        requires
            self.spec_users() > 0,
        ensures
            e == self.spec_dec(),
            e.spec_item() == self.spec_item(),
            e.spec_users() == self.spec_users() - 1,
    {
        Enabled { users: self.users - 1, ..self }
    }

    /// Read the usage counter.
    pub fn users(&self) -> (n: u32)
        ensures
            n == self.spec_users(),
    {
        self.users
    }
}

impl<T: Source> Enabled<T> {
    /// Whether the wrapped clock's configuration is representable.
    pub open spec fn wf(&self) -> bool {
        self.spec_item().wf()
    }

    /// The output frequency of the wrapped clock, in hertz.
    pub open spec fn freq_spec(&self) -> u32 {
        self.spec_item().freq_spec()
    }

    /// Return the output frequency of the enabled clock.
    pub fn freq(&self) -> (f: Hertz)
        requires
            self.wf(),
        ensures
            f.0 == self.freq_spec(),
    {
        self.item.freq()
    }
}

/// Taking a dependency on a source and releasing it again leaves the source
/// exactly as it was: the counter returns to its old value and the wrapped
/// clock is untouched throughout.
pub proof fn lemma_usage_count_balance<T>(e: Enabled<T>)
    requires
        e.spec_users() < u32::MAX,
    ensures
        e.spec_inc().spec_dec() == e,
        e.spec_inc().spec_item() == e.spec_item(),
{
}

} // verus!

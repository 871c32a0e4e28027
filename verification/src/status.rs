//! Hardware status words handed in by the caller.
//!
//! Readiness and lock bits are set by the hardware on its own schedule, so
//! they enter the library as plain values captured by the surrounding
//! firmware; the query methods here decide from such a captured word whether
//! an operation may proceed or must be retried.

use vstd::prelude::*;

verus! {

/// Signal that a readiness or lock query found the hardware not ready yet.
///
/// The caller is expected to capture a fresh status word and retry; the
/// library itself never blocks.
#[derive(Clone, Copy, PartialEq, Eq, Structural, Debug)]
pub struct WouldBlock;

/// A captured copy of the oscillator ready-status word.
#[derive(Clone, Copy, PartialEq, Eq, Structural, Debug)]
pub struct Pclksr {
    /// External multi-megahertz oscillator ready.
    pub xoscrdy: bool,
    /// External 32 kHz oscillator ready.
    pub xosc32krdy: bool,
    /// Internal 32 kHz oscillator ready.
    pub osc32krdy: bool,
    /// Internal 8 MHz oscillator ready.
    pub osc8mrdy: bool,
}

/// A captured copy of the phase-locked-loop status word.
///
/// The hardware exposes two independent readiness flags: `clkrdy` says the
/// output frequency is nominally stable, `lock` says the loop is phase
/// locked. A caller that needs a fully locked, stable signal polls both.
#[derive(Clone, Copy, PartialEq, Eq, Structural, Debug)]
pub struct DpllStatus {
    /// The loop has achieved phase lock.
    pub lock: bool,
    /// The output clock is ready.
    pub clkrdy: bool,
}

} // verus!

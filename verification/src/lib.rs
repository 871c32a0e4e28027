//! Clock-tree management layer for a small microcontroller family.
//!
//! The library models the chip's clock-generation network: oscillators, a
//! digital phase-locked loop, bus clock gates and peripheral channel clocks.
//! Every hardware unit is represented by a token that owns the unit's
//! control-register state; a token is turned into a configured handle and an
//! enabled handle in turn, and an enabled clock carries a usage counter so
//! that a source can only be disabled once nothing depends on it any more.
//!
//! The contracts state, bit for bit and field for field, what each operation
//! does to the register state it owns, when enabling succeeds, and what
//! frequency every enabled clock runs at.

pub mod apb;
pub mod dpll;
pub mod eic;
pub mod gclk;
pub mod osc32k;
pub mod osc32k_reg;
pub mod osc8m;
pub mod osculp32k;
pub mod pclk;
pub mod reset;
pub mod status;
pub mod time;
pub mod xosc;
pub mod xosc32k;

mod enabled;

pub use enabled::lemma_usage_count_balance;
pub use enabled::Enabled;
pub use enabled::Source;

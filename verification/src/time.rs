//! Frequency values.

use vstd::prelude::*;

verus! {

/// A frequency, counted in whole hertz.
///
/// Every enabled clock reports its output as one of these plain integer
/// values; downstream peripheral drivers need nothing more.
#[derive(Clone, Copy, PartialEq, Eq, Structural, Debug)]
pub struct Hertz(pub u32);

impl Hertz {
    /// The raw count of cycles per second.
    pub fn to_hz(&self) -> (hz: u32)
        ensures
            hz == self.0,
    {
        self.0
    }
}

} // verus!

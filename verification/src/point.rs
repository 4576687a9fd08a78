//! The hue/saturation/value working point and the oscillator samples that
//! drive it.

use vstd::prelude::*;

use crate::units::{FULL_TURN, ONE};

verus! {

/// A point in hue/saturation/value space.
///
/// `hue` is in millionths of a degree; `saturation` and `value` are
/// fixed-point fractions of [`ONE`].
#[derive(Clone, Copy, Debug, PartialEq, Eq, Structural)]
pub struct Hsv {
    pub hue: u32,
    pub saturation: u32,
    pub value: u32,
}

impl Hsv {
    /// The hue lies on the circle and saturation and value in the unit
    /// interval.
    pub open spec fn wf(&self) -> bool {
        &&& self.hue < FULL_TURN
        &&& self.saturation <= ONE
        &&& self.value <= ONE
    }

    /// Tests whether the point is well formed.
    pub fn is_well_formed(&self) -> (ok: bool)
        ensures
            ok == self.wf(),
    {
        self.hue < FULL_TURN && self.saturation <= ONE && self.value <= ONE
    }
}

/// The samples of a style's three oscillators at one iteration.
///
/// Each field is a sine, cosine or tangent in millionths, with its sign. Only
/// the magnitude of a sample enters a recurrence. The magnitude of `hue` is
/// added to the hue as millionths of a degree and may be arbitrarily large,
/// since a tangent is unbounded; `saturation` and `value` come from sines and
/// cosines and have a magnitude of at most [`ONE`].
#[derive(Clone, Copy, Debug, PartialEq, Eq, Structural)]
pub struct Wave {
    pub hue: i64,
    pub saturation: i32,
    pub value: i32,
}

impl Wave {
    /// The saturation and value samples are those of a sine or cosine.
    pub open spec fn wf(&self) -> bool {
        &&& -(ONE as int) <= self.saturation <= ONE
        &&& -(ONE as int) <= self.value <= ONE
    }

    /// Tests whether the wave is well formed.
    pub fn is_well_formed(&self) -> (ok: bool)
        ensures
            ok == self.wf(),
    {
        let one: i32 = 1_000_000;
        -one <= self.saturation && self.saturation <= one && -one <= self.value && self.value
            <= one
    }
}

} // verus!

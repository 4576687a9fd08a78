//! Palette styles: where each one seeds its walk and which oscillators drive
//! it.

use vstd::prelude::*;

use crate::point::Hsv;
use crate::random::gen_range;
use crate::units::FULL_TURN;

verus! {

/// The style of a palette.
#[derive(Clone, Copy, Debug, PartialEq, Eq, Structural)]
pub enum PaletteType {
    /// Saturated colours of any brightness short of white and black.
    Random,
    /// Pale, bright colours.
    Pastel,
    /// Dim colours.
    Dark,
}

/// The shape of an oscillator.
#[derive(Clone, Copy, Debug, PartialEq, Eq, Structural)]
pub enum Waveform {
    Sine,
    Cosine,
    Tangent,
}

/// An oscillator: at iteration `i` it is sampled at the angle `rate * i`,
/// where `rate` is in thousandths of a radian.
#[derive(Clone, Copy, Debug, PartialEq, Eq, Structural)]
pub struct Oscillator {
    pub waveform: Waveform,
    pub rate: u32,
}

/// The three oscillators of a style, one for each component of the working
/// point. Their samples at one iteration make up a
/// [`Wave`](crate::point::Wave).
#[derive(Clone, Copy, Debug, PartialEq, Eq, Structural)]
pub struct Oscillators {
    pub hue: Oscillator,
    pub saturation: Oscillator,
    pub value: Oscillator,
}

impl PaletteType {
    /// The oscillators of each style:
    ///
    /// | style  | hue        | saturation | value        |
    /// |--------|------------|------------|--------------|
    /// | Random | tan(55 i)  | sin(0.35 i)| cos(3.165 i) |
    /// | Pastel | cos(25 i)  | cos(0.35 i)| cos(i)       |
    /// | Dark   | cos(43 i)  | sin(0.75 i)| cos(i)       |
    pub open spec fn spec_oscillators(self) -> Oscillators {
        match self {
            PaletteType::Random => Oscillators {
                hue: Oscillator { waveform: Waveform::Tangent, rate: 55_000 },
                saturation: Oscillator { waveform: Waveform::Sine, rate: 350 },
                value: Oscillator { waveform: Waveform::Cosine, rate: 3_165 },
            },
            PaletteType::Pastel => Oscillators {
                hue: Oscillator { waveform: Waveform::Cosine, rate: 25_000 },
                saturation: Oscillator { waveform: Waveform::Cosine, rate: 350 },
                value: Oscillator { waveform: Waveform::Cosine, rate: 1_000 },
            },
            PaletteType::Dark => Oscillators {
                hue: Oscillator { waveform: Waveform::Cosine, rate: 43_000 },
                saturation: Oscillator { waveform: Waveform::Sine, rate: 750 },
                value: Oscillator { waveform: Waveform::Cosine, rate: 1_000 },
            },
        }
    }

    /// The bounds `low..high` between which a style draws its first
    /// saturation.
    pub open spec fn seed_saturation(self) -> (u32, u32) {
        match self {
            PaletteType::Random => (500_000, 1_000_000),
            PaletteType::Pastel => (100_000, 400_000),
            PaletteType::Dark => (500_000, 1_000_000),
        }
    }

    /// The bounds `low..high` between which a style draws its first value.
    pub open spec fn seed_value(self) -> (u32, u32) {
        match self {
            PaletteType::Random => (300_000, 1_000_000),
            PaletteType::Pastel => (700_000, 1_000_000),
            PaletteType::Dark => (0, 400_000),
        }
    }

    /// `seed` is a point from which a palette of this style may start: any
    /// hue on the circle, saturation and value within the style's bounds.
    pub open spec fn admits_seed(self, seed: Hsv) -> bool {
        &&& seed.hue < FULL_TURN
        &&& self.seed_saturation().0 <= seed.saturation < self.seed_saturation().1
        &&& self.seed_value().0 <= seed.value < self.seed_value().1
    }

    /// The oscillators whose samples drive this style's recurrence.
    pub fn oscillators(self) -> (bank: Oscillators)
        ensures
            bank == self.spec_oscillators(),
    {
        match self {
            PaletteType::Random => Oscillators {
                hue: Oscillator { waveform: Waveform::Tangent, rate: 55_000 },
                saturation: Oscillator { waveform: Waveform::Sine, rate: 350 },
                value: Oscillator { waveform: Waveform::Cosine, rate: 3_165 },
            },
            PaletteType::Pastel => Oscillators {
                hue: Oscillator { waveform: Waveform::Cosine, rate: 25_000 },
                saturation: Oscillator { waveform: Waveform::Cosine, rate: 350 },
                value: Oscillator { waveform: Waveform::Cosine, rate: 1_000 },
            },
            PaletteType::Dark => Oscillators {
                hue: Oscillator { waveform: Waveform::Cosine, rate: 43_000 },
                saturation: Oscillator { waveform: Waveform::Sine, rate: 750 },
                value: Oscillator { waveform: Waveform::Cosine, rate: 1_000 },
            },
        }
    }

    /// Draws the point from which a palette of this style starts. It is kept
    /// away from pure white and pure black.
    pub fn draw_seed(self) -> (seed: Hsv)
        ensures
            self.admits_seed(seed),
            seed.wf(),
    {
        let mut rng = rand::thread_rng();

        let hue: u32;
        let saturation: u32;
        let value: u32;

        match self {
            PaletteType::Random => {
                hue = gen_range(&mut rng, 0, FULL_TURN);
                saturation = gen_range(&mut rng, 500_000, 1_000_000);
                value = gen_range(&mut rng, 300_000, 1_000_000);
            },
            PaletteType::Pastel => {
                hue = gen_range(&mut rng, 0, FULL_TURN);
                saturation = gen_range(&mut rng, 100_000, 400_000);
                value = gen_range(&mut rng, 700_000, 1_000_000);
            },
            PaletteType::Dark => {
                hue = gen_range(&mut rng, 0, FULL_TURN);
                saturation = gen_range(&mut rng, 500_000, 1_000_000);
                value = gen_range(&mut rng, 0, 400_000);
            },
        }

        Hsv { hue, saturation, value }
    }
}

} // verus!

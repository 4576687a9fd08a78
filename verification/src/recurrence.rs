//! The per-style recurrences that move the working point from one colour to
//! the next.

use vstd::math::abs;
use vstd::prelude::*;

use crate::palette::ColorPalette;
use crate::point::{Hsv, Wave};
use crate::style::PaletteType;
use crate::units::{FULL_TURN, ONE};

verus! {

/// Fifteen degrees: the least hue step that a recurrence takes.
pub const MIN_DIVERGENCE: i64 = 15_000_000;

/// The divergence that a step uses: `base`, raised to [`MIN_DIVERGENCE`]
/// where it is smaller.
pub open spec fn effective_divergence(base: int) -> int {
    if base < MIN_DIVERGENCE {
        MIN_DIVERGENCE as int
    } else {
        base
    }
}

/// The hue after a step, `|hue + divergence + |sample|| mod 360`: the old hue
/// moved on by the effective divergence and the magnitude of the hue
/// oscillator's sample, wrapped onto the circle.
pub open spec fn next_hue(hue: int, sample: int, divergence: int) -> int {
    abs(hue + effective_divergence(divergence) + abs(sample)) as int % (FULL_TURN as int)
}

/// The point that follows `point` in a dark palette: saturation
/// `0.32 + |sample| / 2` and value `0.1 + |sample| / 6`.
pub open spec fn spec_palette_dark(point: Hsv, wave: Wave, divergence: int) -> Hsv {
    Hsv {
        hue: next_hue(point.hue as int, wave.hue as int, divergence) as u32,
        saturation: (320_000 + abs(wave.saturation as int) / 2) as u32,
        value: (100_000 + abs(wave.value as int) / 6) as u32,
    }
}

/// The point that follows `point` in a pastel palette: saturation
/// `|sample| / 5` and value `0.5 + |sample| / 2`.
pub open spec fn spec_palette_pastel(point: Hsv, wave: Wave, divergence: int) -> Hsv {
    Hsv {
        hue: next_hue(point.hue as int, wave.hue as int, divergence) as u32,
        saturation: (abs(wave.saturation as int) / 5) as u32,
        value: (500_000 + abs(wave.value as int) / 2) as u32,
    }
}

/// The point that follows `point` in a random palette: the saturation is
/// `|sample|` raised to at least 0.4, the value is `|sample|` held within 0.2
/// and 0.85.
pub open spec fn spec_palette_random(point: Hsv, wave: Wave, divergence: int) -> Hsv {
    Hsv {
        hue: next_hue(point.hue as int, wave.hue as int, divergence) as u32,
        saturation: if abs(wave.saturation as int) < 400_000 {
            400_000
        } else {
            abs(wave.saturation as int) as u32
        },
        value: if abs(wave.value as int) < 200_000 {
            200_000
        } else if abs(wave.value as int) > 850_000 {
            850_000
        } else {
            abs(wave.value as int) as u32
        },
    }
}

/// One step of the recurrence of `style`.
pub open spec fn spec_step(style: PaletteType, point: Hsv, wave: Wave, divergence: int) -> Hsv {
    match style {
        PaletteType::Random => spec_palette_random(point, wave, divergence),
        PaletteType::Pastel => spec_palette_pastel(point, wave, divergence),
        PaletteType::Dark => spec_palette_dark(point, wave, divergence),
    }
}

/// Whatever the point, the wave and the divergence, a step of any style
/// leaves the hue on the circle.
pub proof fn lemma_step_normalizes_hue(
    style: PaletteType,
    point: Hsv,
    wave: Wave,
    divergence: int,
)
    ensures
        spec_step(style, point, wave, divergence).hue == next_hue(
            point.hue as int,
            wave.hue as int,
            divergence,
        ),
        spec_step(style, point, wave, divergence).hue < FULL_TURN,
{
}

/// Whatever the wave, the saturation after a step of the random recurrence is
/// at least 0.4 and the value lies within 0.2 and 0.85.
pub proof fn lemma_random_step_clamps(point: Hsv, wave: Wave, divergence: int)
    ensures
        spec_palette_random(point, wave, divergence).saturation >= 400_000,
        200_000 <= spec_palette_random(point, wave, divergence).value <= 850_000,
{
}

/// A step of any style driven by a well-formed wave gives a well-formed
/// point: saturation and value stay in the unit interval.
pub proof fn lemma_step_wf(style: PaletteType, point: Hsv, wave: Wave, divergence: int)
    requires
        wave.wf(),
    ensures
        spec_step(style, point, wave, divergence).wf(),
{
}

/// Where each style keeps the working point when its waves are well formed:
/// dark colours have a value of at most 0.2667 and a saturation within 0.32
/// and 0.82, pastel colours a saturation of at most 0.2 and a value of at
/// least 0.5, and random colours a saturation of at least 0.4 and a value
/// within 0.2 and 0.85.
pub proof fn lemma_step_ranges(style: PaletteType, point: Hsv, wave: Wave, divergence: int)
    requires
        wave.wf(),
    ensures
        ({
            let next = spec_step(style, point, wave, divergence);
            match style {
                PaletteType::Dark => {
                    &&& 320_000 <= next.saturation <= 820_000
                    &&& 100_000 <= next.value <= 266_666
                },
                PaletteType::Pastel => {
                    &&& next.saturation <= 200_000
                    &&& 500_000 <= next.value <= ONE
                },
                PaletteType::Random => {
                    &&& 400_000 <= next.saturation <= ONE
                    &&& 200_000 <= next.value <= 850_000
                },
            }
        }),
{
}

/// The magnitude of a saturation or value sample.
fn magnitude(sample: i32) -> (size: u32)
    ensures
        size == abs(sample as int),
{
    if sample < 0 {
        (-(sample as i64)) as u32
    } else {
        sample as u32
    }
}

/// Moves a hue on by one step.
fn advance_hue(hue: u32, sample: i64, divergence: i64) -> (next: u32)
    ensures
        next == next_hue(hue as int, sample as int, divergence as int),
        next < FULL_TURN,
{
    let div: u64 = if divergence < MIN_DIVERGENCE {
        MIN_DIVERGENCE as u64
    } else {
        divergence as u64
    };
    let jitter: u64 = if sample < 0 {
        (-(sample as i128)) as u64
    } else {
        sample as u64
    };
    let sum: u128 = hue as u128 + div as u128 + jitter as u128;
    (sum % (FULL_TURN as u128)) as u32
}

impl ColorPalette {
    /// Advances `point` by one step of the dark recurrence.
    pub fn palette_dark(point: &mut Hsv, wave: &Wave, divergence: i64)
        ensures
            *final(point) == spec_palette_dark(*old(point), *wave, divergence as int),
            final(point).hue < FULL_TURN,
            wave.wf() ==> final(point).wf(),
    {
        point.hue = advance_hue(point.hue, wave.hue, divergence);
        point.saturation = 320_000 + magnitude(wave.saturation) / 2;
        point.value = 100_000 + magnitude(wave.value) / 6;
    }

    /// Advances `point` by one step of the pastel recurrence.
    pub fn palette_pastel(point: &mut Hsv, wave: &Wave, divergence: i64)
        ensures
            *final(point) == spec_palette_pastel(*old(point), *wave, divergence as int),
            final(point).hue < FULL_TURN,
            wave.wf() ==> final(point).wf(),
    {
        point.hue = advance_hue(point.hue, wave.hue, divergence);
        point.saturation = magnitude(wave.saturation) / 5;
        point.value = 500_000 + magnitude(wave.value) / 2;
    }

    /// Advances `point` by one step of the random recurrence.
    pub fn palette_random(point: &mut Hsv, wave: &Wave, divergence: i64)
        ensures
            *final(point) == spec_palette_random(*old(point), *wave, divergence as int),
            final(point).hue < FULL_TURN,
            final(point).saturation >= 400_000,
            200_000 <= final(point).value <= 850_000,
            wave.wf() ==> final(point).wf(),
    {
        point.hue = advance_hue(point.hue, wave.hue, divergence);
        point.saturation = magnitude(wave.saturation);
        point.value = magnitude(wave.value);

        if point.saturation < 400_000 {
            point.saturation = 400_000;
        }

        if point.value < 200_000 {
            point.value = 200_000;
        } else if point.value > 850_000 {
            point.value = 850_000;
        }
    }
}

} // verus!

//! Palettes and their generation.

use vstd::prelude::*;

use crate::color::{lemma_hsv_to_rgb_in_gamut, Color};
use crate::point::{Hsv, Wave};
use crate::recurrence::{
    lemma_random_step_clamps, lemma_step_normalizes_hue, lemma_step_wf, spec_step,
};
use crate::style::PaletteType;
use crate::units::FULL_TURN;

verus! {

/// An ordered list of colours, in the order in which they were generated.
pub struct ColorPalette {
    pub colors: Vec<Color>,
}

impl View for ColorPalette {
    type V = Seq<Color>;

    /// The colours of the palette, first generated first.
    open spec fn view(&self) -> Seq<Color> {
        self.colors@
    }
}

/// Eighty degrees: the base hue step of a palette whose colours are spread
/// apart.
pub const SPREAD_DIVERGENCE: i64 = 80_000_000;

/// Twenty-five degrees: the base hue step of a palette of adjacent colours.
pub const ADJACENT_DIVERGENCE: i64 = 25_000_000;

/// The base hue step of a palette of `count` colours: 25 degrees for
/// adjacent colours and 80 otherwise, less `count / 2.6` degrees, so that
/// larger palettes take smaller steps. The reduction is `count * 10 / 26`
/// degrees, rounded down to a millionth. The result may be negative; the
/// recurrences raise it to their minimum.
pub open spec fn spec_base_divergence(count: int, adjacent: bool) -> int {
    (if adjacent {
        ADJACENT_DIVERGENCE as int
    } else {
        SPREAD_DIVERGENCE as int
    }) - count * 10_000_000 / 26
}

/// The working point at iteration `i`: the seed at iteration 0, and from then
/// on the previous point advanced with the previous iteration's wave.
pub open spec fn point_at(
    style: PaletteType,
    seed: Hsv,
    divergence: int,
    waves: Seq<Wave>,
    i: nat,
) -> Hsv
    decreases i,
{
    if i == 0 {
        seed
    } else {
        spec_step(
            style,
            point_at(style, seed, divergence, waves, (i - 1) as nat),
            waves[i - 1],
            divergence,
        )
    }
}

/// The colour of a point.
pub open spec fn color_of(point: Hsv) -> Color {
    Color::spec_hsv_to_rgb(point.hue, point.saturation, point.value)
}

/// The colours of the palette that starts at `seed`: one for each wave, the
/// `i`-th being the colour of the working point at iteration `i`.
pub open spec fn palette_colors(
    style: PaletteType,
    seed: Hsv,
    divergence: int,
    waves: Seq<Wave>,
) -> Seq<Color> {
    Seq::new(waves.len(), |i: int| color_of(point_at(style, seed, divergence, waves, i as nat)))
}

/// Every wave of `waves` is well formed.
pub open spec fn waves_wf(waves: Seq<Wave>) -> bool {
    forall|i: int| 0 <= i < waves.len() ==> (#[trigger] waves[i]).wf()
}

/// From the first step on, the working point's hue lies on the circle,
/// whatever the seed, the waves and the divergence.
pub proof fn lemma_points_on_circle(
    style: PaletteType,
    seed: Hsv,
    divergence: int,
    waves: Seq<Wave>,
    i: nat,
)
    requires
        i >= 1,
    ensures
        point_at(style, seed, divergence, waves, i).hue < FULL_TURN,
{
    let before = point_at(style, seed, divergence, waves, (i - 1) as nat);
    lemma_step_normalizes_hue(style, before, waves[i - 1], divergence);
}

/// From the first step of a random walk on, the working point's saturation is
/// at least 0.4 and its value lies within 0.2 and 0.85, whatever the seed, the
/// waves and the divergence.
pub proof fn lemma_random_points_clamped(
    seed: Hsv,
    divergence: int,
    waves: Seq<Wave>,
    i: nat,
)
    requires
        i >= 1,
    ensures
        point_at(PaletteType::Random, seed, divergence, waves, i).saturation >= 400_000,
        200_000 <= point_at(PaletteType::Random, seed, divergence, waves, i).value <= 850_000,
{
    let before = point_at(PaletteType::Random, seed, divergence, waves, (i - 1) as nat);
    lemma_random_step_clamps(before, waves[i - 1], divergence);
}

/// Every working point of a walk from a well-formed seed over well-formed
/// waves is well formed.
pub proof fn lemma_points_wf(
    style: PaletteType,
    seed: Hsv,
    divergence: int,
    waves: Seq<Wave>,
    i: nat,
)
    requires
        seed.wf(),
        waves_wf(waves),
        i <= waves.len(),
    ensures
        point_at(style, seed, divergence, waves, i).wf(),
    decreases i,
{
    if i > 0 {
        let before = point_at(style, seed, divergence, waves, (i - 1) as nat);
        lemma_points_wf(style, seed, divergence, waves, (i - 1) as nat);
        lemma_step_wf(style, before, waves[i - 1], divergence);
    }
}

/// A palette from a well-formed seed over well-formed waves holds one colour
/// for each wave, and every channel of every colour lies in the unit
/// interval.
pub proof fn lemma_palette_in_gamut(
    style: PaletteType,
    seed: Hsv,
    divergence: int,
    waves: Seq<Wave>,
)
    requires
        seed.wf(),
        waves_wf(waves),
    ensures
        palette_colors(style, seed, divergence, waves).len() == waves.len(),
        forall|i: int|
            0 <= i < waves.len() ==> (#[trigger] palette_colors(
                style,
                seed,
                divergence,
                waves,
            )[i]).in_gamut(),
{
    assert forall|i: int| 0 <= i < waves.len() implies (#[trigger] palette_colors(
        style,
        seed,
        divergence,
        waves,
    )[i]).in_gamut() by {
        let point = point_at(style, seed, divergence, waves, i as nat);
        lemma_points_wf(style, seed, divergence, waves, i as nat);
        lemma_hsv_to_rgb_in_gamut(point.hue, point.saturation, point.value);
    }
}

/// A walk reads only the waves that it has passed: two lists of waves that
/// agree on their first `i` entries lead to the same working point at
/// iteration `i`.
pub proof fn lemma_point_depends_on_prefix(
    style: PaletteType,
    seed: Hsv,
    divergence: int,
    waves_a: Seq<Wave>,
    waves_b: Seq<Wave>,
    i: nat,
)
    requires
        i <= waves_a.len(),
        i <= waves_b.len(),
        forall|j: int| 0 <= j < i ==> waves_a[j] == waves_b[j],
    ensures
        point_at(style, seed, divergence, waves_a, i) == point_at(
            style,
            seed,
            divergence,
            waves_b,
            i,
        ),
    decreases i,
{
    if i > 0 {
        lemma_point_depends_on_prefix(style, seed, divergence, waves_a, waves_b, (i - 1) as nat);
    }
}

/// Generation is deterministic once the seed is fixed: two palettes generated
/// from the same seed, count, style, spread and waves hold the same colours in
/// the same order.
pub proof fn lemma_same_seed_same_palette(
    first: ColorPalette,
    second: ColorPalette,
    seed: Hsv,
    count: u32,
    style: PaletteType,
    adjacent: bool,
    waves: Seq<Wave>,
)
    requires
        first.generated_from(seed, count, style, adjacent, waves),
        second.generated_from(seed, count, style, adjacent, waves),
    ensures
        first@ == second@,
{
}

impl ColorPalette {
    /// Every channel of every colour lies in the unit interval.
    pub open spec fn in_gamut(&self) -> bool {
        forall|i: int| 0 <= i < self@.len() ==> (#[trigger] self@[i]).in_gamut()
    }

    /// This palette is the one that [`from_seed`](ColorPalette::from_seed)
    /// generates from the given seed, count, style, spread and waves.
    pub open spec fn generated_from(
        &self,
        seed: Hsv,
        count: u32,
        style: PaletteType,
        adjacent: bool,
        waves: Seq<Wave>,
    ) -> bool {
        self@ == palette_colors(style, seed, spec_base_divergence(count as int, adjacent), waves)
    }

    /// The base hue step of a palette of `count` colours.
    pub fn base_divergence(count: u32, adjacent_colors: bool) -> (base: i64)
        ensures
            base == spec_base_divergence(count as int, adjacent_colors),
    {
        let mut base: i64 = SPREAD_DIVERGENCE;

        if adjacent_colors {
            base = ADJACENT_DIVERGENCE;
        }

        let reduction: u64 = count as u64 * 10_000_000 / 26;
        base - reduction as i64
    }

    /// Generates the palette of `count` colours that starts at `seed`.
    ///
    /// `waves` holds one wave for each colour: `waves[i]` is sampled at
    /// iteration `i` from the oscillators of `palette_type`. The `i`-th colour
    /// is the colour of the working point before its `i`-th step.
    pub fn from_seed(
        seed: Hsv,
        count: u32,
        palette_type: PaletteType,
        adjacent_colors: bool,
        waves: &Vec<Wave>,
    ) -> (palette: ColorPalette)
        requires
            seed.wf(),
            waves@.len() == count,
            waves_wf(waves@),
        ensures
            palette.generated_from(seed, count, palette_type, adjacent_colors, waves@),
            palette@.len() == count,
            palette.in_gamut(),
    {
        let mut point = seed;
        let mut palette: Vec<Color> = Vec::new();
        let base_divergence = Self::base_divergence(count, adjacent_colors);

        let mut i: u32 = 0;
        while i < count
            invariant
                i <= count,
                waves@.len() == count,
                waves_wf(waves@),
                base_divergence == spec_base_divergence(count as int, adjacent_colors),
                point.wf(),
                point == point_at(palette_type, seed, base_divergence as int, waves@, i as nat),
                palette@.len() == i,
                forall|j: int|
                    0 <= j < i ==> #[trigger] palette@[j] == color_of(
                        point_at(palette_type, seed, base_divergence as int, waves@, j as nat),
                    ),
                forall|j: int| 0 <= j < i ==> (#[trigger] palette@[j]).in_gamut(),
            decreases count - i,
        {
            let rgb = Color::hsv_to_rgb(point.hue, point.saturation, point.value);
            let wave = &waves[i as usize];

            match palette_type {
                PaletteType::Random => {
                    ColorPalette::palette_random(&mut point, wave, base_divergence);
                },
                PaletteType::Pastel => {
                    ColorPalette::palette_pastel(&mut point, wave, base_divergence);
                },
                PaletteType::Dark => {
                    ColorPalette::palette_dark(&mut point, wave, base_divergence);
                },
            }

            palette.push(rgb);
            i += 1;
        }

        assert(palette@ =~= palette_colors(
            palette_type,
            seed,
            base_divergence as int,
            waves@,
        ));
        ColorPalette { colors: palette }
    }

    /// Generates a palette of `count` colours from a randomly drawn seed.
    ///
    /// `waves` holds one wave for each colour, as for
    /// [`from_seed`](ColorPalette::from_seed). The palette is the one that
    /// `from_seed` gives for some seed that the style admits.
    pub fn new(
        count: u32,
        palette_type: PaletteType,
        adjacent_colors: bool,
        waves: &Vec<Wave>,
    ) -> (palette: ColorPalette)
        requires
            waves@.len() == count,
            waves_wf(waves@),
        ensures
            exists|seed: Hsv|
                #[trigger] palette_type.admits_seed(seed) && palette.generated_from(
                    seed,
                    count,
                    palette_type,
                    adjacent_colors,
                    waves@,
                ),
            palette@.len() == count,
            palette.in_gamut(),
    {
        let seed = palette_type.draw_seed();
        Self::from_seed(seed, count, palette_type, adjacent_colors, waves)
    }
}

} // verus!

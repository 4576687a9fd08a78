//! RGB colours and the conversion from hue, saturation and value.

use vstd::prelude::*;

use crate::units::{FULL_TURN, ONE, SECTOR};

verus! {

/// An RGB colour. Each channel is a fixed-point fraction of [`ONE`].
#[derive(Clone, Copy, Debug, PartialEq, Eq, Structural)]
pub struct Color {
    pub red: u32,
    pub green: u32,
    pub blue: u32,
}

/// Chroma: the spread between the strongest and the weakest channel,
/// `value * saturation`.
pub open spec fn chroma(saturation: int, value: int) -> int {
    value * saturation / (ONE as int)
}

/// The triangle wave `1 - |(hue / 60) mod 2 - 1|`, scaled to `0..=SECTOR`:
/// zero at 0, 120 and 240 degrees, [`SECTOR`] at 60, 180 and 300 degrees.
pub open spec fn ramp(hue: int) -> int {
    let phase = hue % (2 * SECTOR);
    if phase <= SECTOR {
        phase
    } else {
        2 * SECTOR - phase
    }
}

/// The share of the chroma given to the second strongest channel.
pub open spec fn secondary(hue: int, saturation: int, value: int) -> int {
    chroma(saturation, value) * ramp(hue) / (SECTOR as int)
}

impl Color {
    /// Every channel lies in the unit interval.
    pub open spec fn in_gamut(&self) -> bool {
        self.red <= ONE && self.green <= ONE && self.blue <= ONE
    }

    /// The largest of the three channels.
    pub open spec fn strongest(&self) -> int {
        if self.red >= self.green && self.red >= self.blue {
            self.red as int
        } else if self.green >= self.blue {
            self.green as int
        } else {
            self.blue as int
        }
    }

    /// The smallest of the three channels.
    pub open spec fn weakest(&self) -> int {
        if self.red <= self.green && self.red <= self.blue {
            self.red as int
        } else if self.green <= self.blue {
            self.green as int
        } else {
            self.blue as int
        }
    }

    /// Every channel lies between `low` and `high`.
    pub open spec fn within(&self, low: int, high: int) -> bool {
        &&& low <= self.red <= high
        &&& low <= self.green <= high
        &&& low <= self.blue <= high
    }

    /// No channel of `self` is more than one millionth away from the same
    /// channel of `other`.
    pub open spec fn near(&self, other: Color) -> bool {
        &&& -1 <= self.red - other.red <= 1
        &&& -1 <= self.green - other.green <= 1
        &&& -1 <= self.blue - other.blue <= 1
    }

    /// The colour of a hue/saturation/value point.
    ///
    /// The hue circle is cut into six sectors of sixty degrees. In each one
    /// the strongest channel carries `value`, the weakest `value - chroma`,
    /// and the third lies between them, following [`ramp`]. A hue outside the
    /// circle gives the grey `value - chroma`.
    pub open spec fn spec_hsv_to_rgb(hue: u32, saturation: u32, value: u32) -> Color {
        let c = chroma(saturation as int, value as int);
        let x = secondary(hue as int, saturation as int, value as int);
        let m = value - c;
        let (r, g, b) = if hue < 1 * SECTOR {
            (c, x, 0)
        } else if hue < 2 * SECTOR {
            (x, c, 0)
        } else if hue < 3 * SECTOR {
            (0, c, x)
        } else if hue < 4 * SECTOR {
            (0, x, c)
        } else if hue < 5 * SECTOR {
            (x, 0, c)
        } else if hue < 6 * SECTOR {
            (c, 0, x)
        } else {
            (0, 0, 0)
        };
        Color { red: (r + m) as u32, green: (g + m) as u32, blue: (b + m) as u32 }
    }

    /// The three channels in the order red, green, blue.
    pub fn to_array(&self) -> (channels: [u32; 3])
        ensures
            channels@ == seq![self.red, self.green, self.blue],
    {
        let channels = [self.red, self.green, self.blue];
        assert(channels@ =~= seq![self.red, self.green, self.blue]);
        channels
    }

    /// Converts a hue/saturation/value point to RGB.
    ///
    /// `hue` is in millionths of a degree, `saturation` and `value` in
    /// millionths of one. Divisions round down.
    pub fn hsv_to_rgb(hue: u32, saturation: u32, value: u32) -> (color: Color)
        requires
            saturation <= ONE,
            value <= ONE,
        ensures
            color == Self::spec_hsv_to_rgb(hue, saturation, value),
            color.in_gamut(),
    {
        proof {
            lemma_chroma_secondary_bounds(hue as int, saturation as int, value as int);
        }
        let chroma: u32 = ((value as u64 * saturation as u64) / (ONE as u64)) as u32;
        let phase: u32 = hue % (2 * SECTOR);
        let ramp: u32 = if phase <= SECTOR {
            phase
        } else {
            2 * SECTOR - phase
        };
        let tmp: u32 = ((chroma as u64 * ramp as u64) / (SECTOR as u64)) as u32;
        let m: u32 = value - chroma;
        let (r, g, b): (u32, u32, u32) = if hue < 1 * SECTOR {
            (chroma, tmp, 0)
        } else if hue < 2 * SECTOR {
            (tmp, chroma, 0)
        } else if hue < 3 * SECTOR {
            (0, chroma, tmp)
        } else if hue < 4 * SECTOR {
            (0, tmp, chroma)
        } else if hue < 5 * SECTOR {
            (tmp, 0, chroma)
        } else if hue < 6 * SECTOR {
            (chroma, 0, tmp)
        } else {
            (0, 0, 0)
        };
        Color { red: r + m, green: g + m, blue: b + m }
    }
}

/// For a saturation and a value in the unit interval, every channel of the
/// converted colour lies in the unit interval, whatever the hue. More exactly,
/// every channel lies between `value - chroma` and `value`.
pub proof fn lemma_hsv_to_rgb_in_gamut(hue: u32, saturation: u32, value: u32)
    requires
        saturation <= ONE,
        value <= ONE,
    ensures
        Color::spec_hsv_to_rgb(hue, saturation, value).in_gamut(),
        Color::spec_hsv_to_rgb(hue, saturation, value).within(
            value - chroma(saturation as int, value as int),
            value as int,
        ),
{
    lemma_chroma_secondary_bounds(hue as int, saturation as int, value as int);
}

/// For a hue on the circle the conversion keeps what value and chroma mean:
/// the strongest channel is the value, and the strongest and the weakest
/// channel are one chroma apart.
pub proof fn lemma_hsv_to_rgb_extremes(hue: u32, saturation: u32, value: u32)
    requires
        hue < FULL_TURN,
        saturation <= ONE,
        value <= ONE,
    ensures
        Color::spec_hsv_to_rgb(hue, saturation, value).strongest() == value,
        Color::spec_hsv_to_rgb(hue, saturation, value).weakest() == value - chroma(
            saturation as int,
            value as int,
        ),
{
    lemma_chroma_secondary_bounds(hue as int, saturation as int, value as int);
}

/// Chroma never exceeds the value, and the secondary share never exceeds the
/// chroma.
pub proof fn lemma_chroma_secondary_bounds(hue: int, saturation: int, value: int)
    requires
        0 <= hue,
        0 <= saturation <= ONE,
        0 <= value <= ONE,
    ensures
        0 <= ramp(hue) <= SECTOR,
        0 <= value * saturation <= ONE * ONE,
        0 <= chroma(saturation, value) <= value,
        0 <= chroma(saturation, value) * ramp(hue) <= ONE * SECTOR,
        0 <= secondary(hue, saturation, value) <= chroma(saturation, value),
{
    let c = chroma(saturation, value);
    let t = ramp(hue);
    assert(0 <= value * saturation <= value * ONE) by (nonlinear_arith)
        requires
            0 <= saturation <= ONE,
            0 <= value,
    ;
    assert(value * ONE <= ONE * ONE) by (nonlinear_arith)
        requires
            0 <= value <= ONE,
    ;
    assert(0 <= c <= value);
    assert(0 <= c * t <= c * SECTOR) by (nonlinear_arith)
        requires
            0 <= t <= SECTOR,
            0 <= c,
    ;
    assert(c * SECTOR <= ONE * SECTOR) by (nonlinear_arith)
        requires
            0 <= c <= ONE,
    ;
}

/// The hue one millionth of a degree further round the circle: the last hue
/// before a full turn is followed by hue zero.
pub open spec fn hue_after(hue: u32) -> u32 {
    if hue + 1 >= FULL_TURN {
        0
    } else {
        (hue + 1) as u32
    }
}

/// The conversion is continuous in the hue: moving the hue by one millionth
/// of a degree moves each channel by at most one millionth. This holds inside
/// every sector, across every sector boundary, and across the wrap from the
/// end of the circle back to hue zero.
pub proof fn lemma_hue_continuity(hue: u32, saturation: u32, value: u32)
    requires
        hue < FULL_TURN,
        saturation <= ONE,
        value <= ONE,
    ensures
        Color::spec_hsv_to_rgb(hue, saturation, value).near(
            Color::spec_hsv_to_rgb(hue_after(hue), saturation, value),
        ),
{
    let c = chroma(saturation as int, value as int);
    let next = hue_after(hue);
    let r0 = ramp(hue as int);
    let r1 = ramp(next as int);
    lemma_chroma_secondary_bounds(hue as int, saturation as int, value as int);
    lemma_chroma_secondary_bounds(next as int, saturation as int, value as int);
    assert(r1 == r0 + 1 || r0 == r1 + 1);
    if r1 == r0 + 1 {
        lemma_share_step(c, r0);
    } else {
        lemma_share_step(c, r1);
    }
    lemma_share_ends(c);
}

/// Raising the ramp by one raises the share of a chroma by at most one.
proof fn lemma_share_step(c: int, r: int)
    requires
        0 <= c <= ONE,
        0 <= r < SECTOR,
    ensures
        c * r / (SECTOR as int) <= c * (r + 1) / (SECTOR as int) <= c * r / (SECTOR as int) + 1,
{
    assert(c * (r + 1) == c * r + c) by (nonlinear_arith);
    assert(0 <= c * r) by (nonlinear_arith)
        requires
            0 <= c,
            0 <= r,
    ;
}

/// At the foot of the ramp the share is nothing, at its top the whole chroma.
proof fn lemma_share_ends(c: int)
    requires
        0 <= c <= ONE,
    ensures
        c * 0 / (SECTOR as int) == 0,
        c * SECTOR / (SECTOR as int) == c,
{
    assert(c * 0 == 0) by (nonlinear_arith);
    assert(c * SECTOR / (SECTOR as int) == c) by (nonlinear_arith)
        requires
            SECTOR == 60_000_000,
    ;
}

} // verus!

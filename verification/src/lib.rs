//! Palettes of visually distinct colours, computed in fixed-point arithmetic.
//!
//! Every quantity is an integer number of millionths: a channel, a saturation
//! or a value of `1_000_000` is 1.0, and a hue of `1_000_000` is one degree.
//!
//! A palette starts from a hue/saturation/value point, the seed, and walks it
//! forward with a recurrence that depends on the [`PaletteType`]. Each point
//! visited is converted to RGB with [`Color::hsv_to_rgb`].
//!
//! The recurrences are driven by sines, cosines and a tangent of the iteration
//! index. This crate does no floating-point arithmetic: the caller samples the
//! oscillators that [`PaletteType::oscillators`] names and hands over their
//! samples, one [`Wave`] for each colour.

pub mod color;
pub mod palette;
pub mod point;
pub mod recurrence;
pub mod style;
pub mod units;

mod random;

pub use color::Color;
pub use palette::ColorPalette;
pub use point::{Hsv, Wave};
pub use style::{Oscillator, Oscillators, PaletteType, Waveform};

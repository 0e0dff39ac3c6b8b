//! The value types of the library: points, colors, texture options and the
//! dot primitives that a composed stroke consists of.
//!
//! Every scalar field holds the bit pattern of an `f64` (see `fbits`).

use vstd::prelude::*;

use crate::fbits::F64_ONE;
use crate::fbits::F64_THREE_TENTHS;
use crate::fbits::F64_TWO;
use crate::fbits::POS_ZERO;

verus! {

/// The default stroke width (the pattern of `1.0`).
pub const WIDTH_DEFAULT: u64 = 0x3FF0000000000000;

/// The default dot density (the pattern of `5.0`).
pub const DENSITY_DEFAULT: u64 = 0x4014000000000000;

/// A two-component vector or point; each component is an f64 bit pattern.
#[derive(Debug, Clone, Copy, PartialEq, Eq, Structural)]
pub struct Vec2 {
    pub x: u64,
    pub y: u64,
}

/// A line segment between two points; its direction is `end - start`.
#[derive(Debug, Clone, Copy, PartialEq, Eq, Structural)]
pub struct Line {
    pub start: Vec2,
    pub end: Vec2,
}

/// An RGBA color; each channel is an f64 bit pattern in `[0.0, 1.0]`.
#[derive(Debug, Clone, Copy, PartialEq, Eq, Structural)]
pub struct Color {
    pub r: u64,
    pub g: u64,
    pub b: u64,
    pub a: u64,
}

/// The default stroke color: opaque black.
pub open spec fn color_default() -> Color {
    Color { r: POS_ZERO, g: POS_ZERO, b: POS_ZERO, a: F64_ONE }
}

impl Color {
    /// Opaque black, the default stroke color.
    pub fn black() -> (r: Color)
        ensures
            r == color_default(),
    {
        Color { r: POS_ZERO, g: POS_ZERO, b: POS_ZERO, a: F64_ONE }
    }
}

/// The distribution for the spread of dots across the width of the
/// textured stroke.
#[derive(Debug, Clone, Copy, PartialEq, Eq, Structural)]
pub enum TexturedDotsDistribution {
    Uniform,
    Normal,
    Exponential,
    ReverseExponential,
}

impl Default for TexturedDotsDistribution {
    fn default() -> (r: Self)
        ensures
            r == TexturedDotsDistribution::Normal,
    {
        TexturedDotsDistribution::Normal
    }
}

/// The options of how a textured shape should look.
#[derive(Debug, Clone, Copy, PartialEq, Eq, Structural)]
pub struct TexturedOptions {
    /// An optional seed to generate reproducible strokes. Without one, each
    /// composition seeds itself from an entropy source and is not
    /// reproducible.
    pub seed: Option<u64>,
    /// The stroke width (an f64 bit pattern).
    pub width: u64,
    /// The color of the stroke; absent means the dots carry no fill.
    pub stroke_color: Option<Color>,
    /// The amount of dots per 10x10 area (an f64 bit pattern).
    pub density: u64,
    /// The base radii of the dots (f64 bit patterns).
    pub radii: Vec2,
    /// The distribution of the dots across the stroke's width axis.
    pub distribution: TexturedDotsDistribution,
}

/// The default option bundle: no seed, width `1.0`, opaque black, density
/// `5.0`, radii `(2.0, 0.3)`, Normal distribution.
pub open spec fn options_default() -> TexturedOptions {
    TexturedOptions {
        seed: None,
        width: WIDTH_DEFAULT,
        stroke_color: Some(color_default()),
        density: DENSITY_DEFAULT,
        radii: Vec2 { x: F64_TWO, y: F64_THREE_TENTHS },
        distribution: TexturedDotsDistribution::Normal,
    }
}

impl Default for TexturedOptions {
    fn default() -> (r: Self)
        ensures
            r == options_default(),
    {
        TexturedOptions {
            seed: None,
            width: WIDTH_DEFAULT,
            stroke_color: Some(Color::black()),
            density: DENSITY_DEFAULT,
            radii: Vec2 { x: F64_TWO, y: F64_THREE_TENTHS },
            distribution: TexturedDotsDistribution::Normal,
        }
    }
}

/// One elliptical texture mark: a world-space center, a rotation about that
/// center in radians, the two ellipse radii, and an optional fill color
/// (`None` is the explicit no-fill marker).
#[derive(Debug, Clone, Copy, PartialEq, Eq, Structural)]
pub struct Dot {
    pub center: Vec2,
    pub rotation: u64,
    pub radii: Vec2,
    pub fill: Option<Color>,
}

/// The ordered group of dots that one composed stroke consists of; the
/// order is the sampling order.
#[derive(Debug, Clone, PartialEq, Eq)]
pub struct Group {
    pub dots: Vec<Dot>,
}

impl View for Group {
    type V = Seq<Dot>;

    open spec fn view(&self) -> Seq<Dot> {
        self.dots@
    }
}

} // verus!

//! Geometry records flowing through the pipeline, all in 16.16 fixed point.

use crate::fx::{div_trunc, COMP_LIMIT, FX_ONE, RASTER_LIMIT};
use vstd::prelude::*;

verus! {

/// A 3-component fixed-point vector.
#[derive(Clone, Copy)]
pub struct Vec3 {
    pub x: i64,
    pub y: i64,
    pub z: i64,
}

/// A homogeneous 4-component fixed-point vector.
#[derive(Clone, Copy)]
pub struct Vec4 {
    pub x: i64,
    pub y: i64,
    pub z: i64,
    pub w: i64,
}

impl Vec4 {
    /// Every component within the saturation bound of a transform stage.
    pub open spec fn bounded(self) -> bool {
        &&& -COMP_LIMIT <= self.x <= COMP_LIMIT
        &&& -COMP_LIMIT <= self.y <= COMP_LIMIT
        &&& -COMP_LIMIT <= self.z <= COMP_LIMIT
        &&& -COMP_LIMIT <= self.w <= COMP_LIMIT
    }
}

/// An RGB color with fixed-point channels in `[0, 1]`.
#[derive(Clone, Copy)]
pub struct Color {
    pub r: i64,
    pub g: i64,
    pub b: i64,
}

/// One channel of a unit-range color, scaled to a byte.
pub open spec fn channel_byte(c: int) -> int {
    div_trunc(c * 255, FX_ONE as int)
}

/// The packed `0xRRGGBB` value of a color.
pub open spec fn color_hex_spec(c: Color) -> int {
    channel_byte(c.r as int) * 0x10000 + channel_byte(c.g as int) * 0x100 + channel_byte(
        c.b as int,
    )
}

impl Color {
    /// Channels lie in the unit range.
    pub open spec fn wf(self) -> bool {
        &&& 0 <= self.r <= FX_ONE
        &&& 0 <= self.g <= FX_ONE
        &&& 0 <= self.b <= FX_ONE
    }

    pub fn new(r: i64, g: i64, b: i64) -> (c: Color)
        requires
            0 <= r <= FX_ONE,
            0 <= g <= FX_ONE,
            0 <= b <= FX_ONE,
        ensures
            c == (Color { r, g, b }),
            c.wf(),
    {
        Color { r, g, b }
    }

    /// Packs the color into one `0xRRGGBB` pixel value.
    pub fn to_hex(&self) -> (hex: u32)
        requires
            self.wf(),
        ensures
            hex == color_hex_spec(*self),
            hex <= 0xFFFFFF,
    {
        proof {
            lemma_channel_byte_in_range(self.r as int);
            lemma_channel_byte_in_range(self.g as int);
            lemma_channel_byte_in_range(self.b as int);
        }
        let rb: u32 = ((self.r * 255) / FX_ONE) as u32;
        let gb: u32 = ((self.g * 255) / FX_ONE) as u32;
        let bb: u32 = ((self.b * 255) / FX_ONE) as u32;
        rb * 0x10000 + gb * 0x100 + bb
    }
}

/// A unit-range channel scales to a byte value.
pub proof fn lemma_channel_byte_in_range(c: int)
    requires
        0 <= c <= FX_ONE,
    ensures
        0 <= channel_byte(c) <= 255,
        channel_byte(c) == (c * 255) / (FX_ONE as int),
{
    vstd::arithmetic::div_mod::lemma_div_pos_is_pos(c * 255, FX_ONE as int);
    assert(c * 255 <= FX_ONE * 255) by (nonlinear_arith)
        requires
            0 <= c <= FX_ONE,
    ;
    assert(c * 255 >= 0) by (nonlinear_arith)
        requires
            c >= 0,
    ;
    vstd::arithmetic::div_mod::lemma_div_is_ordered(c * 255, FX_ONE as int * 255, FX_ONE as int);
    vstd::arithmetic::div_mod::lemma_div_multiples_vanish(255, FX_ONE as int);
}

/// An object-space vertex: position and normal, with optional color and
/// texture-coordinate attributes, immutable once loaded.
#[derive(Clone, Copy)]
pub struct Vertex {
    pub position: Vec3,
    pub normal: Vec3,
    pub color: Option<Color>,
    pub uv: Option<(i64, i64)>,
}

impl Vertex {
    pub open spec fn wf(self) -> bool {
        &&& -COMP_LIMIT <= self.position.x <= COMP_LIMIT
        &&& -COMP_LIMIT <= self.position.y <= COMP_LIMIT
        &&& -COMP_LIMIT <= self.position.z <= COMP_LIMIT
        &&& (self.color matches Some(c) ==> c.wf())
    }
}

/// A vertex after the full transform chain and perspective division:
/// `position.x`/`position.y` are fixed-point pixel coordinates,
/// `position.z` the depth (smaller is nearer), `position.w` the
/// pre-division homogeneous component. The other attributes are carried
/// through unchanged.
#[derive(Clone, Copy)]
pub struct TransformedVertex {
    pub position: Vec4,
    pub normal: Vec3,
    pub color: Option<Color>,
    pub uv: Option<(i64, i64)>,
}

impl TransformedVertex {
    /// Screen coordinates and depth lie within the raster clamp.
    pub open spec fn wf(self) -> bool {
        &&& -RASTER_LIMIT <= self.position.x <= RASTER_LIMIT
        &&& -RASTER_LIMIT <= self.position.y <= RASTER_LIMIT
        &&& -RASTER_LIMIT <= self.position.z <= RASTER_LIMIT
        &&& (self.color matches Some(c) ==> c.wf())
    }
}

/// The shading color of a vertex: its color attribute, or white where the
/// model carries none.
pub open spec fn vertex_color_spec(c: Option<Color>) -> Color {
    match c {
        Some(col) => col,
        None => Color { r: FX_ONE, g: FX_ONE, b: FX_ONE },
    }
}

/// A candidate pixel contribution produced by rasterizing one triangle:
/// integer screen position, interpolated depth and interpolated color.
#[derive(Clone, Copy)]
pub struct Fragment {
    pub x: usize,
    pub y: usize,
    pub depth: i64,
    pub color: Color,
}

impl Fragment {
    pub open spec fn wf(self) -> bool {
        &&& -RASTER_LIMIT <= self.depth <= RASTER_LIMIT
        &&& self.color.wf()
    }
}

} // verus!

//! The two programmable stages: per-vertex transformation and per-fragment
//! coloring.

use crate::fx::{fx_div, fx_div_spec, FX_ONE, RASTER_LIMIT};
use crate::geometry::{channel_byte, color_hex_spec, Color, Fragment, TransformedVertex, Vec4, Vertex};
use crate::transform::{mat_vec_mul, mat_vec_spec, Uniforms, Vec4Model};
use vstd::prelude::*;

verus! {

/// Object identifier shaded as self-lit: its fragments keep their full
/// interpolated color.
pub const EMISSIVE_ID: u32 = 3;

/// The homogeneous position of an object-space vertex.
pub open spec fn homogeneous_spec(v: Vertex) -> Vec4Model {
    Vec4Model { x: v.position.x as int, y: v.position.y as int, z: v.position.z as int, w: FX_ONE as int }
}

/// The position after the full matrix chain
/// `viewport * projection * view * model`, before perspective division.
pub open spec fn clip_position_spec(u: Uniforms, p: Vec4Model) -> Vec4Model {
    mat_vec_spec(
        u.viewport_matrix@,
        mat_vec_spec(
            u.projection_matrix@,
            mat_vec_spec(u.view_matrix@, mat_vec_spec(u.model_matrix@, p)),
        ),
    )
}

/// Perspective division: x, y and z divided by w (saturating at
/// `RASTER_LIMIT`), w kept. A zero homogeneous component has no finite
/// projection; such a vertex is sent to a fixed spot far outside every
/// viewport, at maximal depth.
pub open spec fn screen_position_spec(q: Vec4Model) -> Vec4Model {
    if q.w != 0 {
        Vec4Model {
            x: fx_div_spec(q.x, q.w),
            y: fx_div_spec(q.y, q.w),
            z: fx_div_spec(q.z, q.w),
            w: q.w,
        }
    } else {
        Vec4Model {
            x: -(RASTER_LIMIT as int),
            y: -(RASTER_LIMIT as int),
            z: RASTER_LIMIT as int,
            w: 0,
        }
    }
}

/// The transformed vertex as one value: the screen position of the
/// vertex, with the other attributes carried through unchanged.
pub open spec fn vertex_shader_spec(v: Vertex, u: Uniforms) -> TransformedVertex {
    let q = screen_position_spec(clip_position_spec(u, homogeneous_spec(v)));
    TransformedVertex {
        position: Vec4 { x: q.x as i64, y: q.y as i64, z: q.z as i64, w: q.w as i64 },
        normal: v.normal,
        color: v.color,
        uv: v.uv,
    }
}

/// Transforms one vertex: applies the whole matrix chain to its position,
/// performs the perspective division, and carries the other attributes
/// through unchanged.
pub fn vertex_shader(vertex: &Vertex, uniforms: &Uniforms) -> (t: TransformedVertex)
    requires
        vertex.wf(),
        uniforms.wf(),
    ensures
        t == vertex_shader_spec(*vertex, *uniforms),
        t.position@ == screen_position_spec(
            clip_position_spec(*uniforms, homogeneous_spec(*vertex)),
        ),
        t.normal == vertex.normal,
        t.color == vertex.color,
        t.uv == vertex.uv,
        t.wf(),
{
    let p = Vec4 { x: vertex.position.x, y: vertex.position.y, z: vertex.position.z, w: FX_ONE };
    let q1 = mat_vec_mul(&uniforms.model_matrix, &p);
    let q2 = mat_vec_mul(&uniforms.view_matrix, &q1);
    let q3 = mat_vec_mul(&uniforms.projection_matrix, &q2);
    let q4 = mat_vec_mul(&uniforms.viewport_matrix, &q3);
    let position = if q4.w != 0 {
        Vec4 { x: fx_div(q4.x, q4.w), y: fx_div(q4.y, q4.w), z: fx_div(q4.z, q4.w), w: q4.w }
    } else {
        Vec4 { x: -RASTER_LIMIT, y: -RASTER_LIMIT, z: RASTER_LIMIT, w: 0 }
    };
    TransformedVertex {
        position,
        normal: vertex.normal,
        color: vertex.color,
        uv: vertex.uv,
    }
}

/// One color channel after shading: self-lit fragments keep it, all others
/// are dimmed to half intensity.
pub open spec fn shade_channel_spec(c: int, id: u32) -> int {
    if id == EMISSIVE_ID {
        c
    } else {
        c / 2
    }
}

/// The packed pixel value `fragment_shader` produces.
pub open spec fn fragment_shader_spec(f: Fragment, id: u32) -> int {
    channel_byte(shade_channel_spec(f.color.r as int, id)) * 0x10000 + channel_byte(
        shade_channel_spec(f.color.g as int, id),
    ) * 0x100 + channel_byte(shade_channel_spec(f.color.b as int, id))
}

/// Computes the final color of one fragment: a pure function of the
/// fragment, the uniforms and the owning object's identifier, selecting a
/// shading variant by the identifier.
pub fn fragment_shader(fragment: &Fragment, uniforms: &Uniforms, id: u32) -> (color: u32)
    requires
        fragment.wf(),
    ensures
        color == fragment_shader_spec(*fragment, id),
        color <= 0xFFFFFF,
{
    let c = fragment.color;
    let shaded = if id == EMISSIVE_ID {
        c
    } else {
        proof {
            vstd::arithmetic::div_mod::lemma_div_pos_is_pos(c.r as int, 2);
            vstd::arithmetic::div_mod::lemma_div_pos_is_pos(c.g as int, 2);
            vstd::arithmetic::div_mod::lemma_div_pos_is_pos(c.b as int, 2);
            vstd::arithmetic::div_mod::lemma_div_nonincreasing(c.r as int, 2);
            vstd::arithmetic::div_mod::lemma_div_nonincreasing(c.g as int, 2);
            vstd::arithmetic::div_mod::lemma_div_nonincreasing(c.b as int, 2);
        }
        Color { r: c.r / 2, g: c.g / 2, b: c.b / 2 }
    };
    shaded.to_hex()
}

} // verus!

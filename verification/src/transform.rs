//! The transform pipeline: 4x4 fixed-point matrices and the model,
//! perspective and viewport matrix builders, plus the per-frame uniforms
//! bundle.
//!
//! A matrix is applied to column vectors; entries are 16.16 fixed point,
//! row `i`, column `j` in field `m<i><j>`. Matrix products accumulate
//! exactly and saturate each entry at `COMP_LIMIT`.

use crate::fx::{
    clamp, dot4, fx_div, fx_div_spec, fx_mul, fx_mul_spec, lemma_sdot4_sat_bound, sdot4_sat,
    FX_HALF, FX_ONE, MAT_LIMIT,
};
use crate::geometry::{Vec3, Vec4};
use vstd::prelude::*;

verus! {

/// Largest magnitude of a model translation component or scale factor.
pub const MODEL_LIMIT: i64 = 0x400_0000;

/// Largest framebuffer dimension the matrix builders accept.
pub const SCREEN_LIMIT: usize = 0x40000;

/// Cotangent of half the fixed 45-degree vertical field of view.
pub const FOV_COT_HALF: i64 = 158218;

/// The near plane, one tenth of a unit.
pub const NEAR_FX: i64 = 6554;

/// The far plane, one thousand units.
pub const FAR_FX: i64 = 65536000;

/// A 4x4 fixed-point matrix.
#[derive(Clone, Copy)]
pub struct Mat4 {
    pub m00: i64,
    pub m01: i64,
    pub m02: i64,
    pub m03: i64,
    pub m10: i64,
    pub m11: i64,
    pub m12: i64,
    pub m13: i64,
    pub m20: i64,
    pub m21: i64,
    pub m22: i64,
    pub m23: i64,
    pub m30: i64,
    pub m31: i64,
    pub m32: i64,
    pub m33: i64,
}

/// Mathematical model of a matrix: the same entries as unbounded integers.
pub ghost struct MatModel {
    pub e00: int,
    pub e01: int,
    pub e02: int,
    pub e03: int,
    pub e10: int,
    pub e11: int,
    pub e12: int,
    pub e13: int,
    pub e20: int,
    pub e21: int,
    pub e22: int,
    pub e23: int,
    pub e30: int,
    pub e31: int,
    pub e32: int,
    pub e33: int,
}

impl View for Mat4 {
    type V = MatModel;

    open spec fn view(&self) -> MatModel {
        MatModel {
            e00: self.m00 as int,
            e01: self.m01 as int,
            e02: self.m02 as int,
            e03: self.m03 as int,
            e10: self.m10 as int,
            e11: self.m11 as int,
            e12: self.m12 as int,
            e13: self.m13 as int,
            e20: self.m20 as int,
            e21: self.m21 as int,
            e22: self.m22 as int,
            e23: self.m23 as int,
            e30: self.m30 as int,
            e31: self.m31 as int,
            e32: self.m32 as int,
            e33: self.m33 as int,
        }
    }
}

impl MatModel {
    /// Every entry within `[-b, b]`.
    pub open spec fn bounded(self, b: int) -> bool {
        &&& -b <= self.e00 <= b
        &&& -b <= self.e01 <= b
        &&& -b <= self.e02 <= b
        &&& -b <= self.e03 <= b
        &&& -b <= self.e10 <= b
        &&& -b <= self.e11 <= b
        &&& -b <= self.e12 <= b
        &&& -b <= self.e13 <= b
        &&& -b <= self.e20 <= b
        &&& -b <= self.e21 <= b
        &&& -b <= self.e22 <= b
        &&& -b <= self.e23 <= b
        &&& -b <= self.e30 <= b
        &&& -b <= self.e31 <= b
        &&& -b <= self.e32 <= b
        &&& -b <= self.e33 <= b
    }

    /// Entries small enough for the pipeline's multipliers.
    pub open spec fn wf(self) -> bool {
        self.bounded(MAT_LIMIT as int)
    }
}

/// Mathematical model of a homogeneous vector.
pub ghost struct Vec4Model {
    pub x: int,
    pub y: int,
    pub z: int,
    pub w: int,
}

impl View for Vec4 {
    type V = Vec4Model;

    open spec fn view(&self) -> Vec4Model {
        Vec4Model { x: self.x as int, y: self.y as int, z: self.z as int, w: self.w as int }
    }
}

/// The identity matrix.
pub open spec fn identity_spec() -> MatModel {
    MatModel {
        e00: FX_ONE as int,
        e01: 0,
        e02: 0,
        e03: 0,
        e10: 0,
        e11: FX_ONE as int,
        e12: 0,
        e13: 0,
        e20: 0,
        e21: 0,
        e22: FX_ONE as int,
        e23: 0,
        e30: 0,
        e31: 0,
        e32: 0,
        e33: FX_ONE as int,
    }
}

/// Entry-wise fixed-point matrix product.
pub open spec fn mat_mul_spec(a: MatModel, b: MatModel) -> MatModel {
    MatModel {
        e00: sdot4_sat(a.e00, a.e01, a.e02, a.e03, b.e00, b.e10, b.e20, b.e30),
        e01: sdot4_sat(a.e00, a.e01, a.e02, a.e03, b.e01, b.e11, b.e21, b.e31),
        e02: sdot4_sat(a.e00, a.e01, a.e02, a.e03, b.e02, b.e12, b.e22, b.e32),
        e03: sdot4_sat(a.e00, a.e01, a.e02, a.e03, b.e03, b.e13, b.e23, b.e33),
        e10: sdot4_sat(a.e10, a.e11, a.e12, a.e13, b.e00, b.e10, b.e20, b.e30),
        e11: sdot4_sat(a.e10, a.e11, a.e12, a.e13, b.e01, b.e11, b.e21, b.e31),
        e12: sdot4_sat(a.e10, a.e11, a.e12, a.e13, b.e02, b.e12, b.e22, b.e32),
        e13: sdot4_sat(a.e10, a.e11, a.e12, a.e13, b.e03, b.e13, b.e23, b.e33),
        e20: sdot4_sat(a.e20, a.e21, a.e22, a.e23, b.e00, b.e10, b.e20, b.e30),
        e21: sdot4_sat(a.e20, a.e21, a.e22, a.e23, b.e01, b.e11, b.e21, b.e31),
        e22: sdot4_sat(a.e20, a.e21, a.e22, a.e23, b.e02, b.e12, b.e22, b.e32),
        e23: sdot4_sat(a.e20, a.e21, a.e22, a.e23, b.e03, b.e13, b.e23, b.e33),
        e30: sdot4_sat(a.e30, a.e31, a.e32, a.e33, b.e00, b.e10, b.e20, b.e30),
        e31: sdot4_sat(a.e30, a.e31, a.e32, a.e33, b.e01, b.e11, b.e21, b.e31),
        e32: sdot4_sat(a.e30, a.e31, a.e32, a.e33, b.e02, b.e12, b.e22, b.e32),
        e33: sdot4_sat(a.e30, a.e31, a.e32, a.e33, b.e03, b.e13, b.e23, b.e33),
    }
}

/// Fixed-point matrix application to a column vector.
pub open spec fn mat_vec_spec(m: MatModel, v: Vec4Model) -> Vec4Model {
    Vec4Model {
        x: sdot4_sat(m.e00, m.e01, m.e02, m.e03, v.x, v.y, v.z, v.w),
        y: sdot4_sat(m.e10, m.e11, m.e12, m.e13, v.x, v.y, v.z, v.w),
        z: sdot4_sat(m.e20, m.e21, m.e22, m.e23, v.x, v.y, v.z, v.w),
        w: sdot4_sat(m.e30, m.e31, m.e32, m.e33, v.x, v.y, v.z, v.w),
    }
}

/// Entry bounds of a matrix product from entry bounds of its factors.
pub proof fn lemma_mat_mul_bounded(a: MatModel, b: MatModel, ba: int, bb: int)
    requires
        0 <= ba,
        0 <= bb,
        a.bounded(ba),
        b.bounded(bb),
    ensures
        mat_mul_spec(a, b).bounded((4 * ba * bb) / (FX_ONE as int)),
{
    lemma_sdot4_sat_bound(a.e00, a.e01, a.e02, a.e03, b.e00, b.e10, b.e20, b.e30, ba, bb);
    lemma_sdot4_sat_bound(a.e00, a.e01, a.e02, a.e03, b.e01, b.e11, b.e21, b.e31, ba, bb);
    lemma_sdot4_sat_bound(a.e00, a.e01, a.e02, a.e03, b.e02, b.e12, b.e22, b.e32, ba, bb);
    lemma_sdot4_sat_bound(a.e00, a.e01, a.e02, a.e03, b.e03, b.e13, b.e23, b.e33, ba, bb);
    lemma_sdot4_sat_bound(a.e10, a.e11, a.e12, a.e13, b.e00, b.e10, b.e20, b.e30, ba, bb);
    lemma_sdot4_sat_bound(a.e10, a.e11, a.e12, a.e13, b.e01, b.e11, b.e21, b.e31, ba, bb);
    lemma_sdot4_sat_bound(a.e10, a.e11, a.e12, a.e13, b.e02, b.e12, b.e22, b.e32, ba, bb);
    lemma_sdot4_sat_bound(a.e10, a.e11, a.e12, a.e13, b.e03, b.e13, b.e23, b.e33, ba, bb);
    lemma_sdot4_sat_bound(a.e20, a.e21, a.e22, a.e23, b.e00, b.e10, b.e20, b.e30, ba, bb);
    lemma_sdot4_sat_bound(a.e20, a.e21, a.e22, a.e23, b.e01, b.e11, b.e21, b.e31, ba, bb);
    lemma_sdot4_sat_bound(a.e20, a.e21, a.e22, a.e23, b.e02, b.e12, b.e22, b.e32, ba, bb);
    lemma_sdot4_sat_bound(a.e20, a.e21, a.e22, a.e23, b.e03, b.e13, b.e23, b.e33, ba, bb);
    lemma_sdot4_sat_bound(a.e30, a.e31, a.e32, a.e33, b.e00, b.e10, b.e20, b.e30, ba, bb);
    lemma_sdot4_sat_bound(a.e30, a.e31, a.e32, a.e33, b.e01, b.e11, b.e21, b.e31, ba, bb);
    lemma_sdot4_sat_bound(a.e30, a.e31, a.e32, a.e33, b.e02, b.e12, b.e22, b.e32, ba, bb);
    lemma_sdot4_sat_bound(a.e30, a.e31, a.e32, a.e33, b.e03, b.e13, b.e23, b.e33, ba, bb);
}

pub fn identity() -> (m: Mat4)
    ensures
        m@ == identity_spec(),
        m@.wf(),
{
    Mat4 {
        m00: FX_ONE,
        m01: 0,
        m02: 0,
        m03: 0,
        m10: 0,
        m11: FX_ONE,
        m12: 0,
        m13: 0,
        m20: 0,
        m21: 0,
        m22: FX_ONE,
        m23: 0,
        m30: 0,
        m31: 0,
        m32: 0,
        m33: FX_ONE,
    }
}

/// Multiplies two matrices whose entries are within `MAT_LIMIT`.
pub fn mat_mul(a: &Mat4, b: &Mat4) -> (m: Mat4)
    requires
        a@.wf(),
        b@.wf(),
    ensures
        m@ == mat_mul_spec(a@, b@),
{
    let e00 = dot4(a.m00, a.m01, a.m02, a.m03, b.m00, b.m10, b.m20, b.m30);
    let e01 = dot4(a.m00, a.m01, a.m02, a.m03, b.m01, b.m11, b.m21, b.m31);
    let e02 = dot4(a.m00, a.m01, a.m02, a.m03, b.m02, b.m12, b.m22, b.m32);
    let e03 = dot4(a.m00, a.m01, a.m02, a.m03, b.m03, b.m13, b.m23, b.m33);
    let e10 = dot4(a.m10, a.m11, a.m12, a.m13, b.m00, b.m10, b.m20, b.m30);
    let e11 = dot4(a.m10, a.m11, a.m12, a.m13, b.m01, b.m11, b.m21, b.m31);
    let e12 = dot4(a.m10, a.m11, a.m12, a.m13, b.m02, b.m12, b.m22, b.m32);
    let e13 = dot4(a.m10, a.m11, a.m12, a.m13, b.m03, b.m13, b.m23, b.m33);
    let e20 = dot4(a.m20, a.m21, a.m22, a.m23, b.m00, b.m10, b.m20, b.m30);
    let e21 = dot4(a.m20, a.m21, a.m22, a.m23, b.m01, b.m11, b.m21, b.m31);
    let e22 = dot4(a.m20, a.m21, a.m22, a.m23, b.m02, b.m12, b.m22, b.m32);
    let e23 = dot4(a.m20, a.m21, a.m22, a.m23, b.m03, b.m13, b.m23, b.m33);
    let e30 = dot4(a.m30, a.m31, a.m32, a.m33, b.m00, b.m10, b.m20, b.m30);
    let e31 = dot4(a.m30, a.m31, a.m32, a.m33, b.m01, b.m11, b.m21, b.m31);
    let e32 = dot4(a.m30, a.m31, a.m32, a.m33, b.m02, b.m12, b.m22, b.m32);
    let e33 = dot4(a.m30, a.m31, a.m32, a.m33, b.m03, b.m13, b.m23, b.m33);
    Mat4 {
        m00: e00,
        m01: e01,
        m02: e02,
        m03: e03,
        m10: e10,
        m11: e11,
        m12: e12,
        m13: e13,
        m20: e20,
        m21: e21,
        m22: e22,
        m23: e23,
        m30: e30,
        m31: e31,
        m32: e32,
        m33: e33,
    }
}

/// Applies a matrix to a homogeneous vector with bounded components.
pub fn mat_vec_mul(m: &Mat4, v: &Vec4) -> (r: Vec4)
    requires
        m@.wf(),
        v.bounded(),
    ensures
        r@ == mat_vec_spec(m@, v@),
        r.bounded(),
{
    let x = dot4(m.m00, m.m01, m.m02, m.m03, v.x, v.y, v.z, v.w);
    let y = dot4(m.m10, m.m11, m.m12, m.m13, v.x, v.y, v.z, v.w);
    let z = dot4(m.m20, m.m21, m.m22, m.m23, v.x, v.y, v.z, v.w);
    let w = dot4(m.m30, m.m31, m.m32, m.m33, v.x, v.y, v.z, v.w);
    Vec4 { x, y, z, w }
}

/// Sines and cosines of the three Euler rotation angles, supplied by the
/// caller in fixed point (trigonometry itself is outside this library).
#[derive(Clone, Copy)]
pub struct Rotation {
    pub sin_x: i64,
    pub cos_x: i64,
    pub sin_y: i64,
    pub cos_y: i64,
    pub sin_z: i64,
    pub cos_z: i64,
}

impl Rotation {
    /// Sines and cosines lie in the unit range.
    pub open spec fn wf(self) -> bool {
        &&& -FX_ONE <= self.sin_x <= FX_ONE
        &&& -FX_ONE <= self.cos_x <= FX_ONE
        &&& -FX_ONE <= self.sin_y <= FX_ONE
        &&& -FX_ONE <= self.cos_y <= FX_ONE
        &&& -FX_ONE <= self.sin_z <= FX_ONE
        &&& -FX_ONE <= self.cos_z <= FX_ONE
    }
}

/// Rotation about the x axis by an angle with the given sine and cosine.
pub open spec fn rot_x_spec(sin: int, cos: int) -> MatModel {
    MatModel {
        e00: FX_ONE as int,
        e01: 0,
        e02: 0,
        e03: 0,
        e10: 0,
        e11: cos,
        e12: -sin,
        e13: 0,
        e20: 0,
        e21: sin,
        e22: cos,
        e23: 0,
        e30: 0,
        e31: 0,
        e32: 0,
        e33: FX_ONE as int,
    }
}

/// Rotation about the y axis.
pub open spec fn rot_y_spec(sin: int, cos: int) -> MatModel {
    MatModel {
        e00: cos,
        e01: 0,
        e02: sin,
        e03: 0,
        e10: 0,
        e11: FX_ONE as int,
        e12: 0,
        e13: 0,
        e20: -sin,
        e21: 0,
        e22: cos,
        e23: 0,
        e30: 0,
        e31: 0,
        e32: 0,
        e33: FX_ONE as int,
    }
}

/// Rotation about the z axis.
pub open spec fn rot_z_spec(sin: int, cos: int) -> MatModel {
    MatModel {
        e00: cos,
        e01: -sin,
        e02: 0,
        e03: 0,
        e10: sin,
        e11: cos,
        e12: 0,
        e13: 0,
        e20: 0,
        e21: 0,
        e22: FX_ONE as int,
        e23: 0,
        e30: 0,
        e31: 0,
        e32: 0,
        e33: FX_ONE as int,
    }
}

/// Uniform scale plus translation.
pub open spec fn translation_scale_spec(tx: int, ty: int, tz: int, s: int) -> MatModel {
    MatModel {
        e00: s,
        e01: 0,
        e02: 0,
        e03: tx,
        e10: 0,
        e11: s,
        e12: 0,
        e13: ty,
        e20: 0,
        e21: 0,
        e22: s,
        e23: tz,
        e30: 0,
        e31: 0,
        e32: 0,
        e33: FX_ONE as int,
    }
}

/// The model matrix: translation and uniform scale applied after the three
/// axis rotations composed in z-then-y-then-x application order.
pub open spec fn model_matrix_spec(translation: Vec3, scale: i64, rotation: Rotation) -> MatModel {
    mat_mul_spec(
        translation_scale_spec(
            translation.x as int,
            translation.y as int,
            translation.z as int,
            scale as int,
        ),
        mat_mul_spec(
            mat_mul_spec(
                rot_z_spec(rotation.sin_z as int, rotation.cos_z as int),
                rot_y_spec(rotation.sin_y as int, rotation.cos_y as int),
            ),
            rot_x_spec(rotation.sin_x as int, rotation.cos_x as int),
        ),
    )
}

/// Builds the model matrix `T_S * (Rz * Ry * Rx)` from a translation, a
/// uniform scale and the rotation's sines and cosines.
pub fn create_model_matrix(translation: Vec3, scale: i64, rotation: &Rotation) -> (m: Mat4)
    requires
        rotation.wf(),
        -MODEL_LIMIT <= translation.x <= MODEL_LIMIT,
        -MODEL_LIMIT <= translation.y <= MODEL_LIMIT,
        -MODEL_LIMIT <= translation.z <= MODEL_LIMIT,
        -MODEL_LIMIT <= scale <= MODEL_LIMIT,
    ensures
        m@ == model_matrix_spec(translation, scale, *rotation),
        m@.wf(),
{
    let rx = Mat4 {
        m00: FX_ONE,
        m01: 0,
        m02: 0,
        m03: 0,
        m10: 0,
        m11: rotation.cos_x,
        m12: -rotation.sin_x,
        m13: 0,
        m20: 0,
        m21: rotation.sin_x,
        m22: rotation.cos_x,
        m23: 0,
        m30: 0,
        m31: 0,
        m32: 0,
        m33: FX_ONE,
    };
    let ry = Mat4 {
        m00: rotation.cos_y,
        m01: 0,
        m02: rotation.sin_y,
        m03: 0,
        m10: 0,
        m11: FX_ONE,
        m12: 0,
        m13: 0,
        m20: -rotation.sin_y,
        m21: 0,
        m22: rotation.cos_y,
        m23: 0,
        m30: 0,
        m31: 0,
        m32: 0,
        m33: FX_ONE,
    };
    let rz = Mat4 {
        m00: rotation.cos_z,
        m01: -rotation.sin_z,
        m02: 0,
        m03: 0,
        m10: rotation.sin_z,
        m11: rotation.cos_z,
        m12: 0,
        m13: 0,
        m20: 0,
        m21: 0,
        m22: FX_ONE,
        m23: 0,
        m30: 0,
        m31: 0,
        m32: 0,
        m33: FX_ONE,
    };
    let ts = Mat4 {
        m00: scale,
        m01: 0,
        m02: 0,
        m03: translation.x,
        m10: 0,
        m11: scale,
        m12: 0,
        m13: translation.y,
        m20: 0,
        m21: 0,
        m22: scale,
        m23: translation.z,
        m30: 0,
        m31: 0,
        m32: 0,
        m33: FX_ONE,
    };
    let zy = mat_mul(&rz, &ry);
    proof {
        lemma_mat_mul_bounded(rz@, ry@, FX_ONE as int, FX_ONE as int);
    }
    let zyx = mat_mul(&zy, &rx);
    proof {
        lemma_mat_mul_bounded(zy@, rx@, 0x40000, FX_ONE as int);
    }
    let m = mat_mul(&ts, &zyx);
    proof {
        lemma_mat_mul_bounded(ts@, zyx@, MODEL_LIMIT as int, 0x100000);
    }
    m
}

/// The perspective projection: 45-degree vertical field of view, the given
/// window aspect ratio, near and far planes at `NEAR_FX` and `FAR_FX`. A
/// degenerate aspect ratio (rounding to zero) falls back to a square one.
pub open spec fn perspective_spec(w: int, h: int) -> MatModel {
    let aspect0 = fx_div_spec(w * FX_ONE, h * FX_ONE);
    let aspect = if aspect0 == 0 {
        FX_ONE as int
    } else {
        aspect0
    };
    MatModel {
            e00: clamp(fx_div_spec(FOV_COT_HALF as int, aspect), MAT_LIMIT as int),
            e01: 0,
            e02: 0,
            e03: 0,
            e10: 0,
            e11: FOV_COT_HALF as int,
            e12: 0,
            e13: 0,
            e20: 0,
            e21: 0,
            e22: clamp(fx_div_spec(FAR_FX + NEAR_FX, NEAR_FX - FAR_FX), MAT_LIMIT as int),
            e23: clamp(fx_div_spec(2 * fx_mul_spec(FAR_FX as int, NEAR_FX as int), NEAR_FX - FAR_FX), MAT_LIMIT as int),
            e30: 0,
            e31: 0,
            e32: -FX_ONE,
            e33: 0,
    }
}

pub fn create_perspective_matrix(width: usize, height: usize) -> (m: Mat4)
    requires
        1 <= width <= SCREEN_LIMIT,
        1 <= height <= SCREEN_LIMIT,
    ensures
        m@ == perspective_spec(width as int, height as int),
        m@.wf(),
{
    let w_fx: i64 = (width as i64) * FX_ONE;
    let h_fx: i64 = (height as i64) * FX_ONE;
    let aspect0 = fx_div(w_fx, h_fx);
    let aspect = if aspect0 == 0 {
        FX_ONE
    } else {
        aspect0
    };
    let e00 = clamp_mat(fx_div(FOV_COT_HALF, aspect));
    let e22 = clamp_mat(fx_div(FAR_FX + NEAR_FX, NEAR_FX - FAR_FX));
    let e23 = clamp_mat(fx_div(2 * fx_mul(FAR_FX, NEAR_FX), NEAR_FX - FAR_FX));
    Mat4 {
        m00: e00,
        m01: 0,
        m02: 0,
        m03: 0,
        m10: 0,
        m11: FOV_COT_HALF,
        m12: 0,
        m13: 0,
        m20: 0,
        m21: 0,
        m22: e22,
        m23: e23,
        m30: 0,
        m31: 0,
        m32: -FX_ONE,
        m33: 0,
    }
}

/// The viewport transform: scales normalized device coordinates to pixels,
/// flipping the y axis (image-space y grows downward) and passing depth
/// through unscaled.
pub open spec fn viewport_spec(w: int, h: int) -> MatModel {
    MatModel {
        e00: w * FX_HALF,
        e01: 0,
        e02: 0,
        e03: w * FX_HALF,
        e10: 0,
        e11: -(h * FX_HALF),
        e12: 0,
        e13: h * FX_HALF,
        e20: 0,
        e21: 0,
        e22: FX_ONE as int,
        e23: 0,
        e30: 0,
        e31: 0,
        e32: 0,
        e33: FX_ONE as int,
    }
}

pub fn create_viewport_matrix(width: usize, height: usize) -> (m: Mat4)
    requires
        width <= SCREEN_LIMIT,
        height <= SCREEN_LIMIT,
    ensures
        m@ == viewport_spec(width as int, height as int),
        m@.wf(),
{
    let half_w: i64 = (width as i64) * FX_HALF;
    let half_h: i64 = (height as i64) * FX_HALF;
    Mat4 {
        m00: half_w,
        m01: 0,
        m02: 0,
        m03: half_w,
        m10: 0,
        m11: -half_h,
        m12: 0,
        m13: half_h,
        m20: 0,
        m21: 0,
        m22: FX_ONE,
        m23: 0,
        m30: 0,
        m31: 0,
        m32: 0,
        m33: FX_ONE,
    }
}

/// Clamps a value into the matrix entry range.
fn clamp_mat(v: i64) -> (r: i64)
    ensures
        r == clamp(v as int, MAT_LIMIT as int),
        -MAT_LIMIT <= r <= MAT_LIMIT,
{
    if v > MAT_LIMIT {
        MAT_LIMIT
    } else if v < -MAT_LIMIT {
        -MAT_LIMIT
    } else {
        v
    }
}

/// The per-frame constant inputs of the vertex stage: the four matrices of
/// the transform chain and a frame counter.
pub struct Uniforms {
    pub model_matrix: Mat4,
    pub view_matrix: Mat4,
    pub projection_matrix: Mat4,
    pub viewport_matrix: Mat4,
    pub time: u32,
}

impl Uniforms {
    pub open spec fn wf(self) -> bool {
        &&& self.model_matrix@.wf()
        &&& self.view_matrix@.wf()
        &&& self.projection_matrix@.wf()
        &&& self.viewport_matrix@.wf()
    }
}

} // verus!

//! The rasterizer: one triangle of transformed vertices to the list of
//! fragments it covers.
//!
//! Pixel `(x, y)` is sampled at its center. The three barycentric weights
//! of the sample are signed edge functions; the pixel is inside the
//! triangle exactly when all three share a sign (either winding), and
//! depth and color interpolate linearly by those weights. A degenerate
//! triangle, whose weights always sum to zero, covers nothing.

use crate::fx::{
    div_trunc, lemma_abs_mul_le, lemma_div_trunc_bounds, FX_HALF, FX_ONE, RASTER_LIMIT,
};
use crate::geometry::{vertex_color_spec, Color, Fragment, TransformedVertex};
use crate::transform::SCREEN_LIMIT;
use vstd::arithmetic::mul::lemma_mul_inequality;
use vstd::prelude::*;

verus! {

/// Largest magnitude of a pixel-center sample coordinate.
pub const SAMPLE_LIMIT: i64 = 0x10_0000_0000;

/// Largest magnitude of an edge function over in-range inputs.
pub const EDGE_LIMIT: i128 = 0x8_0000_0000_0000_0000_0000;

/// The fixed-point coordinate of the center of pixel row or column `i`.
pub open spec fn center(i: int) -> int {
    i * FX_ONE + FX_HALF
}

/// The signed edge function: twice the signed area of the triangle
/// `(a, b, p)`; positive when `p` lies to the left of the directed edge
/// `a -> b`.
pub open spec fn edge_fn(ax: int, ay: int, bx: int, by: int, px: int, py: int) -> int {
    (bx - ax) * (py - ay) - (by - ay) * (px - ax)
}

/// Barycentric weight of vertex `a` at sample `(px, py)`.
pub open spec fn weight0(
    a: TransformedVertex,
    b: TransformedVertex,
    c: TransformedVertex,
    px: int,
    py: int,
) -> int {
    edge_fn(
        b.position.x as int,
        b.position.y as int,
        c.position.x as int,
        c.position.y as int,
        px,
        py,
    )
}

/// Barycentric weight of vertex `b`.
pub open spec fn weight1(
    a: TransformedVertex,
    b: TransformedVertex,
    c: TransformedVertex,
    px: int,
    py: int,
) -> int {
    edge_fn(
        c.position.x as int,
        c.position.y as int,
        a.position.x as int,
        a.position.y as int,
        px,
        py,
    )
}

/// Barycentric weight of vertex `c`.
pub open spec fn weight2(
    a: TransformedVertex,
    b: TransformedVertex,
    c: TransformedVertex,
    px: int,
    py: int,
) -> int {
    edge_fn(
        a.position.x as int,
        a.position.y as int,
        b.position.x as int,
        b.position.y as int,
        px,
        py,
    )
}

/// Twice the signed area of the triangle itself.
pub open spec fn twice_area(
    a: TransformedVertex,
    b: TransformedVertex,
    c: TransformedVertex,
) -> int {
    edge_fn(
        a.position.x as int,
        a.position.y as int,
        b.position.x as int,
        b.position.y as int,
        c.position.x as int,
        c.position.y as int,
    )
}

/// The center of pixel `(x, y)` lies inside the triangle: all three
/// weights are nonnegative, or all three nonpositive, under a winding
/// with nonzero area. The weights always sum to twice the signed area, so
/// a degenerate triangle covers no pixel.
pub open spec fn covered(
    a: TransformedVertex,
    b: TransformedVertex,
    c: TransformedVertex,
    x: int,
    y: int,
) -> bool {
    let px = center(x);
    let py = center(y);
    let w0 = weight0(a, b, c, px, py);
    let w1 = weight1(a, b, c, px, py);
    let w2 = weight2(a, b, c, px, py);
    let s = w0 + w1 + w2;
    (s > 0 && w0 >= 0 && w1 >= 0 && w2 >= 0) || (s < 0 && w0 <= 0 && w1 <= 0 && w2 <= 0)
}

/// Linear interpolation of a vertex quantity by the three weights: the
/// exact weighted sum, rescaled by one truncating division.
pub open spec fn interp_spec(w0: int, w1: int, w2: int, v0: int, v1: int, v2: int) -> int {
    div_trunc(w0 * v0 + w1 * v1 + w2 * v2, w0 + w1 + w2)
}

/// The interpolated depth of covered pixel `(x, y)`.
pub open spec fn frag_depth(
    a: TransformedVertex,
    b: TransformedVertex,
    c: TransformedVertex,
    x: int,
    y: int,
) -> int {
    let px = center(x);
    let py = center(y);
    interp_spec(
        weight0(a, b, c, px, py),
        weight1(a, b, c, px, py),
        weight2(a, b, c, px, py),
        a.position.z as int,
        b.position.z as int,
        c.position.z as int,
    )
}

/// The interpolated red channel of covered pixel `(x, y)`.
pub open spec fn frag_red(
    a: TransformedVertex,
    b: TransformedVertex,
    c: TransformedVertex,
    x: int,
    y: int,
) -> int {
    let px = center(x);
    let py = center(y);
    interp_spec(
        weight0(a, b, c, px, py),
        weight1(a, b, c, px, py),
        weight2(a, b, c, px, py),
        vertex_color_spec(a.color).r as int,
        vertex_color_spec(b.color).r as int,
        vertex_color_spec(c.color).r as int,
    )
}

/// The interpolated green channel.
pub open spec fn frag_green(
    a: TransformedVertex,
    b: TransformedVertex,
    c: TransformedVertex,
    x: int,
    y: int,
) -> int {
    let px = center(x);
    let py = center(y);
    interp_spec(
        weight0(a, b, c, px, py),
        weight1(a, b, c, px, py),
        weight2(a, b, c, px, py),
        vertex_color_spec(a.color).g as int,
        vertex_color_spec(b.color).g as int,
        vertex_color_spec(c.color).g as int,
    )
}

/// The interpolated blue channel.
pub open spec fn frag_blue(
    a: TransformedVertex,
    b: TransformedVertex,
    c: TransformedVertex,
    x: int,
    y: int,
) -> int {
    let px = center(x);
    let py = center(y);
    interp_spec(
        weight0(a, b, c, px, py),
        weight1(a, b, c, px, py),
        weight2(a, b, c, px, py),
        vertex_color_spec(a.color).b as int,
        vertex_color_spec(b.color).b as int,
        vertex_color_spec(c.color).b as int,
    )
}

/// The fragment emitted for covered pixel `(x, y)`.
pub open spec fn frag_at(
    a: TransformedVertex,
    b: TransformedVertex,
    c: TransformedVertex,
    x: int,
    y: int,
) -> Fragment {
    Fragment {
        x: x as usize,
        y: y as usize,
        depth: frag_depth(a, b, c, x, y) as i64,
        color: Color {
            r: frag_red(a, b, c, x, y) as i64,
            g: frag_green(a, b, c, x, y) as i64,
            b: frag_blue(a, b, c, x, y) as i64,
        },
    }
}

/// The fragments of row `y` with columns in `[x, x_end)`, left to right.
pub open spec fn row_frags(
    a: TransformedVertex,
    b: TransformedVertex,
    c: TransformedVertex,
    y: int,
    x: int,
    x_end: int,
) -> Seq<Fragment>
    decreases x_end - x,
{
    if x >= x_end {
        Seq::empty()
    } else if covered(a, b, c, x, y) {
        seq![frag_at(a, b, c, x, y)] + row_frags(a, b, c, y, x + 1, x_end)
    } else {
        row_frags(a, b, c, y, x + 1, x_end)
    }
}

/// The fragments of rows `[y, y_end)`, top to bottom.
pub open spec fn rows_frags(
    a: TransformedVertex,
    b: TransformedVertex,
    c: TransformedVertex,
    y: int,
    y_end: int,
    width: int,
) -> Seq<Fragment>
    decreases y_end - y,
{
    if y >= y_end {
        Seq::empty()
    } else {
        row_frags(a, b, c, y, 0, width) + rows_frags(a, b, c, y + 1, y_end, width)
    }
}

/// All fragments of the triangle over a `width x height` viewport, in
/// row-major order.
pub open spec fn tri_frags_spec(
    a: TransformedVertex,
    b: TransformedVertex,
    c: TransformedVertex,
    width: int,
    height: int,
) -> Seq<Fragment> {
    rows_frags(a, b, c, 0, height, width)
}

/// Appending the next column to a row prefix.
proof fn lemma_row_snoc(
    a: TransformedVertex,
    b: TransformedVertex,
    c: TransformedVertex,
    y: int,
    x0: int,
    x: int,
)
    requires
        x0 <= x,
    ensures
        row_frags(a, b, c, y, x0, x + 1) == row_frags(a, b, c, y, x0, x) + (if covered(
            a,
            b,
            c,
            x,
            y,
        ) {
            seq![frag_at(a, b, c, x, y)]
        } else {
            Seq::<Fragment>::empty()
        }),
    decreases x - x0,
{
    if x0 == x {
        assert(row_frags(a, b, c, y, x0, x) =~= Seq::<Fragment>::empty());
        assert(row_frags(a, b, c, y, x + 1, x + 1) =~= Seq::<Fragment>::empty());
        if covered(a, b, c, x, y) {
            assert(row_frags(a, b, c, y, x0, x + 1) =~= seq![frag_at(a, b, c, x, y)]);
            assert(row_frags(a, b, c, y, x0, x) + seq![frag_at(a, b, c, x, y)] =~= seq![
                frag_at(a, b, c, x, y),
            ]);
        } else {
            assert(row_frags(a, b, c, y, x0, x + 1) =~= Seq::<Fragment>::empty());
            assert(row_frags(a, b, c, y, x0, x) + Seq::<Fragment>::empty() =~= Seq::<
                Fragment,
            >::empty());
        }
    } else {
        lemma_row_snoc(a, b, c, y, x0 + 1, x);
        if covered(a, b, c, x0, y) {
            assert(row_frags(a, b, c, y, x0, x + 1) =~= seq![frag_at(a, b, c, x0, y)]
                + row_frags(a, b, c, y, x0 + 1, x + 1));
            assert(row_frags(a, b, c, y, x0, x) + (if covered(a, b, c, x, y) {
                seq![frag_at(a, b, c, x, y)]
            } else {
                Seq::<Fragment>::empty()
            }) =~= seq![frag_at(a, b, c, x0, y)] + (row_frags(a, b, c, y, x0 + 1, x) + (
            if covered(a, b, c, x, y) {
                seq![frag_at(a, b, c, x, y)]
            } else {
                Seq::<Fragment>::empty()
            })));
        } else {
            assert(row_frags(a, b, c, y, x0, x + 1) =~= row_frags(a, b, c, y, x0 + 1, x + 1));
        }
    }
}

/// Appending the next row to a rows prefix.
proof fn lemma_rows_snoc(
    a: TransformedVertex,
    b: TransformedVertex,
    c: TransformedVertex,
    y0: int,
    y: int,
    width: int,
)
    requires
        y0 <= y,
    ensures
        rows_frags(a, b, c, y0, y + 1, width) == rows_frags(a, b, c, y0, y, width) + row_frags(
            a,
            b,
            c,
            y,
            0,
            width,
        ),
    decreases y - y0,
{
    if y0 == y {
        assert(rows_frags(a, b, c, y0, y, width) =~= Seq::<Fragment>::empty());
        assert(rows_frags(a, b, c, y + 1, y + 1, width) =~= Seq::<Fragment>::empty());
        assert(rows_frags(a, b, c, y0, y + 1, width) =~= row_frags(a, b, c, y, 0, width));
        assert(rows_frags(a, b, c, y0, y, width) + row_frags(a, b, c, y, 0, width) =~= row_frags(
            a,
            b,
            c,
            y,
            0,
            width,
        ));
    } else {
        lemma_rows_snoc(a, b, c, y0 + 1, y, width);
        assert(rows_frags(a, b, c, y0, y + 1, width) =~= row_frags(a, b, c, y0, 0, width)
            + rows_frags(a, b, c, y0 + 1, y + 1, width));
        assert(rows_frags(a, b, c, y0, y, width) + row_frags(a, b, c, y, 0, width) =~= row_frags(
            a,
            b,
            c,
            y0,
            0,
            width,
        ) + (rows_frags(a, b, c, y0 + 1, y, width) + row_frags(a, b, c, y, 0, width)));
    }
}

/// The three barycentric weights of any sample sum to twice the signed
/// area of the triangle, wherever the sample lies.
pub proof fn lemma_weight_sum(
    a: TransformedVertex,
    b: TransformedVertex,
    c: TransformedVertex,
    px: int,
    py: int,
)
    ensures
        weight0(a, b, c, px, py) + weight1(a, b, c, px, py) + weight2(a, b, c, px, py)
            == twice_area(a, b, c),
{
    let ax = a.position.x as int;
    let ay = a.position.y as int;
    let bx = b.position.x as int;
    let by = b.position.y as int;
    let cx = c.position.x as int;
    let cy = c.position.y as int;
    assert(edge_fn(bx, by, cx, cy, px, py) + edge_fn(cx, cy, ax, ay, px, py) + edge_fn(
        ax,
        ay,
        bx,
        by,
        px,
        py,
    ) == edge_fn(ax, ay, bx, by, cx, cy)) by (nonlinear_arith);
}

/// A degenerate triangle covers no pixel: its weights sum to its zero
/// area at every sample, so no sample passes either winding test.
pub proof fn lemma_degenerate_not_covered(
    a: TransformedVertex,
    b: TransformedVertex,
    c: TransformedVertex,
    x: int,
    y: int,
)
    requires
        twice_area(a, b, c) == 0,
    ensures
        !covered(a, b, c, x, y),
{
    lemma_weight_sum(a, b, c, center(x), center(y));
}

/// A row over which no pixel is covered contributes no fragment.
proof fn lemma_row_uncovered_empty(
    a: TransformedVertex,
    b: TransformedVertex,
    c: TransformedVertex,
    y: int,
    x: int,
    x_end: int,
)
    requires
        forall|xi: int| x <= xi < x_end ==> !covered(a, b, c, xi, y),
    ensures
        row_frags(a, b, c, y, x, x_end).len() == 0,
    decreases x_end - x,
{
    if x < x_end {
        lemma_row_uncovered_empty(a, b, c, y, x + 1, x_end);
    }
}

/// Rasterizing a degenerate triangle (all three screen vertices collinear
/// or coincident, so its signed area is zero) yields zero fragments.
pub proof fn lemma_degenerate_no_fragments(
    a: TransformedVertex,
    b: TransformedVertex,
    c: TransformedVertex,
    width: int,
    height: int,
)
    requires
        twice_area(a, b, c) == 0,
    ensures
        tri_frags_spec(a, b, c, width, height).len() == 0,
{
    lemma_rows_uncovered_empty(a, b, c, 0, height, width);
}

proof fn lemma_rows_uncovered_empty(
    a: TransformedVertex,
    b: TransformedVertex,
    c: TransformedVertex,
    y: int,
    y_end: int,
    width: int,
)
    requires
        twice_area(a, b, c) == 0,
    ensures
        rows_frags(a, b, c, y, y_end, width).len() == 0,
    decreases y_end - y,
{
    if y < y_end {
        assert forall|xi: int| 0 <= xi < width implies !covered(a, b, c, xi, y) by {
            lemma_degenerate_not_covered(a, b, c, xi, y);
        }
        lemma_row_uncovered_empty(a, b, c, y, 0, width);
        lemma_rows_uncovered_empty(a, b, c, y + 1, y_end, width);
    }
}

/// An interpolation by nonnegative weights with positive sum stays inside
/// the hull of its three values.
proof fn lemma_interp_in_hull(w0: int, w1: int, w2: int, v0: int, v1: int, v2: int)
    requires
        w0 >= 0,
        w1 >= 0,
        w2 >= 0,
        w0 + w1 + w2 > 0,
    ensures
        vstd::math::min(v0, vstd::math::min(v1, v2)) <= interp_spec(w0, w1, w2, v0, v1, v2),
        interp_spec(w0, w1, w2, v0, v1, v2) <= vstd::math::max(v0, vstd::math::max(v1, v2)),
{
    let lo = vstd::math::min(v0, vstd::math::min(v1, v2));
    let hi = vstd::math::max(v0, vstd::math::max(v1, v2));
    let s = w0 + w1 + w2;
    lemma_mul_inequality(lo, v0, w0);
    lemma_mul_inequality(lo, v1, w1);
    lemma_mul_inequality(lo, v2, w2);
    lemma_mul_inequality(v0, hi, w0);
    lemma_mul_inequality(v1, hi, w1);
    lemma_mul_inequality(v2, hi, w2);
    assert(lo * s == lo * w0 + lo * w1 + lo * w2) by (nonlinear_arith)
        requires
            s == w0 + w1 + w2,
    ;
    assert(hi * s == hi * w0 + hi * w1 + hi * w2) by (nonlinear_arith)
        requires
            s == w0 + w1 + w2,
    ;
    assert(v0 * w0 == w0 * v0) by (nonlinear_arith);
    assert(v1 * w1 == w1 * v1) by (nonlinear_arith);
    assert(v2 * w2 == w2 * v2) by (nonlinear_arith);
    lemma_div_trunc_bounds(w0 * v0 + w1 * v1 + w2 * v2, s, lo, hi);
}

/// The interpolated depth of a covered pixel lies between the smallest
/// and the largest of the three vertex depths: no extrapolation beyond
/// the hull of the input depths.
pub proof fn lemma_frag_depth_in_hull(
    a: TransformedVertex,
    b: TransformedVertex,
    c: TransformedVertex,
    x: int,
    y: int,
)
    requires
        covered(a, b, c, x, y),
    ensures
        vstd::math::min(
            a.position.z as int,
            vstd::math::min(b.position.z as int, c.position.z as int),
        ) <= frag_depth(a, b, c, x, y),
        frag_depth(a, b, c, x, y) <= vstd::math::max(
            a.position.z as int,
            vstd::math::max(b.position.z as int, c.position.z as int),
        ),
{
    let px = center(x);
    let py = center(y);
    let w0 = weight0(a, b, c, px, py);
    let w1 = weight1(a, b, c, px, py);
    let w2 = weight2(a, b, c, px, py);
    let z0 = a.position.z as int;
    let z1 = b.position.z as int;
    let z2 = c.position.z as int;
    if w0 + w1 + w2 > 0 {
        lemma_interp_in_hull(w0, w1, w2, z0, z1, z2);
    } else {
        lemma_interp_negate(w0, w1, w2, z0, z1, z2);
        lemma_interp_in_hull(-w0, -w1, -w2, z0, z1, z2);
    }
}

/// Every fragment the rasterizer emits carries a depth inside the hull of
/// the three vertex depths.
pub proof fn lemma_fragment_depths_in_hull(
    a: TransformedVertex,
    b: TransformedVertex,
    c: TransformedVertex,
    width: int,
    height: int,
    i: int,
)
    requires
        a.wf(),
        b.wf(),
        c.wf(),
        0 <= i < tri_frags_spec(a, b, c, width, height).len(),
    ensures
        vstd::math::min(a.position.z as int, vstd::math::min(b.position.z as int, c.position.z as int))
            <= tri_frags_spec(a, b, c, width, height)[i].depth as int,
        tri_frags_spec(a, b, c, width, height)[i].depth as int <= vstd::math::max(
            a.position.z as int,
            vstd::math::max(b.position.z as int, c.position.z as int),
        ),
{
    lemma_rows_mem(a, b, c, 0, height, width, i);
    let (x, y) = choose|x: int, y: int|
        covered(a, b, c, x, y) && tri_frags_spec(a, b, c, width, height)[i] == frag_at(
            a,
            b,
            c,
            x,
            y,
        );
    lemma_frag_depth_in_hull(a, b, c, x, y);
}

/// Every element of a row's fragments is the fragment of some covered
/// pixel of that row.
proof fn lemma_row_mem(
    a: TransformedVertex,
    b: TransformedVertex,
    c: TransformedVertex,
    y: int,
    x: int,
    x_end: int,
    i: int,
)
    requires
        0 <= i < row_frags(a, b, c, y, x, x_end).len(),
    ensures
        exists|xi: int|
            covered(a, b, c, xi, y) && row_frags(a, b, c, y, x, x_end)[i] == frag_at(
                a,
                b,
                c,
                xi,
                y,
            ),
    decreases x_end - x,
{
    if x < x_end {
        if covered(a, b, c, x, y) {
            if i == 0 {
                assert(covered(a, b, c, x, y) && row_frags(a, b, c, y, x, x_end)[i] == frag_at(
                    a,
                    b,
                    c,
                    x,
                    y,
                ));
            } else {
                lemma_row_mem(a, b, c, y, x + 1, x_end, i - 1);
            }
        } else {
            lemma_row_mem(a, b, c, y, x + 1, x_end, i);
        }
    }
}

/// Every element of the triangle's fragments is the fragment of some
/// covered pixel.
proof fn lemma_rows_mem(
    a: TransformedVertex,
    b: TransformedVertex,
    c: TransformedVertex,
    y: int,
    y_end: int,
    width: int,
    i: int,
)
    requires
        0 <= i < rows_frags(a, b, c, y, y_end, width).len(),
    ensures
        exists|xi: int, yi: int|
            covered(a, b, c, xi, yi) && rows_frags(a, b, c, y, y_end, width)[i] == frag_at(
                a,
                b,
                c,
                xi,
                yi,
            ),
    decreases y_end - y,
{
    if y < y_end {
        let row = row_frags(a, b, c, y, 0, width);
        if i < row.len() {
            lemma_row_mem(a, b, c, y, 0, width, i);
            let xi = choose|xi: int|
                covered(a, b, c, xi, y) && row_frags(a, b, c, y, 0, width)[i] == frag_at(
                    a,
                    b,
                    c,
                    xi,
                    y,
                );
            assert(covered(a, b, c, xi, y) && rows_frags(a, b, c, y, y_end, width)[i] == frag_at(
                a,
                b,
                c,
                xi,
                y,
            ));
        } else {
            lemma_rows_mem(a, b, c, y + 1, y_end, width, i - row.len());
            let (xi, yi) = choose|xi: int, yi: int|
                covered(a, b, c, xi, yi) && rows_frags(a, b, c, y + 1, y_end, width)[i
                    - row.len()] == frag_at(a, b, c, xi, yi);
            assert(covered(a, b, c, xi, yi) && rows_frags(a, b, c, y, y_end, width)[i] == frag_at(
                a,
                b,
                c,
                xi,
                yi,
            ));
        }
    }
}

/// The signed edge function over machine integers.
fn edge(ax: i64, ay: i64, bx: i64, by: i64, px: i64, py: i64) -> (e: i128)
    requires
        -RASTER_LIMIT <= ax <= RASTER_LIMIT,
        -RASTER_LIMIT <= ay <= RASTER_LIMIT,
        -RASTER_LIMIT <= bx <= RASTER_LIMIT,
        -RASTER_LIMIT <= by <= RASTER_LIMIT,
        -SAMPLE_LIMIT <= px <= SAMPLE_LIMIT,
        -SAMPLE_LIMIT <= py <= SAMPLE_LIMIT,
    ensures
        e == edge_fn(ax as int, ay as int, bx as int, by as int, px as int, py as int),
        -EDGE_LIMIT <= e <= EDGE_LIMIT,
{
    proof {
        lemma_abs_mul_le(
            bx as int - ax as int,
            py as int - ay as int,
            0x200_0000_0000,
            0x200_0000_0000,
        );
        lemma_abs_mul_le(
            by as int - ay as int,
            px as int - ax as int,
            0x200_0000_0000,
            0x200_0000_0000,
        );
    }
    (bx as i128 - ax as i128) * (py as i128 - ay as i128) - (by as i128 - ay as i128) * (
    px as i128 - ax as i128)
}

/// Linear interpolation by three nonnegative weights with a positive sum:
/// the result lies between the smallest and the largest of the three
/// values.
fn interp3(w0: i128, w1: i128, w2: i128, v0: i64, v1: i64, v2: i64) -> (r: i64)
    requires
        0 <= w0 <= EDGE_LIMIT,
        0 <= w1 <= EDGE_LIMIT,
        0 <= w2 <= EDGE_LIMIT,
        w0 + w1 + w2 > 0,
        -RASTER_LIMIT <= v0 <= RASTER_LIMIT,
        -RASTER_LIMIT <= v1 <= RASTER_LIMIT,
        -RASTER_LIMIT <= v2 <= RASTER_LIMIT,
    ensures
        r as int == interp_spec(w0 as int, w1 as int, w2 as int, v0 as int, v1 as int, v2 as int),
        (if v0 <= v1 && v0 <= v2 {
            v0
        } else if v1 <= v2 {
            v1
        } else {
            v2
        }) <= r,
        r <= (if v0 >= v1 && v0 >= v2 {
            v0
        } else if v1 >= v2 {
            v1
        } else {
            v2
        }),
{
    proof {
        lemma_abs_mul_le(w0 as int, v0 as int, EDGE_LIMIT as int, RASTER_LIMIT as int);
        lemma_abs_mul_le(w1 as int, v1 as int, EDGE_LIMIT as int, RASTER_LIMIT as int);
        lemma_abs_mul_le(w2 as int, v2 as int, EDGE_LIMIT as int, RASTER_LIMIT as int);
    }
    let num: i128 = w0 * (v0 as i128) + w1 * (v1 as i128) + w2 * (v2 as i128);
    let s: i128 = w0 + w1 + w2;
    let q: i128 = if num >= 0 {
        num / s
    } else {
        -((-num) / s)
    };
    proof {
        let lo: int = if v0 <= v1 && v0 <= v2 {
            v0 as int
        } else if v1 <= v2 {
            v1 as int
        } else {
            v2 as int
        };
        let hi: int = if v0 >= v1 && v0 >= v2 {
            v0 as int
        } else if v1 >= v2 {
            v1 as int
        } else {
            v2 as int
        };
        lemma_mul_inequality(lo, v0 as int, w0 as int);
        lemma_mul_inequality(lo, v1 as int, w1 as int);
        lemma_mul_inequality(lo, v2 as int, w2 as int);
        lemma_mul_inequality(v0 as int, hi, w0 as int);
        lemma_mul_inequality(v1 as int, hi, w1 as int);
        lemma_mul_inequality(v2 as int, hi, w2 as int);
        assert(lo * (s as int) == lo * (w0 as int) + lo * (w1 as int) + lo * (w2 as int))
            by (nonlinear_arith)
            requires
                s == w0 + w1 + w2,
        ;
        assert(hi * (s as int) == hi * (w0 as int) + hi * (w1 as int) + hi * (w2 as int))
            by (nonlinear_arith)
            requires
                s == w0 + w1 + w2,
        ;
        assert(v0 as int * (w0 as int) == (w0 as int) * (v0 as int)) by (nonlinear_arith);
        assert(v1 as int * (w1 as int) == (w1 as int) * (v1 as int)) by (nonlinear_arith);
        assert(v2 as int * (w2 as int) == (w2 as int) * (v2 as int)) by (nonlinear_arith);
        lemma_div_trunc_bounds(num as int, s as int, lo, hi);
    }
    q as i64
}

/// Rasterizes one triangle of transformed vertices over a
/// `width x height` viewport: exactly the covered pixels, in row-major
/// order, each with its interpolated depth and color.
pub fn triangle(
    a: &TransformedVertex,
    b: &TransformedVertex,
    c: &TransformedVertex,
    width: usize,
    height: usize,
) -> (frags: Vec<Fragment>)
    requires
        a.wf(),
        b.wf(),
        c.wf(),
        width <= SCREEN_LIMIT,
        height <= SCREEN_LIMIT,
    ensures
        frags@ == tri_frags_spec(*a, *b, *c, width as int, height as int),
        forall|i: int|
            0 <= i < frags@.len() ==> (#[trigger] frags@[i]).wf() && frags@[i].x < width
                && frags@[i].y < height,
{
    let ca = color_of(a);
    let cb = color_of(b);
    let cc = color_of(c);
    let mut frags: Vec<Fragment> = Vec::new();
    let mut y: usize = 0;
    proof {
        assert(rows_frags(*a, *b, *c, 0, 0, width as int) =~= Seq::<Fragment>::empty());
        assert(frags@ =~= rows_frags(*a, *b, *c, 0, 0, width as int));
    }
    while y < height
        invariant
            a.wf(),
            b.wf(),
            c.wf(),
            width <= SCREEN_LIMIT,
            height <= SCREEN_LIMIT,
            y <= height,
            ca == vertex_color_spec(a.color),
            cb == vertex_color_spec(b.color),
            cc == vertex_color_spec(c.color),
            frags@ == rows_frags(*a, *b, *c, 0, y as int, width as int),
            forall|i: int|
                0 <= i < frags@.len() ==> (#[trigger] frags@[i]).wf() && frags@[i].x < width
                    && frags@[i].y < height,
        decreases height - y,
    {
        let py: i64 = (y as i64) * FX_ONE + FX_HALF;
        let mut x: usize = 0;
        proof {
            assert(row_frags(*a, *b, *c, y as int, 0, 0) =~= Seq::<Fragment>::empty());
            assert(frags@ =~= rows_frags(*a, *b, *c, 0, y as int, width as int) + row_frags(
                *a,
                *b,
                *c,
                y as int,
                0,
                0,
            ));
        }
        while x < width
            invariant
                a.wf(),
                b.wf(),
                c.wf(),
                width <= SCREEN_LIMIT,
                height <= SCREEN_LIMIT,
                y < height,
                x <= width,
                py == center(y as int),
                ca == vertex_color_spec(a.color),
                cb == vertex_color_spec(b.color),
                cc == vertex_color_spec(c.color),
                frags@ == rows_frags(*a, *b, *c, 0, y as int, width as int) + row_frags(
                    *a,
                    *b,
                    *c,
                    y as int,
                    0,
                    x as int,
                ),
                forall|i: int|
                    0 <= i < frags@.len() ==> (#[trigger] frags@[i]).wf() && frags@[i].x < width
                        && frags@[i].y < height,
            decreases width - x,
        {
            let px: i64 = (x as i64) * FX_ONE + FX_HALF;
            let w0 = edge(
                b.position.x,
                b.position.y,
                c.position.x,
                c.position.y,
                px,
                py,
            );
            let w1 = edge(
                c.position.x,
                c.position.y,
                a.position.x,
                a.position.y,
                px,
                py,
            );
            let w2 = edge(
                a.position.x,
                a.position.y,
                b.position.x,
                b.position.y,
                px,
                py,
            );
            let s = w0 + w1 + w2;
            proof {
                lemma_row_snoc(*a, *b, *c, y as int, 0, x as int);
            }
            if s > 0 && w0 >= 0 && w1 >= 0 && w2 >= 0 {
                let depth = interp3(w0, w1, w2, a.position.z, b.position.z, c.position.z);
                let r = interp3(w0, w1, w2, ca.r, cb.r, cc.r);
                let g = interp3(w0, w1, w2, ca.g, cb.g, cc.g);
                let bl = interp3(w0, w1, w2, ca.b, cb.b, cc.b);
                let frag = Fragment { x, y, depth, color: Color { r, g, b: bl } };
                proof {
                    assert(frag == frag_at(*a, *b, *c, x as int, y as int));
                }
                let ghost pre = frags@;
                frags.push(frag);
                proof {
                    assert(frags@ =~= pre + seq![frag]);
                    assert(frags@ =~= rows_frags(*a, *b, *c, 0, y as int, width as int)
                        + row_frags(*a, *b, *c, y as int, 0, x as int + 1));
                }
            } else if s < 0 && w0 <= 0 && w1 <= 0 && w2 <= 0 {
                let depth = interp3(-w0, -w1, -w2, a.position.z, b.position.z, c.position.z);
                let r = interp3(-w0, -w1, -w2, ca.r, cb.r, cc.r);
                let g = interp3(-w0, -w1, -w2, ca.g, cb.g, cc.g);
                let bl = interp3(-w0, -w1, -w2, ca.b, cb.b, cc.b);
                proof {
                    lemma_interp_negate(
                        w0 as int,
                        w1 as int,
                        w2 as int,
                        a.position.z as int,
                        b.position.z as int,
                        c.position.z as int,
                    );
                    lemma_interp_negate(w0 as int, w1 as int, w2 as int, ca.r as int, cb.r as int, cc.r as int);
                    lemma_interp_negate(w0 as int, w1 as int, w2 as int, ca.g as int, cb.g as int, cc.g as int);
                    lemma_interp_negate(w0 as int, w1 as int, w2 as int, ca.b as int, cb.b as int, cc.b as int);
                }
                let frag = Fragment { x, y, depth, color: Color { r, g, b: bl } };
                proof {
                    assert(frag == frag_at(*a, *b, *c, x as int, y as int));
                }
                let ghost pre = frags@;
                frags.push(frag);
                proof {
                    assert(frags@ =~= pre + seq![frag]);
                    assert(frags@ =~= rows_frags(*a, *b, *c, 0, y as int, width as int)
                        + row_frags(*a, *b, *c, y as int, 0, x as int + 1));
                }
            } else {
                proof {
                    assert(!covered(*a, *b, *c, x as int, y as int));
                    assert(frags@ =~= rows_frags(*a, *b, *c, 0, y as int, width as int)
                        + row_frags(*a, *b, *c, y as int, 0, x as int + 1));
                }
            }
            x = x + 1;
        }
        proof {
            lemma_rows_snoc(*a, *b, *c, 0, y as int, width as int);
        }
        y = y + 1;
    }
    frags
}

/// Interpolating with all three weights negated gives the same value: the
/// weighted sum and the weight sum flip sign together.
proof fn lemma_interp_negate(w0: int, w1: int, w2: int, v0: int, v1: int, v2: int)
    ensures
        interp_spec(-w0, -w1, -w2, v0, v1, v2) == interp_spec(w0, w1, w2, v0, v1, v2),
{
    assert((-w0) * v0 + (-w1) * v1 + (-w2) * v2 == -(w0 * v0 + w1 * v1 + w2 * v2))
        by (nonlinear_arith);
    assert(div_trunc(
        -(w0 * v0 + w1 * v1 + w2 * v2),
        -(w0 + w1 + w2),
    ) == div_trunc(w0 * v0 + w1 * v1 + w2 * v2, w0 + w1 + w2));
}

/// The shading color of a transformed vertex.
fn color_of(v: &TransformedVertex) -> (c: Color)
    requires
        v.wf(),
    ensures
        c == vertex_color_spec(v.color),
        c.wf(),
{
    match v.color {
        Some(c) => c,
        None => Color { r: FX_ONE, g: FX_ONE, b: FX_ONE },
    }
}

} // verus!

//! The frame driver: runs the vertex stage over an object's vertices,
//! assembles triangles, rasterizes them, shades each fragment and writes
//! it through the framebuffer's depth-tested `point`.

use crate::framebuffer::{point_spec, set_current_spec, FbModel, Framebuffer};
use crate::geometry::{Fragment, TransformedVertex, Vec3, Vertex};
use crate::raster::{tri_frags_spec, triangle};
use crate::shaders::{fragment_shader, fragment_shader_spec, vertex_shader, vertex_shader_spec};
use crate::transform::{Uniforms, SCREEN_LIMIT};
use vstd::prelude::*;

verus! {

/// The vertex stage over a whole vertex list, order preserved.
pub open spec fn transformed_spec(vs: Seq<Vertex>, u: Uniforms) -> Seq<TransformedVertex> {
    Seq::new(vs.len(), |i: int| vertex_shader_spec(vs[i], u))
}

/// Primitive assembly: consecutive triples of the transformed vertices; a
/// trailing group of fewer than three vertices is dropped.
pub open spec fn triangles_spec(s: Seq<TransformedVertex>) -> Seq<
    (TransformedVertex, TransformedVertex, TransformedVertex),
>
    decreases s.len(),
{
    if s.len() < 3 {
        Seq::empty()
    } else {
        seq![(s[0], s[1], s[2])] + triangles_spec(s.skip(3))
    }
}

/// The fragments of a list of triangles, in triangle order.
pub open spec fn tris_frags_spec(
    tris: Seq<(TransformedVertex, TransformedVertex, TransformedVertex)>,
    width: int,
    height: int,
) -> Seq<Fragment>
    decreases tris.len(),
{
    if tris.len() == 0 {
        Seq::empty()
    } else {
        tris_frags_spec(tris.drop_last(), width, height) + tri_frags_spec(
            tris.last().0,
            tris.last().1,
            tris.last().2,
            width,
            height,
        )
    }
}

/// Every fragment one object contributes to a `width x height` viewport.
pub open spec fn pipeline_frags_spec(
    u: Uniforms,
    vs: Seq<Vertex>,
    width: int,
    height: int,
) -> Seq<Fragment> {
    tris_frags_spec(triangles_spec(transformed_spec(vs, u)), width, height)
}

/// Shading one fragment and writing it through the depth test.
pub open spec fn shade_point_spec(m: FbModel, f: Fragment, id: u32) -> FbModel {
    point_spec(
        set_current_spec(m, fragment_shader_spec(f, id) as u32),
        f.x as int,
        f.y as int,
        f.depth,
    )
}

/// Folding a whole fragment list through the depth-tested write, first to
/// last.
pub open spec fn render_frags_spec(m: FbModel, frags: Seq<Fragment>, id: u32) -> FbModel
    decreases frags.len(),
{
    if frags.len() == 0 {
        m
    } else {
        shade_point_spec(render_frags_spec(m, frags.drop_last(), id), frags.last(), id)
    }
}

/// Grouping one more triple.
proof fn lemma_triangles_snoc(s: Seq<TransformedVertex>, i: int)
    requires
        0 <= i,
        i % 3 == 0,
        i + 3 <= s.len(),
    ensures
        triangles_spec(s.take(i + 3)) == triangles_spec(s.take(i)) + seq![
            (s[i], s[i + 1], s[i + 2]),
        ],
    decreases i,
{
    if i == 0 {
        assert(s.take(3).len() == 3);
        assert(s.take(3).skip(3) =~= Seq::<TransformedVertex>::empty());
        assert(triangles_spec(s.take(3).skip(3)) =~= Seq::<
            (TransformedVertex, TransformedVertex, TransformedVertex),
        >::empty());
        assert(s.take(3)[0] == s[0] && s.take(3)[1] == s[1] && s.take(3)[2] == s[2]);
        assert(triangles_spec(s.take(3)) =~= seq![(s[0], s[1], s[2])]);
        assert(triangles_spec(s.take(0)) =~= Seq::<
            (TransformedVertex, TransformedVertex, TransformedVertex),
        >::empty());
        assert(triangles_spec(s.take(0)) + seq![(s[0], s[1], s[2])] =~= seq![(s[0], s[1], s[2])]);
    } else {
        let t = s.skip(3);
        lemma_triangles_snoc(t, i - 3);
        assert(s.take(i + 3)[0] == s[0] && s.take(i + 3)[1] == s[1] && s.take(i + 3)[2] == s[2]);
        assert(s.take(i)[0] == s[0] && s.take(i)[1] == s[1] && s.take(i)[2] == s[2]);
        assert(s.take(i + 3).skip(3) =~= t.take(i));
        assert(s.take(i).skip(3) =~= t.take(i - 3));
        assert(t[i - 3] == s[i] && t[i - 2] == s[i + 1] && t[i - 1] == s[i + 2]);
        assert(triangles_spec(s.take(i + 3)) =~= seq![(s[0], s[1], s[2])] + triangles_spec(
            t.take(i),
        ));
        assert(triangles_spec(s.take(i)) =~= seq![(s[0], s[1], s[2])] + triangles_spec(
            t.take(i - 3),
        ));
        assert(seq![(s[0], s[1], s[2])] + (triangles_spec(t.take(i - 3)) + seq![
            (s[i], s[i + 1], s[i + 2]),
        ]) =~= (seq![(s[0], s[1], s[2])] + triangles_spec(t.take(i - 3))) + seq![
            (s[i], s[i + 1], s[i + 2]),
        ]);
    }
}

/// A scene object: persistent transform state, a shared vertex list and
/// the identifier that selects its shading variant.
pub struct SceneObject {
    pub translation: Vec3,
    pub rotation: Vec3,
    pub scale: i64,
    pub vertex_array: Vec<Vertex>,
    pub id: u32,
}

/// Renders one object into the framebuffer: transforms its vertices,
/// groups them into triangles (dropping a trailing partial triple),
/// rasterizes, shades every fragment and writes it through the
/// depth-tested `point`. The result is exactly the fold of the object's
/// fragment stream over the depth test.
pub fn render(
    framebuffer: &mut Framebuffer,
    uniforms: &Uniforms,
    vertex_array: &Vec<Vertex>,
    id: u32,
)
    requires
        old(framebuffer).wf(),
        old(framebuffer).width <= SCREEN_LIMIT,
        old(framebuffer).height <= SCREEN_LIMIT,
        uniforms.wf(),
        forall|i: int| 0 <= i < vertex_array@.len() ==> (#[trigger] vertex_array@[i]).wf(),
    ensures
        final(framebuffer)@ == render_frags_spec(
            old(framebuffer)@,
            pipeline_frags_spec(
                *uniforms,
                vertex_array@,
                old(framebuffer)@.width as int,
                old(framebuffer)@.height as int,
            ),
            id,
        ),
        final(framebuffer).wf(),
        final(framebuffer)@.width == old(framebuffer)@.width,
        final(framebuffer)@.height == old(framebuffer)@.height,
        final(framebuffer)@.background == old(framebuffer)@.background,
{
    let width = framebuffer.width;
    let height = framebuffer.height;

    // Vertex stage.
    let n = vertex_array.len();
    let mut transformed: Vec<TransformedVertex> = Vec::new();
    let mut i: usize = 0;
    while i < n
        invariant
            n == vertex_array@.len(),
            i <= n,
            uniforms.wf(),
            forall|j: int| 0 <= j < n ==> (#[trigger] vertex_array@[j]).wf(),
            transformed@.len() == i,
            forall|j: int|
                0 <= j < i ==> #[trigger] transformed@[j] == vertex_shader_spec(
                    vertex_array@[j],
                    *uniforms,
                ) && transformed@[j].wf(),
        decreases n - i,
    {
        let t = vertex_shader(&vertex_array[i], uniforms);
        transformed.push(t);
        i = i + 1;
    }
    proof {
        assert(transformed@ =~= transformed_spec(vertex_array@, *uniforms));
    }

    // Primitive assembly.
    let mut tris: Vec<(TransformedVertex, TransformedVertex, TransformedVertex)> = Vec::new();
    let mut k: usize = 0;
    proof {
        assert(transformed@.take(0) =~= Seq::<TransformedVertex>::empty());
        assert(tris@ =~= triangles_spec(transformed@.take(0)));
    }
    while n - k >= 3
        invariant
            n == transformed@.len(),
            k <= n,
            k % 3 == 0,
            forall|j: int| 0 <= j < n ==> (#[trigger] transformed@[j]).wf(),
            tris@ == triangles_spec(transformed@.take(k as int)),
            forall|j: int|
                0 <= j < tris@.len() ==> (#[trigger] tris@[j]).0.wf() && tris@[j].1.wf()
                    && tris@[j].2.wf(),
        decreases n - k,
    {
        let t0 = transformed[k];
        let t1 = transformed[k + 1];
        let t2 = transformed[k + 2];
        let ghost pre = tris@;
        tris.push((t0, t1, t2));
        proof {
            lemma_triangles_snoc(transformed@, k as int);
            assert(tris@ =~= pre + seq![(t0, t1, t2)]);
        }
        k = k + 3;
    }
    proof {
        lemma_triangles_tail(transformed@, k as int);
        assert(transformed@.take(n as int) =~= transformed@);
    }

    // Rasterization.
    let tn = tris.len();
    let mut frags: Vec<Fragment> = Vec::new();
    let mut t: usize = 0;
    proof {
        assert(tris@.take(0) =~= Seq::<
            (TransformedVertex, TransformedVertex, TransformedVertex),
        >::empty());
        assert(frags@ =~= tris_frags_spec(tris@.take(0), width as int, height as int));
    }
    while t < tn
        invariant
            tn == tris@.len(),
            t <= tn,
            width <= SCREEN_LIMIT,
            height <= SCREEN_LIMIT,
            forall|j: int|
                0 <= j < tris@.len() ==> (#[trigger] tris@[j]).0.wf() && tris@[j].1.wf()
                    && tris@[j].2.wf(),
            frags@ == tris_frags_spec(tris@.take(t as int), width as int, height as int),
            forall|j: int|
                0 <= j < frags@.len() ==> (#[trigger] frags@[j]).wf() && frags@[j].x < width
                    && frags@[j].y < height,
        decreases tn - t,
    {
        let tri = &tris[t];
        let mut tf = triangle(&tri.0, &tri.1, &tri.2, width, height);
        let ghost pre = frags@;
        let ghost tf_snap = tf@;
        frags.append(&mut tf);
        proof {
            assert(tris@.take(t + 1).drop_last() =~= tris@.take(t as int));
            assert(tris@.take(t + 1).last() == tris@[t as int]);
            assert(frags@ =~= pre + tf_snap);
        }
        t = t + 1;
    }
    proof {
        assert(tris@.take(tn as int) =~= tris@);
    }

    // Fragment stage and depth-tested writes.
    let nf: usize = frags.len();
    let mut f: usize = 0;
    proof {
        assert(frags@.take(0) =~= Seq::<Fragment>::empty());
    }
    while f < nf
        invariant
            nf == frags@.len(),
            f <= nf,
            old(framebuffer).wf(),
            forall|j: int|
                0 <= j < frags@.len() ==> (#[trigger] frags@[j]).wf() && frags@[j].x
                    < old(framebuffer).width && frags@[j].y < old(framebuffer).height,
            framebuffer@ == render_frags_spec(old(framebuffer)@, frags@.take(f as int), id),
            framebuffer.wf(),
            framebuffer@.width == old(framebuffer)@.width,
            framebuffer@.height == old(framebuffer)@.height,
            framebuffer@.background == old(framebuffer)@.background,
        decreases nf - f,
    {
        let frag = frags[f];
        let shaded = fragment_shader(&frag, uniforms, id);
        framebuffer.set_current_color(shaded);
        framebuffer.point(frag.x, frag.y, frag.depth);
        proof {
            assert(frags@.take(f + 1).drop_last() =~= frags@.take(f as int));
            assert(frags@.take(f + 1).last() == frags@[f as int]);
        }
        f = f + 1;
    }
    proof {
        assert(frags@.take(nf as int) =~= frags@);
    }
}

/// Fewer than three vertices past `k` group into no further triangle.
proof fn lemma_triangles_tail(s: Seq<TransformedVertex>, k: int)
    requires
        0 <= k <= s.len(),
        k % 3 == 0,
        k + 3 > s.len(),
    ensures
        triangles_spec(s.take(k)) == triangles_spec(s),
    decreases k,
{
    if s.len() < 3 {
        assert(s.take(k).len() < 3);
        assert(triangles_spec(s.take(k)) =~= Seq::<
            (TransformedVertex, TransformedVertex, TransformedVertex),
        >::empty());
        assert(triangles_spec(s) =~= Seq::<
            (TransformedVertex, TransformedVertex, TransformedVertex),
        >::empty());
    } else {
        lemma_triangles_tail(s.skip(3), k - 3);
        assert(s.take(k).len() >= 3);
        assert(s.take(k).skip(3) =~= s.skip(3).take(k - 3));
        assert(s.take(k)[0] == s[0] && s.take(k)[1] == s[1] && s.take(k)[2] == s[2]);
        assert(triangles_spec(s.take(k)) =~= seq![(s[0], s[1], s[2])] + triangles_spec(
            s.skip(3).take(k - 3),
        ));
    }
}

} // verus!

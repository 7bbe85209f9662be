//! Color and depth buffers with the single depth-test gate of the pipeline.
//!
//! Both buffers are `width * height` long and addressed by `y * width + x`.
//! Depths are 16.16 fixed-point values; `FAR_DEPTH` (the largest depth)
//! stands for "nothing drawn yet, maximally far", so any finite depth wins
//! against a freshly cleared pixel.

use crate::rng::random_below;
use vstd::prelude::*;

verus! {

/// Depth stored in a cleared pixel: maximally far, so that the first
/// fragment drawn at a pixel always passes the depth test.
pub const FAR_DEPTH: i64 = i64::MAX;

/// Color of the background stars.
pub const STAR_COLOR: u32 = 0xFFFFFF;

/// Mathematical model of a framebuffer: two parallel sequences plus the two
/// color registers.
pub ghost struct FbModel {
    pub width: nat,
    pub height: nat,
    pub colors: Seq<u32>,
    pub depths: Seq<i64>,
    pub background: u32,
    pub current: u32,
}

impl FbModel {
    /// Both buffers always hold exactly one entry per pixel.
    pub open spec fn wf(self) -> bool {
        &&& self.colors.len() == self.width * self.height
        &&& self.depths.len() == self.width * self.height
        &&& self.width * self.height <= usize::MAX
    }

    /// The flat buffer index of pixel `(x, y)`.
    pub open spec fn idx(self, x: int, y: int) -> int {
        y * self.width + x
    }

    /// `(x, y)` addresses a pixel of this buffer.
    pub open spec fn in_bounds(self, x: int, y: int) -> bool {
        0 <= x < self.width && 0 <= y < self.height
    }
}

/// A freshly built framebuffer: black background, white drawing color,
/// every pixel black and maximally far.
pub open spec fn new_spec(width: nat, height: nat) -> FbModel {
    FbModel {
        width,
        height,
        colors: Seq::new(width * height, |i: int| 0x000000u32),
        depths: Seq::new(width * height, |i: int| FAR_DEPTH),
        background: 0x000000u32,
        current: 0xFFFFFFu32,
    }
}

/// Effect of `clear`: every pixel takes the background color and the
/// maximally far depth; dimensions and color registers are untouched.
pub open spec fn clear_spec(m: FbModel) -> FbModel {
    FbModel {
        colors: Seq::new(m.width * m.height, |i: int| m.background),
        depths: Seq::new(m.width * m.height, |i: int| FAR_DEPTH),
        ..m
    }
}

/// Effect of `point`: if `(x, y)` is in bounds and `depth` is strictly
/// nearer than the stored depth, the current color and `depth` are written;
/// otherwise nothing changes. Ties keep the earlier pixel.
pub open spec fn point_spec(m: FbModel, x: int, y: int, depth: i64) -> FbModel {
    if m.in_bounds(x, y) && depth < m.depths[m.idx(x, y)] {
        FbModel {
            colors: m.colors.update(m.idx(x, y), m.current),
            depths: m.depths.update(m.idx(x, y), depth),
            ..m
        }
    } else {
        m
    }
}

/// Effect of `set_current_color`.
pub open spec fn set_current_spec(m: FbModel, color: u32) -> FbModel {
    FbModel { current: color, ..m }
}

/// Effect of `set_background_color`.
pub open spec fn set_background_spec(m: FbModel, color: u32) -> FbModel {
    FbModel { background: color, ..m }
}

/// Effect of drawing one star: an in-bounds position takes the star color,
/// without any depth test; an out-of-bounds position is ignored.
pub open spec fn draw_star_spec(m: FbModel, p: (usize, usize)) -> FbModel {
    if m.in_bounds(p.0 as int, p.1 as int) {
        FbModel { colors: m.colors.update(m.idx(p.0 as int, p.1 as int), STAR_COLOR), ..m }
    } else {
        m
    }
}

/// Effect of drawing a whole list of stars, first to last.
pub open spec fn draw_stars_spec(m: FbModel, stars: Seq<(usize, usize)>) -> FbModel
    decreases stars.len(),
{
    if stars.len() == 0 {
        m
    } else {
        draw_star_spec(draw_stars_spec(m, stars.drop_last()), stars.last())
    }
}

pub struct Framebuffer {
    pub width: usize,
    pub height: usize,
    pub buffer: Vec<u32>,
    pub zbuffer: Vec<i64>,
    pub background_color: u32,
    pub current_color: u32,
}

impl View for Framebuffer {
    type V = FbModel;

    open spec fn view(&self) -> FbModel {
        FbModel {
            width: self.width as nat,
            height: self.height as nat,
            colors: self.buffer@,
            depths: self.zbuffer@,
            background: self.background_color,
            current: self.current_color,
        }
    }
}

impl Framebuffer {
    pub open spec fn wf(&self) -> bool {
        self@.wf()
    }

    pub fn new(width: usize, height: usize) -> (fb: Framebuffer)
        requires
            width * height <= usize::MAX,
        ensures
            fb@ == new_spec(width as nat, height as nat),
            fb.wf(),
    {
        let len: usize = width * height;
        let fb = Framebuffer {
            width,
            height,
            buffer: vec![0x000000u32; len],
            zbuffer: vec![FAR_DEPTH; len],
            background_color: 0x000000,
            current_color: 0xFFFFFF,
        };
        proof {
            assert(fb@.colors =~= new_spec(width as nat, height as nat).colors);
            assert(fb@.depths =~= new_spec(width as nat, height as nat).depths);
        }
        fb
    }

    pub fn clear(&mut self)
        requires
            old(self).wf(),
        ensures
            final(self)@ == clear_spec(old(self)@),
            final(self).wf(),
    {
        let bg = self.background_color;
        let len = self.buffer.len();
        let mut i: usize = 0;
        while i < len
            invariant
                len == self.buffer.len(),
                i <= len,
                self.width == old(self).width,
                self.height == old(self).height,
                self.zbuffer@ == old(self).zbuffer@,
                self.background_color == old(self).background_color,
                self.current_color == old(self).current_color,
                bg == old(self).background_color,
                forall|j: int| 0 <= j < i ==> self.buffer@[j] == bg,
                forall|j: int| i <= j < len ==> self.buffer@[j] == old(self).buffer@[j],
            decreases len - i,
        {
            self.buffer[i] = bg;
            i = i + 1;
        }
        let zlen = self.zbuffer.len();
        let mut k: usize = 0;
        while k < zlen
            invariant
                zlen == self.zbuffer.len(),
                k <= zlen,
                self.width == old(self).width,
                self.height == old(self).height,
                self.buffer@.len() == old(self).buffer@.len(),
                self.background_color == old(self).background_color,
                self.current_color == old(self).current_color,
                forall|j: int| 0 <= j < self.buffer@.len() ==> self.buffer@[j]
                    == old(self).background_color,
                forall|j: int| 0 <= j < k ==> self.zbuffer@[j] == FAR_DEPTH,
                forall|j: int| k <= j < zlen ==> self.zbuffer@[j] == old(self).zbuffer@[j],
            decreases zlen - k,
        {
            self.zbuffer[k] = FAR_DEPTH;
            k = k + 1;
        }
        proof {
            assert(self@.colors =~= clear_spec(old(self)@).colors);
            assert(self@.depths =~= clear_spec(old(self)@).depths);
        }
    }

    pub fn point(&mut self, x: usize, y: usize, depth: i64)
        requires
            old(self).wf(),
        ensures
            final(self)@ == point_spec(old(self)@, x as int, y as int, depth),
            final(self).wf(),
    {
        if x < self.width && y < self.height {
            proof {
                let w = self.width as int;
                let h = self.height as int;
                let yy = y as int;
                assert((yy + 1) * w == yy * w + 1 * w) by {
                    vstd::arithmetic::mul::lemma_mul_is_distributive_add_other_way(w, yy, 1);
                }
                assert((yy + 1) * w <= h * w) by {
                    vstd::arithmetic::mul::lemma_mul_inequality(yy + 1, h, w);
                }
                assert(h * w == w * h) by {
                    vstd::arithmetic::mul::lemma_mul_is_commutative(h, w);
                }
                assert(yy * w + x < w * h);
            }
            let index: usize = y * self.width + x;
            if self.zbuffer[index] > depth {
                self.buffer[index] = self.current_color;
                self.zbuffer[index] = depth;
            }
        }
    }

    /// The flat buffer index of an in-bounds pixel.
    fn index_of(&self, x: usize, y: usize) -> (i: usize)
        requires
            self.wf(),
            x < self.width,
            y < self.height,
        ensures
            i == self@.idx(x as int, y as int),
            i < self@.colors.len(),
            i < self@.depths.len(),
    {
        proof {
            lemma_idx_in_range(self@, x as int, y as int);
        }
        y * self.width + x
    }

    /// Fills the whole color buffer with the background color and then
    /// paints `num_stars` randomly placed pixels in `star_color`; the depth
    /// buffer is untouched. Star positions are random, so only this much is
    /// promised: afterwards every pixel shows either the background color
    /// or `star_color`.
    pub fn set_background_with_stars(&mut self, star_color: u32, num_stars: usize)
        requires
            old(self).wf(),
            old(self).width >= 1,
            old(self).height >= 1,
        ensures
            final(self).wf(),
            final(self)@.width == old(self)@.width,
            final(self)@.height == old(self)@.height,
            final(self)@.depths == old(self)@.depths,
            final(self)@.background == old(self)@.background,
            final(self)@.current == old(self)@.current,
            forall|j: int|
                0 <= j < final(self)@.colors.len() ==> #[trigger] final(self)@.colors[j]
                    == old(self)@.background || final(self)@.colors[j] == star_color,
    {
        let bg = self.background_color;
        let len = self.buffer.len();
        let mut i: usize = 0;
        while i < len
            invariant
                len == self.buffer.len(),
                i <= len,
                self.width == old(self).width,
                self.height == old(self).height,
                self.zbuffer@ == old(self).zbuffer@,
                self.background_color == old(self).background_color,
                self.current_color == old(self).current_color,
                bg == old(self).background_color,
                forall|j: int| 0 <= j < i ==> self.buffer@[j] == bg,
            decreases len - i,
        {
            self.buffer[i] = bg;
            i = i + 1;
        }
        let mut s: usize = 0;
        while s < num_stars
            invariant
                old(self).wf(),
                self.width == old(self).width,
                self.height == old(self).height,
                self.width >= 1,
                self.height >= 1,
                self.buffer@.len() == old(self).buffer@.len(),
                self.zbuffer@ == old(self).zbuffer@,
                self.background_color == old(self).background_color,
                self.current_color == old(self).current_color,
                forall|j: int|
                    0 <= j < self.buffer@.len() ==> #[trigger] self.buffer@[j]
                        == old(self).background_color || self.buffer@[j] == star_color,
            decreases num_stars - s,
        {
            let x = random_below(self.width);
            let y = random_below(self.height);
            let index = self.index_of(x, y);
            self.buffer[index] = star_color;
            s = s + 1;
        }
    }

    /// Paints each in-bounds position of `stars` in the star color,
    /// without any depth test: stars are background decoration behind all
    /// geometry of the frame.
    pub fn draw_stars(&mut self, stars: &Vec<(usize, usize)>)
        requires
            old(self).wf(),
        ensures
            final(self)@ == draw_stars_spec(old(self)@, stars@),
            final(self).wf(),
    {
        let n = stars.len();
        let mut i: usize = 0;
        while i < n
            invariant
                old(self).wf(),
                n == stars@.len(),
                i <= n,
                self@ == draw_stars_spec(old(self)@, stars@.take(i as int)),
                self.wf(),
            decreases n - i,
        {
            proof {
                assert(stars@.take(i + 1).drop_last() =~= stars@.take(i as int));
                assert(stars@.take(i + 1).last() == stars@[i as int]);
            }
            let (x, y) = stars[i];
            if x < self.width && y < self.height {
                let index = self.index_of(x, y);
                self.buffer[index] = STAR_COLOR;
            }
            i = i + 1;
        }
        proof {
            assert(stars@.take(n as int) =~= stars@);
        }
    }

    pub fn set_background_color(&mut self, color: u32)
        ensures
            final(self)@ == set_background_spec(old(self)@, color),
    {
        self.background_color = color;
    }

    pub fn set_current_color(&mut self, color: u32)
        ensures
            final(self)@ == set_current_spec(old(self)@, color),
    {
        self.current_color = color;
    }
}

/// After a `clear`, an in-bounds `point` with any depth nearer than
/// `FAR_DEPTH` always writes: the pixel takes the drawing color and the
/// given depth.
pub proof fn lemma_clear_then_point_writes(m: FbModel, x: int, y: int, d: i64)
    requires
        m.wf(),
        m.in_bounds(x, y),
        d < FAR_DEPTH,
    ensures
        point_spec(clear_spec(m), x, y, d).colors[m.idx(x, y)] == m.current,
        point_spec(clear_spec(m), x, y, d).depths[m.idx(x, y)] == d,
{
    let c = clear_spec(m);
    lemma_idx_in_range(m, x, y);
    assert(c.depths[c.idx(x, y)] == FAR_DEPTH);
}

/// `point` is idempotent: repeating a call with the same arguments leaves
/// the buffer exactly as after the first call.
pub proof fn lemma_point_idempotent(m: FbModel, x: int, y: int, d: i64)
    requires
        m.wf(),
    ensures
        point_spec(point_spec(m, x, y, d), x, y, d) == point_spec(m, x, y, d),
{
    if m.in_bounds(x, y) {
        lemma_idx_in_range(m, x, y);
    }
}

/// Out-of-bounds coordinates never mutate any buffer state.
pub proof fn lemma_point_out_of_bounds(m: FbModel, x: int, y: int, d: i64)
    requires
        x >= m.width || y >= m.height,
    ensures
        point_spec(m, x, y, d) == m,
{
}

/// Depth-test monotonicity: drawing at `(x, y)` with color `c1` at depth
/// `d1` and then with `c2` at depth `d2` (both nearer than the stored
/// depth) leaves whichever is nearer, in either call order; on an exact tie
/// the earlier call of the order wins.
pub proof fn lemma_point_order_independent(
    m: FbModel,
    x: int,
    y: int,
    d1: i64,
    c1: u32,
    d2: i64,
    c2: u32,
)
    requires
        m.wf(),
        m.in_bounds(x, y),
        d1 < m.depths[m.idx(x, y)],
        d2 < m.depths[m.idx(x, y)],
    ensures
        ({
            let first = point_spec(set_current_spec(m, c1), x, y, d1);
            let r12 = point_spec(set_current_spec(first, c2), x, y, d2);
            &&& (d1 <= d2 ==> r12.depths[m.idx(x, y)] == d1 && r12.colors[m.idx(x, y)] == c1)
            &&& (d2 < d1 ==> r12.depths[m.idx(x, y)] == d2 && r12.colors[m.idx(x, y)] == c2)
        }),
        ({
            let first = point_spec(set_current_spec(m, c2), x, y, d2);
            let r21 = point_spec(set_current_spec(first, c1), x, y, d1);
            &&& (d2 <= d1 ==> r21.depths[m.idx(x, y)] == d2 && r21.colors[m.idx(x, y)] == c2)
            &&& (d1 < d2 ==> r21.depths[m.idx(x, y)] == d1 && r21.colors[m.idx(x, y)] == c1)
        }),
{
    lemma_idx_in_range(m, x, y);
}

/// The flat index of an in-bounds pixel addresses a buffer entry.
pub proof fn lemma_idx_in_range(m: FbModel, x: int, y: int)
    requires
        m.wf(),
        m.in_bounds(x, y),
    ensures
        0 <= m.idx(x, y) < m.width * m.height,
{
    vstd::arithmetic::mul::lemma_mul_inequality(y + 1, m.height as int, m.width as int);
    vstd::arithmetic::mul::lemma_mul_is_distributive_add_other_way(m.width as int, y, 1);
    vstd::arithmetic::mul::lemma_mul_is_commutative(y, m.width as int);
    vstd::arithmetic::mul::lemma_mul_is_commutative(m.height as int, m.width as int);
    vstd::arithmetic::mul::lemma_mul_nonnegative(y, m.width as int);
}

} // verus!

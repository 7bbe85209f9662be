//! Random star positions for the background of a scene.

use crate::rng::random_below;
use vstd::prelude::*;

verus! {

/// Draws `num_stars` random positions, each strictly inside a
/// `width x height` viewport. The positions themselves are random; only
/// their count and bounds are promised.
pub fn generate_stars(num_stars: usize, width: usize, height: usize) -> (stars: Vec<
    (usize, usize),
>)
    requires
        width >= 1,
        height >= 1,
    ensures
        stars@.len() == num_stars,
        forall|i: int|
            0 <= i < stars@.len() ==> (#[trigger] stars@[i]).0 < width && stars@[i].1 < height,
{
    let mut stars: Vec<(usize, usize)> = Vec::new();
    let mut i: usize = 0;
    while i < num_stars
        invariant
            i <= num_stars,
            width >= 1,
            height >= 1,
            stars@.len() == i,
            forall|j: int|
                0 <= j < stars@.len() ==> (#[trigger] stars@[j]).0 < width && stars@[j].1
                    < height,
        decreases num_stars - i,
    {
        let x = random_below(width);
        let y = random_below(height);
        stars.push((x, y));
        i = i + 1;
    }
    stars
}

} // verus!

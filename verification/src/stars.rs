//! The backdrop: stars scattered over the screen at random.
use rand::Rng;
use vstd::prelude::*;

verus! {

/// Draws a number below `bound` with `rand::thread_rng` and
/// `Rng::gen_range(0..bound)`. Which number comes is left open; that it is
/// below the bound is what `gen_range` documents for a half-open range.
#[verifier::external_body]
fn random_below(bound: usize) -> (r: usize)
    requires
        bound > 0,
    ensures
        r < bound,
{
    rand::thread_rng().gen_range(0..bound)
}

/// How many stars a screen gets: its area in pixels times the density,
/// rounded down; none for a density that is not positive. `density` is a
/// 16.16 scalar, in stars per pixel.
pub open spec fn star_count(width: usize, height: usize, density: i32) -> int {
    if density <= 0 {
        0
    } else if (density * (width * height)) / 65536 > usize::MAX {
        usize::MAX as int
    } else {
        (density * (width * height)) / 65536
    }
}

/// Scatters stars over a screen of `width` by `height` pixels. Every star
/// lies on the screen; where it lies is random.
pub fn generate_stars(width: usize, height: usize, density: i32) -> (stars: Vec<(usize, usize)>)
    requires
        width * height <= usize::MAX,
    ensures
        stars@.len() == star_count(width, height, density),
        forall|i: int| 0 <= i < stars@.len() ==> stars@[i].0 < width && stars@[i].1 < height,
{
    let total_area: usize = width * height;
    let number_of_stars: usize = if density <= 0 {
        0
    } else {
        let d: u128 = density as u128;
        let a: u128 = total_area as u128;
        assert(d * a <= 0x8000_0000 * 0xffff_ffff_ffff_ffff) by (nonlinear_arith)
            requires
                0 <= d <= 0x8000_0000,
                0 <= a <= 0xffff_ffff_ffff_ffff,
        ;
        assert(a == 0 ==> d * a == 0) by (nonlinear_arith);
        let n: u128 = (d * a) / 65536;
        if n > usize::MAX as u128 {
            usize::MAX
        } else {
            n as usize
        }
    };
    assert(number_of_stars > 0 ==> total_area > 0);
    assert(total_area > 0 ==> width > 0 && height > 0) by (nonlinear_arith)
        requires
            total_area == width * height,
    ;
    let mut stars: Vec<(usize, usize)> = Vec::new();
    let mut i: usize = 0;
    while i < number_of_stars
        invariant
            i <= number_of_stars,
            number_of_stars > 0 ==> width > 0 && height > 0,
            stars@.len() == i,
            forall|j: int| 0 <= j < i ==> stars@[j].0 < width && stars@[j].1 < height,
        decreases number_of_stars - i,
    {
        let x: usize = random_below(width);
        let y: usize = random_below(height);
        stars.push((x, y));
        i += 1;
    }
    stars
}

} // verus!

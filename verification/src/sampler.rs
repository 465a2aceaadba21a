//! Sizing of the jittered sample pool.
//!
//! The sampler precomputes many sets of jittered points on the unit square;
//! the points themselves are floating-point and are generated outside this
//! crate. What is settled here is the pool's shape: the requested per-pixel
//! sample count is squared down to a grid, and one grid is generated per set.

use vstd::prelude::*;

verus! {

/// Number of precomputed sample sets in the pool, a sufficiently large prime
/// so that neighbouring pixels rarely draw the same set and no shading
/// streaks appear.
pub const NUM_SAMPLE_SETS: usize = 83;

/// `r` is the integer square root of `n`: the largest integer whose square
/// does not exceed `n`.
pub open spec fn is_floor_sqrt(n: int, r: int) -> bool {
    r * r <= n < (r + 1) * (r + 1)
}

/// Side length of the jittered grid for the requested sample count: the
/// integer square root of the count, so a grid of `side * side` points is
/// generated, never more than was requested.
pub fn sample_grid_side(num_samples: u8) -> (side: u8)
    ensures
        is_floor_sqrt(num_samples as int, side as int),
        side <= 15,
{
    let n: u16 = num_samples as u16;
    let mut r: u16 = 0;
    let mut next_square: u16 = 1;
    while next_square <= n
        invariant
            n == num_samples,
            r * r <= n,
            r <= 15,
            next_square == (r + 1) * (r + 1),
        decreases 16 - r,
    {
        proof {
            assert(((r + 1) * (r + 1) <= 255) ==> r + 1 <= 15) by (nonlinear_arith);
            assert((r + 2) * (r + 2) == (r + 1) * (r + 1) + 2 * (r + 1) + 1) by (nonlinear_arith);
        }
        r = r + 1;
        next_square = next_square + 2 * r + 1;
    }
    r as u8
}

/// Number of points the sampler precomputes: one grid of `grid_side *
/// grid_side` jittered points for each of the [`NUM_SAMPLE_SETS`] sets.
pub fn sample_pool_size(grid_side: u8) -> (total: usize)
    ensures
        total == NUM_SAMPLE_SETS * grid_side * grid_side,
{
    proof {
        assert(NUM_SAMPLE_SETS * (grid_side as int) * (grid_side as int) <= 83 * 255 * 255)
            by (nonlinear_arith)
            requires
                grid_side <= 255,
        ;
    }
    NUM_SAMPLE_SETS * (grid_side as usize) * (grid_side as usize)
}

} // verus!

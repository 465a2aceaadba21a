//! Per-render diagnostic counters.
//!
//! Each worker keeps its own accumulator while tracing and the accumulators
//! are merged once the render is done, so no shared mutable state is needed.
//! The counts wrap on overflow, as a shared fetch-and-add counter would.

use vstd::prelude::*;

verus! {

/// The value of a counter after one more event, wrapping at the top of `u64`.
pub open spec fn next_count(c: u64) -> u64 {
    if c == u64::MAX {
        0
    } else {
        (c + 1) as u64
    }
}

/// The sum of two counters, wrapping at the top of `u64`.
pub open spec fn combined_count(a: u64, b: u64) -> u64 {
    if a + b <= u64::MAX {
        (a + b) as u64
    } else {
        (a + b - 0x1_0000_0000_0000_0000) as u64
    }
}

/// Counts of the rays created and the intersection tests run during one
/// render.
#[derive(Debug, Clone, Copy, PartialEq, Eq, Structural)]
pub struct RenderStats {
    /// Number of rays created.
    pub ray_count: u64,
    /// Number of intersection tests on geometries.
    pub intersection_count: u64,
}

impl RenderStats {
    /// A fresh accumulator with both counts at zero.
    pub fn new() -> (s: Self)
        ensures
            s.ray_count == 0,
            s.intersection_count == 0,
    {
        Self { ray_count: 0, intersection_count: 0 }
    }

    /// Folds another worker's counts into this accumulator.
    pub fn merge(&mut self, other: &Self)
        ensures
            final(self).ray_count == combined_count(old(self).ray_count, other.ray_count),
            final(self).intersection_count == combined_count(
                old(self).intersection_count,
                other.intersection_count,
            ),
    {
        self.ray_count = wrapping_sum(self.ray_count, other.ray_count);
        self.intersection_count = wrapping_sum(self.intersection_count, other.intersection_count);
    }
}

/// Adds two counters with wrap-around at the top of `u64`.
fn wrapping_sum(a: u64, b: u64) -> (r: u64)
    ensures
        r == combined_count(a, b),
{
    if b <= u64::MAX - a {
        a + b
    } else {
        b - (u64::MAX - a) - 1
    }
}

/// Records one more ray created.
pub fn inc_ray_count(stats: &mut RenderStats)
    ensures
        final(stats).ray_count == next_count(old(stats).ray_count),
        final(stats).intersection_count == old(stats).intersection_count,
{
    stats.ray_count = if stats.ray_count == u64::MAX {
        0
    } else {
        stats.ray_count + 1
    };
}

/// Records one more intersection test on a geometry.
pub fn inc_intersection_count(stats: &mut RenderStats)
    ensures
        final(stats).intersection_count == next_count(old(stats).intersection_count),
        final(stats).ray_count == old(stats).ray_count,
{
    stats.intersection_count = if stats.intersection_count == u64::MAX {
        0
    } else {
        stats.intersection_count + 1
    };
}

} // verus!

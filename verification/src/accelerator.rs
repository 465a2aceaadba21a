//! Split-index decisions of BVH construction.
//!
//! Building the bounding-volume hierarchy sorts primitives by floating-point
//! box centers and weighs splits with a floating-point surface-area cost,
//! which happens outside this crate. The indices at which the primitive list
//! may be split are decided here: the median, and the candidate positions
//! the cost heuristic is allowed to try. Both are proper splits — strictly
//! between the ends — so each half of the recursive build is smaller than
//! the whole and construction terminates.

use vstd::prelude::*;

verus! {

/// The median split position of a primitive list: both halves are nonempty
/// and strictly smaller than the list, so the recursive build terminates.
pub fn median_index(count: usize) -> (m: usize)
    requires
        count >= 2,
    ensures
        m == count / 2,
        1 <= m < count,
{
    count / 2
}

/// The split positions the surface-area heuristic tries: the quarter
/// points and the midpoint of the list, keeping those that split properly.
pub open spec fn spec_split_candidates(count: usize) -> Seq<usize> {
    (if 0 < count / 4 < count {
        seq![(count / 4) as usize]
    } else {
        Seq::empty()
    }) + (if 0 < count / 2 < count {
        seq![(count / 2) as usize]
    } else {
        Seq::empty()
    }) + (if 0 < 3 * count / 4 < count {
        seq![(3 * count / 4) as usize]
    } else {
        Seq::empty()
    })
}

/// The candidate split positions for a list of `count` primitives, in the
/// order the heuristic tries them. Every returned position is a proper
/// split: at least one primitive on each side.
pub fn sah_split_candidates(count: usize) -> (v: Vec<usize>)
    requires
        count <= usize::MAX / 3,
    ensures
        v@ == spec_split_candidates(count),
        forall|i: int| 0 <= i < v@.len() ==> 0 < #[trigger] v@[i] < count,
{
    let mut v: Vec<usize> = Vec::new();
    let quarter: usize = count / 4;
    let half: usize = count / 2;
    let three_quarters: usize = 3 * count / 4;
    if 0 < quarter && quarter < count {
        v.push(quarter);
    }
    if 0 < half && half < count {
        v.push(half);
    }
    if 0 < three_quarters && three_quarters < count {
        v.push(three_quarters);
    }
    proof {
        assert(v@ =~= spec_split_candidates(count));
    }
    v
}

} // verus!

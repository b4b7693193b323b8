//! Buffer sizes shared by the benchmarks and the positions that a run samples
//! for its checksum.

use vstd::prelude::*;

verus! {

/// Width of the rows converted by the XYB benchmark.
pub const XYB_WIDTH: usize = 4096;

/// Width of the rows filtered by the edge-preserving filter benchmark.
pub const EPF_WIDTH: usize = 1024;

/// Width of the image the spline benchmark draws into.
pub const SPLINE_WIDTH: usize = 320;

/// Height of the image the spline benchmark draws into.
pub const SPLINE_HEIGHT: usize = 320;

/// Width of the rows blended by the patch-blending benchmark.
pub const BLEND_WIDTH: usize = 4096;

/// The position that a run samples in channel `k` of buffers holding `len`
/// samples each: the first sample of channel 0, the middle sample of
/// channel 1 and the last sample of channel 2.
pub open spec fn checksum_position(len: int, k: int) -> int {
    if k == 0 {
        0
    } else if k == 1 {
        len / 2
    } else {
        len - 1
    }
}

/// The three positions a run adds up for its checksum, one per channel, for
/// channels of `len` samples.
pub fn checksum_positions(len: usize) -> (r: [usize; 3])
    requires
        len > 0,
    ensures
        forall|k: int| 0 <= k < 3 ==> r[k] == checksum_position(len as int, k),
{
    let r = [0, len / 2, len - 1];
    assert(r@ =~= seq![0usize, len / 2, (len - 1) as usize]);
    r
}

/// Every position sampled for a checksum lies inside its channel, so the
/// checksum of a run never indexes past a buffer of `len` samples.
pub proof fn checksum_positions_in_bounds(len: int, k: int)
    requires
        len > 0,
        0 <= k < 3,
    ensures
        0 <= checksum_position(len, k) < len,
{
}

} // verus!

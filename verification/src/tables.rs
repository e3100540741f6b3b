//! Constant tables of the AV1 format used by the filters.
use vstd::prelude::*;

verus! {

/// The number of partition types at each block level, 128x128 down to 8x8.
pub const PARTITION_TYPE_COUNT: [u8; 5] = [7, 9, 9, 9, 3];

/// Offsets of the CDEF taps in the 12-wide padded block, for the eight
/// directions (entries 2 to 9) with two wrapped entries on each side, and for
/// the two tap distances.
pub const CDEF_DIRECTIONS: [[i8; 2]; 12] = [
    [12, 24],
    [12, 23],
    [-11, -22],
    [1, -10],
    [1, 2],
    [1, 14],
    [13, 26],
    [12, 25],
    [12, 24],
    [12, 23],
    [-11, -22],
    [1, -10],
];

/// The weights (64ths) of the neighbouring block's prediction in overlapped
/// block motion compensation, for each overlap size `n` at entries `n` to
/// `2n - 1`, decreasing away from the shared edge.
pub const OBMC_MASKS: [u8; 64] = [
    0, 0,
    19, 0,
    25, 14, 5, 0,
    28, 22, 16, 11, 7, 3, 0, 0,
    30, 27, 24, 21, 18, 15, 12, 10, 8, 6, 4, 3, 0, 0, 0, 0,
    31, 29, 28, 26, 24, 23, 21, 20, 19, 17, 16, 14, 13, 12, 11, 9,
    8, 7, 6, 5, 4, 4, 3, 2, 0, 0, 0, 0, 0, 0, 0, 0,
];

/// Every weight of `OBMC_MASKS` is at most 64 (in fact below 32).
pub proof fn lemma_obmc_masks_bound()
    ensures
        forall|i: int| 0 <= i < 64 ==> #[trigger] OBMC_MASKS[i] < 32,
{
}

} // verus!

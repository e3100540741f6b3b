//! The table of CDEF kernels that the decoder calls through: the direction
//! search, and the filter for each of the three block sizes.
use vstd::prelude::*;
use crate::bitdepth::BitDepth;
use crate::cdef::{cdef_filter_block_c, cdef_shifts_ok, padding_inputs_fit, spec_cdef_px, spec_padded_block, tmp_cell, CdefEdgeFlags};
use crate::cdef_dir::{cdef_find_dir_rust, spec_best_dir, spec_dir_variance};
use crate::plane::{rect_fits, rect_written};

verus! {

/// The slot of the direction search.
#[derive(Clone, Copy, PartialEq, Eq, Debug)]
pub struct CdefDirFn;

/// A slot of the filter: the block size its kernel filters.
#[derive(Clone, Copy, PartialEq, Eq, Debug)]
pub struct CdefFn {
    pub w: usize,
    pub h: usize,
}

impl CdefDirFn {
    /// The direction of the 8 by 8 block at `off` (row stride `stride`) and
    /// its directional variance (in `var`).
    pub fn call(&self, img: &Vec<u16>, off: usize, stride: usize, var: &mut u32, bd: BitDepth) -> (dir: i32)
        requires
            rect_fits(off as int, stride as int, 8, 8, img.len() as int),
        ensures
            dir == spec_best_dir(img@, off as int, stride as int, bd),
            *final(var) == spec_dir_variance(img@, off as int, stride as int, bd),
            0 <= dir < 8,
    {
        cdef_find_dir_rust(img, off, stride, var, bd)
    }
}

impl CdefFn {
    /// Filters the block of the slot's size at `dst_off` of `dst` (see
    /// `cdef_filter_block_c`).
    pub fn call(
        &self,
        dst: &mut Vec<u16>,
        dst_off: usize,
        dst_stride: usize,
        left: &[[u16; 2]],
        top: &[u16],
        top_off: usize,
        bottom: &[u16],
        bottom_off: usize,
        pri_strength: i32,
        sec_strength: i32,
        dir: i32,
        damping: i32,
        edges: CdefEdgeFlags,
        bd: BitDepth,
    )
        requires
            (self.w == 4 || self.w == 8) && (self.h == 4 || self.h == 8),
            pri_strength != 0 || sec_strength != 0,
            0 <= pri_strength <= 32767,
            0 <= sec_strength <= 32767,
            0 <= dir < 8,
            cdef_shifts_ok(pri_strength as int, sec_strength as int, damping as int),
            rect_fits(dst_off as int, dst_stride as int, self.w as int, self.h as int, old(dst).len() as int),
            padding_inputs_fit(old(dst).len() as int, dst_off as int, dst_stride as int, left.len() as int,
                top.len() as int, top_off as int, bottom.len() as int, bottom_off as int, self.w as int,
                self.h as int, edges),
        ensures
            rect_written(final(dst)@, old(dst)@, dst_off as int, dst_stride as int, self.w as int, self.h as int, 0,
                |y: int, x: int|
                    spec_cdef_px(
                        spec_padded_block(old(dst)@, dst_off as int, dst_stride as int, left@, top@, top_off as int,
                            bottom@, bottom_off as int, self.w as int, self.h as int, edges),
                        tmp_cell(y, x),
                        old(dst)@[dst_off + y * dst_stride + x] as int,
                        pri_strength as int,
                        sec_strength as int,
                        dir as int,
                        damping as int,
                        bd,
                    )),
    {
        cdef_filter_block_c(dst, dst_off, dst_stride, left, top, top_off, bottom, bottom_off, pri_strength,
            sec_strength, dir, damping, self.w, self.h, edges, bd)
    }
}

/// The CDEF table: the direction search and the filters for 8 by 8, 4 by 8
/// and 4 by 4 blocks.
pub struct Rav1dCdefDSPContext {
    pub dir: CdefDirFn,
    pub fb: [CdefFn; 3],
}

/// Fills the CDEF table with the portable kernels.
pub fn dav1d_cdef_dsp_init_16bpc(c: &mut Rav1dCdefDSPContext)
    ensures
        final(c).fb[0] == (CdefFn { w: 8, h: 8 }),
        final(c).fb[1] == (CdefFn { w: 4, h: 8 }),
        final(c).fb[2] == (CdefFn { w: 4, h: 4 }),
{
    c.dir = CdefDirFn;
    c.fb[0] = CdefFn { w: 8, h: 8 };
    c.fb[1] = CdefFn { w: 4, h: 8 };
    c.fb[2] = CdefFn { w: 4, h: 4 };
}

} // verus!

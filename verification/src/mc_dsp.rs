//! The table of motion compensation kernels that the decoder calls through:
//! for each combination of horizontal and vertical filters, the kernel that
//! interpolates (at the block's scale or scaled, into pixels or into the
//! intermediate buffer), and for each chroma layout the kernel that blends
//! two predictions under a mask derived from them.
use vstd::prelude::*;
use crate::bitdepth::BitDepth;
use crate::mc::{
    Rav1dFilterMode, SubpelFilters, bilin_window, mc_window, prep_8tap_fits, prep_8tap_rust, prep_8tap_scaled_rust,
    prep_bilin_rust, prep_bilin_scaled_rust, put_8tap_rust, put_8tap_scaled_rust, put_bilin_rust, put_bilin_scaled_rust,
    scaled_window, spec_filter_taps, spec_prep_8tap_px, spec_prep_8tap_scaled_px, spec_prep_bilin_px,
    spec_prep_bilin_scaled_px, spec_put_8tap_px, spec_put_8tap_scaled_px, spec_put_bilin_px, spec_put_bilin_scaled_px,
};
use crate::plane::{rect_fits, rect_written};
use crate::compound::{
    avg_rust, blend_h_rust, blend_rust, blend_v_rust, mask_rust, spec_avg_px, spec_blend_px, spec_mask_px, spec_w_avg_px,
    spec_w_mask_at, spec_w_mask_out, w_avg_rust, w_mask_rust,
};
use crate::emu_edge::{emu_edge_rust, spec_edge_px, spec_ext_after, spec_ext_before};
use crate::plane::window_fits;
use crate::tables::OBMC_MASKS;
use crate::warp::{
    resize_rust, spec_resize_px, spec_warp_v, warp_affine_8x8_rust, warp_affine_8x8t_rust, warp_grid_ok, ResizeFilters,
    WarpFilters,
};

verus! {

/// The combinations of horizontal and vertical interpolation filters of a
/// block (the first named filter is the horizontal one).
#[derive(Clone, Copy, PartialEq, Eq, Debug)]
pub enum Filter2d {
    Regular8Tap,
    RegularSmooth8Tap,
    RegularSharp8Tap,
    SharpRegular8Tap,
    SharpSmooth8Tap,
    Sharp8Tap,
    SmoothRegular8Tap,
    Smooth8Tap,
    SmoothSharp8Tap,
    Bilinear,
}

impl Filter2d {
    pub open spec fn spec_index(self) -> int {
        match self {
            Filter2d::Regular8Tap => 0,
            Filter2d::RegularSmooth8Tap => 1,
            Filter2d::RegularSharp8Tap => 2,
            Filter2d::SharpRegular8Tap => 3,
            Filter2d::SharpSmooth8Tap => 4,
            Filter2d::Sharp8Tap => 5,
            Filter2d::SmoothRegular8Tap => 6,
            Filter2d::Smooth8Tap => 7,
            Filter2d::SmoothSharp8Tap => 8,
            Filter2d::Bilinear => 9,
        }
    }

    pub fn index(&self) -> (r: usize)
        ensures
            r == self.spec_index(),
    {
        match self {
            Filter2d::Regular8Tap => 0,
            Filter2d::RegularSmooth8Tap => 1,
            Filter2d::RegularSharp8Tap => 2,
            Filter2d::SharpRegular8Tap => 3,
            Filter2d::SharpSmooth8Tap => 4,
            Filter2d::Sharp8Tap => 5,
            Filter2d::SmoothRegular8Tap => 6,
            Filter2d::Smooth8Tap => 7,
            Filter2d::SmoothSharp8Tap => 8,
            Filter2d::Bilinear => 9,
        }
    }
}

/// The chroma subsampling of a picture: both directions, horizontal only, none.
#[derive(Clone, Copy, PartialEq, Eq, Debug)]
pub enum Rav1dPixelLayoutSubSampled {
    I420,
    I422,
    I444,
}

impl Rav1dPixelLayoutSubSampled {
    pub open spec fn spec_index(self) -> int {
        match self {
            Rav1dPixelLayoutSubSampled::I420 => 0,
            Rav1dPixelLayoutSubSampled::I422 => 1,
            Rav1dPixelLayoutSubSampled::I444 => 2,
        }
    }

    pub fn index(&self) -> (r: usize)
        ensures
            r == self.spec_index(),
    {
        match self {
            Rav1dPixelLayoutSubSampled::I420 => 0,
            Rav1dPixelLayoutSubSampled::I422 => 1,
            Rav1dPixelLayoutSubSampled::I444 => 2,
        }
    }
}

/// An interpolation kernel: 8-tap with a horizontal and a vertical filter
/// type, or bilinear.
#[derive(Clone, Copy, PartialEq, Eq, Debug)]
pub enum McKernel {
    EightTap(Rav1dFilterMode, Rav1dFilterMode),
    Bilinear,
}

/// The kernel of a filter combination.
pub open spec fn spec_kernel_of(f: Filter2d) -> McKernel {
    match f {
        Filter2d::Regular8Tap => McKernel::EightTap(Rav1dFilterMode::Regular8Tap, Rav1dFilterMode::Regular8Tap),
        Filter2d::RegularSmooth8Tap => McKernel::EightTap(Rav1dFilterMode::Regular8Tap, Rav1dFilterMode::Smooth8Tap),
        Filter2d::RegularSharp8Tap => McKernel::EightTap(Rav1dFilterMode::Regular8Tap, Rav1dFilterMode::Sharp8Tap),
        Filter2d::SharpRegular8Tap => McKernel::EightTap(Rav1dFilterMode::Sharp8Tap, Rav1dFilterMode::Regular8Tap),
        Filter2d::SharpSmooth8Tap => McKernel::EightTap(Rav1dFilterMode::Sharp8Tap, Rav1dFilterMode::Smooth8Tap),
        Filter2d::Sharp8Tap => McKernel::EightTap(Rav1dFilterMode::Sharp8Tap, Rav1dFilterMode::Sharp8Tap),
        Filter2d::SmoothRegular8Tap => McKernel::EightTap(Rav1dFilterMode::Smooth8Tap, Rav1dFilterMode::Regular8Tap),
        Filter2d::Smooth8Tap => McKernel::EightTap(Rav1dFilterMode::Smooth8Tap, Rav1dFilterMode::Smooth8Tap),
        Filter2d::SmoothSharp8Tap => McKernel::EightTap(Rav1dFilterMode::Smooth8Tap, Rav1dFilterMode::Sharp8Tap),
        Filter2d::Bilinear => McKernel::Bilinear,
    }
}

fn kernel_of(f: Filter2d) -> (k: McKernel)
    ensures
        k == spec_kernel_of(f),
{
    match f {
        Filter2d::Regular8Tap => McKernel::EightTap(Rav1dFilterMode::Regular8Tap, Rav1dFilterMode::Regular8Tap),
        Filter2d::RegularSmooth8Tap => McKernel::EightTap(Rav1dFilterMode::Regular8Tap, Rav1dFilterMode::Smooth8Tap),
        Filter2d::RegularSharp8Tap => McKernel::EightTap(Rav1dFilterMode::Regular8Tap, Rav1dFilterMode::Sharp8Tap),
        Filter2d::SharpRegular8Tap => McKernel::EightTap(Rav1dFilterMode::Sharp8Tap, Rav1dFilterMode::Regular8Tap),
        Filter2d::SharpSmooth8Tap => McKernel::EightTap(Rav1dFilterMode::Sharp8Tap, Rav1dFilterMode::Smooth8Tap),
        Filter2d::Sharp8Tap => McKernel::EightTap(Rav1dFilterMode::Sharp8Tap, Rav1dFilterMode::Sharp8Tap),
        Filter2d::SmoothRegular8Tap => McKernel::EightTap(Rav1dFilterMode::Smooth8Tap, Rav1dFilterMode::Regular8Tap),
        Filter2d::Smooth8Tap => McKernel::EightTap(Rav1dFilterMode::Smooth8Tap, Rav1dFilterMode::Smooth8Tap),
        Filter2d::SmoothSharp8Tap => McKernel::EightTap(Rav1dFilterMode::Smooth8Tap, Rav1dFilterMode::Sharp8Tap),
        Filter2d::Bilinear => McKernel::Bilinear,
    }
}

/// A slot of the table of interpolation into pixels.
#[derive(Clone, Copy, PartialEq, Eq, Debug)]
pub struct McFn(pub McKernel);

/// A slot of the table of scaled interpolation into pixels.
#[derive(Clone, Copy, PartialEq, Eq, Debug)]
pub struct McScaledFn(pub McKernel);

/// A slot of the table of interpolation into the intermediate buffer.
#[derive(Clone, Copy, PartialEq, Eq, Debug)]
pub struct MctFn(pub McKernel);

/// A slot of the table of scaled interpolation into the intermediate buffer.
#[derive(Clone, Copy, PartialEq, Eq, Debug)]
pub struct MctScaledFn(pub McKernel);

/// A slot of the table of mask-deriving blends: the chroma subsampling of the
/// mask it stores.
#[derive(Clone, Copy, PartialEq, Eq, Debug)]
pub struct WMaskFn {
    pub ss_hor: bool,
    pub ss_ver: bool,
}

impl McFn {
    /// Runs the slot's kernel on the `w` by `h` block at sub-pixel position
    /// `(mx, my)` (sixteenths).
    pub fn call(
        &self,
        dst: &mut Vec<u16>,
        dst_off: usize,
        dst_stride: usize,
        src: &Vec<u16>,
        src_off: usize,
        src_stride: usize,
        w: i32,
        h: i32,
        mx: i32,
        my: i32,
        filters: &SubpelFilters,
        bd: BitDepth,
    )
        requires
            0 < w <= 128,
            0 < h <= 128,
            0 <= mx < 16,
            0 <= my < 16,
            rect_fits(dst_off as int, dst_stride as int, w as int, h as int, old(dst).len() as int),
            self.0 is Bilinear ==> bilin_window(src.len() as int, src_off as int, src_stride as int, w as int, h as int,
                mx != 0, my != 0),
            self.0 is EightTap ==> mc_window(src.len() as int, src_off as int, src_stride as int, w as int, h as int,
                mx != 0, my != 0),
        ensures
            rect_written(final(dst)@, old(dst)@, dst_off as int, dst_stride as int, w as int, h as int, 0,
                |y: int, x: int|
                    match self.0 {
                        McKernel::EightTap(th, tv) => spec_put_8tap_px(src@, src_off as int, src_stride as int,
                            spec_filter_taps(*filters, mx as int, w as int, th), spec_filter_taps(*filters, my as int,
                            h as int, tv), bd, y, x),
                        McKernel::Bilinear => spec_put_bilin_px(src@, src_off as int, src_stride as int, mx as int,
                            my as int, bd, y, x),
                    }),
    {
        match self.0 {
            McKernel::EightTap(th, tv) => put_8tap_rust(dst, dst_off, dst_stride, src, src_off, src_stride, w as usize,
                h as usize, mx as usize, my as usize, (th, tv), filters, bd),
            McKernel::Bilinear => put_bilin_rust(dst, dst_off, dst_stride, src, src_off, src_stride, w as usize,
                h as usize, mx as usize, my as usize, bd),
        }
    }
}

impl McScaledFn {
    /// Runs the slot's scaled kernel on the `w` by `h` block at position
    /// `(mx, my)` (1/1024 pixel), advancing by `dx` per column and `dy` per row.
    pub fn call(
        &self,
        dst: &mut Vec<u16>,
        dst_off: usize,
        dst_stride: usize,
        src: &Vec<u16>,
        src_off: usize,
        src_stride: usize,
        w: i32,
        h: i32,
        mx: i32,
        my: i32,
        dx: i32,
        dy: i32,
        filters: &SubpelFilters,
        bd: BitDepth,
    )
        requires
            0 < w <= 128,
            0 < h <= 128,
            0 <= mx < 1024,
            0 <= my < 1024,
            0 <= dx,
            0 <= dy,
            (w - 1) * dx + mx <= usize::MAX,
            ((h - 1) * dy + my) / 1024 + 8 <= 263,
            rect_fits(dst_off as int, dst_stride as int, w as int, h as int, old(dst).len() as int),
            self.0 is Bilinear ==> scaled_window(src.len() as int, src_off as int, src_stride as int, w as int,
                h as int, mx as int, my as int, dx as int, dy as int, 0, 2),
            self.0 is EightTap ==> scaled_window(src.len() as int, src_off as int, src_stride as int, w as int,
                h as int, mx as int, my as int, dx as int, dy as int, -3, 5),
        ensures
            rect_written(final(dst)@, old(dst)@, dst_off as int, dst_stride as int, w as int, h as int, 0,
                |y: int, x: int|
                    match self.0 {
                        McKernel::EightTap(th, tv) => spec_put_8tap_scaled_px(src@, src_off as int, src_stride as int,
                            *filters, mx as int, my as int, dx as int, dy as int, w as int, h as int, (th, tv), bd, y, x),
                        McKernel::Bilinear => spec_put_bilin_scaled_px(src@, src_off as int, src_stride as int,
                            mx as int, my as int, dx as int, dy as int, bd, y, x),
                    }),
    {
        match self.0 {
            McKernel::EightTap(th, tv) => put_8tap_scaled_rust(dst, dst_off, dst_stride, src, src_off, src_stride,
                w as usize, h as usize, mx as usize, my as usize, dx as usize, dy as usize, (th, tv), filters, bd),
            McKernel::Bilinear => put_bilin_scaled_rust(dst, dst_off, dst_stride, src, src_off, src_stride, w as usize,
                h as usize, mx as usize, my as usize, dx as usize, dy as usize, bd),
        }
    }
}

impl MctFn {
    /// Runs the slot's kernel on the `w` by `h` block at sub-pixel position
    /// `(mx, my)` (sixteenths), into the intermediate buffer `tmp` (row
    /// stride `w`).
    pub fn call(
        &self,
        tmp: &mut Vec<i16>,
        src: &Vec<u16>,
        src_off: usize,
        src_stride: usize,
        w: i32,
        h: i32,
        mx: i32,
        my: i32,
        filters: &SubpelFilters,
        bd: BitDepth,
    )
        requires
            0 < w <= 128,
            0 < h <= 128,
            0 <= mx < 16,
            0 <= my < 16,
            rect_fits(0, w as int, w as int, h as int, old(tmp).len() as int),
            self.0 is Bilinear ==> bilin_window(src.len() as int, src_off as int, src_stride as int, w as int, h as int,
                mx != 0, my != 0),
            self.0 matches McKernel::EightTap(th, tv) ==> {
                &&& mc_window(src.len() as int, src_off as int, src_stride as int, w as int, h as int, mx != 0, my != 0)
                &&& prep_8tap_fits(src@, src_off as int, src_stride as int, spec_filter_taps(*filters, mx as int,
                    w as int, th), spec_filter_taps(*filters, my as int, h as int, tv), bd, w as int, h as int)
            },
        ensures
            rect_written(final(tmp)@, old(tmp)@, 0, w as int, w as int, h as int, 0,
                |y: int, x: int|
                    match self.0 {
                        McKernel::EightTap(th, tv) => spec_prep_8tap_px(src@, src_off as int, src_stride as int,
                            spec_filter_taps(*filters, mx as int, w as int, th), spec_filter_taps(*filters, my as int,
                            h as int, tv), bd, y, x),
                        McKernel::Bilinear => spec_prep_bilin_px(src@, src_off as int, src_stride as int, mx as int,
                            my as int, bd, y, x),
                    }),
    {
        match self.0 {
            McKernel::EightTap(th, tv) => prep_8tap_rust(tmp, src, src_off, src_stride, w as usize, h as usize,
                mx as usize, my as usize, (th, tv), filters, bd),
            McKernel::Bilinear => prep_bilin_rust(tmp, src, src_off, src_stride, w as usize, h as usize, mx as usize,
                my as usize, bd),
        }
    }
}

impl MctScaledFn {
    /// Runs the slot's scaled kernel into the intermediate buffer `tmp` (row
    /// stride `w`).
    pub fn call(
        &self,
        tmp: &mut Vec<i16>,
        src: &Vec<u16>,
        src_off: usize,
        src_stride: usize,
        w: i32,
        h: i32,
        mx: i32,
        my: i32,
        dx: i32,
        dy: i32,
        filters: &SubpelFilters,
        bd: BitDepth,
    )
        requires
            0 < w <= 128,
            0 < h <= 128,
            0 <= mx < 1024,
            0 <= my < 1024,
            0 <= dx,
            0 <= dy,
            (w - 1) * dx + mx <= usize::MAX,
            ((h - 1) * dy + my) / 1024 + 8 <= 263,
            rect_fits(0, w as int, w as int, h as int, old(tmp).len() as int),
            self.0 is Bilinear ==> scaled_window(src.len() as int, src_off as int, src_stride as int, w as int,
                h as int, mx as int, my as int, dx as int, dy as int, 0, 2),
            self.0 is EightTap ==> scaled_window(src.len() as int, src_off as int, src_stride as int, w as int,
                h as int, mx as int, my as int, dx as int, dy as int, -3, 5),
        ensures
            rect_written(final(tmp)@, old(tmp)@, 0, w as int, w as int, h as int, 0,
                |y: int, x: int|
                    match self.0 {
                        McKernel::EightTap(th, tv) => spec_prep_8tap_scaled_px(src@, src_off as int, src_stride as int,
                            *filters, mx as int, my as int, dx as int, dy as int, w as int, h as int, (th, tv), bd, y, x),
                        McKernel::Bilinear => spec_prep_bilin_scaled_px(src@, src_off as int, src_stride as int,
                            mx as int, my as int, dx as int, dy as int, bd, y, x),
                    }),
    {
        match self.0 {
            McKernel::EightTap(th, tv) => prep_8tap_scaled_rust(tmp, src, src_off, src_stride, w as usize, h as usize,
                mx as usize, my as usize, dx as usize, dy as usize, (th, tv), filters, bd),
            McKernel::Bilinear => prep_bilin_scaled_rust(tmp, src, src_off, src_stride, w as usize, h as usize,
                mx as usize, my as usize, dx as usize, dy as usize, bd),
        }
    }
}

impl WMaskFn {
    /// Blends the intermediate blocks `tmp1` and `tmp2` (row stride `w`) into
    /// the `w` by `h` block at `dst_off` of `dst` under weights derived from
    /// their difference, storing the weights in `mask` at the slot's chroma
    /// resolution (rounded down where `sign` is 1, up where it is 0).
    pub fn call(
        &self,
        dst: &mut Vec<u16>,
        dst_off: usize,
        dst_stride: usize,
        tmp1: &Vec<i16>,
        tmp2: &Vec<i16>,
        w: i32,
        h: i32,
        mask: &mut Vec<u8>,
        sign: i32,
        bd: BitDepth,
    )
        requires
            w > 0,
            h > 0,
            sign == 0 || sign == 1,
            self.ss_hor ==> w % 2 == 0,
            self.ss_ver ==> h % 2 == 0,
            rect_fits(dst_off as int, dst_stride as int, w as int, h as int, old(dst).len() as int),
            rect_fits(0, w as int, w as int, h as int, tmp1.len() as int),
            rect_fits(0, w as int, w as int, h as int, tmp2.len() as int),
            ({
                let mw: int = if self.ss_hor { w as int / 2 } else { w as int };
                let mh: int = if self.ss_ver { h as int / 2 } else { h as int };
                rect_fits(0, mw, mw, mh, old(mask).len() as int)
            }),
        ensures
            rect_written(final(dst)@, old(dst)@, dst_off as int, dst_stride as int, w as int, h as int, 0,
                |y: int, x: int|
                    spec_mask_px(bd, tmp1@[y * w + x] as int, tmp2@[y * w + x] as int, spec_w_mask_at(bd, tmp1@, tmp2@,
                        w as int, y, x))),
            ({
                let mw: int = if self.ss_hor { w as int / 2 } else { w as int };
                let mh: int = if self.ss_ver { h as int / 2 } else { h as int };
                rect_written(final(mask)@, old(mask)@, 0, mw, mw, mh, 0,
                    |y: int, x: int| spec_w_mask_out(bd, tmp1@, tmp2@, w as int, sign != 0, self.ss_hor, self.ss_ver, y, x))
            }),
    {
        w_mask_rust(dst, dst_off, dst_stride, tmp1, tmp2, w as usize, h as usize, mask, sign != 0, self.ss_hor, self.ss_ver,
            bd)
    }
}

/// The slot of averaging.
#[derive(Clone, Copy, PartialEq, Eq, Debug)]
pub struct AvgFn;

/// The slot of weighted averaging.
#[derive(Clone, Copy, PartialEq, Eq, Debug)]
pub struct WAvgFn;

/// The slot of masked blending of two predictions.
#[derive(Clone, Copy, PartialEq, Eq, Debug)]
pub struct MaskFn;

/// The slot of masked blending into the picture.
#[derive(Clone, Copy, PartialEq, Eq, Debug)]
pub struct BlendFn;

/// A slot of overlapped blending: along a vertical edge (the block's left
/// columns) or a horizontal one (its top rows).
#[derive(Clone, Copy, PartialEq, Eq, Debug)]
pub struct BlendDirFn {
    pub vertical: bool,
}

/// The slot of the 8 by 8 warp into pixels.
#[derive(Clone, Copy, PartialEq, Eq, Debug)]
pub struct Warp8x8Fn;

/// The slot of the 8 by 8 warp into the intermediate buffer.
#[derive(Clone, Copy, PartialEq, Eq, Debug)]
pub struct Warp8x8tFn;

/// The slot of edge emulation.
#[derive(Clone, Copy, PartialEq, Eq, Debug)]
pub struct EmuEdgeFn;

/// The slot of row resampling.
#[derive(Clone, Copy, PartialEq, Eq, Debug)]
pub struct ResizeFn;

impl AvgFn {
    /// Averages `tmp1` and `tmp2` into the `w` by `h` block at `dst_off`.
    pub fn call(&self, dst: &mut Vec<u16>, dst_off: usize, dst_stride: usize, tmp1: &Vec<i16>, tmp2: &Vec<i16>, w: i32, h: i32, bd: BitDepth)
        requires
            w > 0,
            h >= 0,
            rect_fits(dst_off as int, dst_stride as int, w as int, h as int, old(dst).len() as int),
            rect_fits(0, w as int, w as int, h as int, tmp1.len() as int),
            rect_fits(0, w as int, w as int, h as int, tmp2.len() as int),
        ensures
            rect_written(final(dst)@, old(dst)@, dst_off as int, dst_stride as int, w as int, h as int, 0,
                |y: int, x: int| spec_avg_px(bd, tmp1@[y * w + x] as int, tmp2@[y * w + x] as int)),
    {
        avg_rust(dst, dst_off, dst_stride, tmp1, tmp2, w as usize, h as usize, bd)
    }
}

impl WAvgFn {
    /// Blends `tmp1` and `tmp2` into the block, `weight` sixteenths of the first.
    pub fn call(
        &self,
        dst: &mut Vec<u16>,
        dst_off: usize,
        dst_stride: usize,
        tmp1: &Vec<i16>,
        tmp2: &Vec<i16>,
        w: i32,
        h: i32,
        weight: i32,
        bd: BitDepth,
    )
        requires
            w > 0,
            h >= 0,
            0 <= weight <= 16,
            rect_fits(dst_off as int, dst_stride as int, w as int, h as int, old(dst).len() as int),
            rect_fits(0, w as int, w as int, h as int, tmp1.len() as int),
            rect_fits(0, w as int, w as int, h as int, tmp2.len() as int),
        ensures
            rect_written(final(dst)@, old(dst)@, dst_off as int, dst_stride as int, w as int, h as int, 0,
                |y: int, x: int| spec_w_avg_px(bd, tmp1@[y * w + x] as int, tmp2@[y * w + x] as int, weight as int)),
    {
        w_avg_rust(dst, dst_off, dst_stride, tmp1, tmp2, w as usize, h as usize, weight, bd)
    }
}

impl MaskFn {
    /// Blends `tmp1` and `tmp2` into the block under `mask` (64ths of the first).
    pub fn call(
        &self,
        dst: &mut Vec<u16>,
        dst_off: usize,
        dst_stride: usize,
        tmp1: &Vec<i16>,
        tmp2: &Vec<i16>,
        w: i32,
        h: i32,
        mask: &Vec<u8>,
        bd: BitDepth,
    )
        requires
            w > 0,
            h >= 0,
            rect_fits(dst_off as int, dst_stride as int, w as int, h as int, old(dst).len() as int),
            rect_fits(0, w as int, w as int, h as int, tmp1.len() as int),
            rect_fits(0, w as int, w as int, h as int, tmp2.len() as int),
            rect_fits(0, w as int, w as int, h as int, mask.len() as int),
        ensures
            rect_written(final(dst)@, old(dst)@, dst_off as int, dst_stride as int, w as int, h as int, 0,
                |y: int, x: int|
                    spec_mask_px(bd, tmp1@[y * w + x] as int, tmp2@[y * w + x] as int, mask@[y * w + x] as int)),
    {
        mask_rust(dst, dst_off, dst_stride, tmp1, tmp2, w as usize, h as usize, mask, bd)
    }
}

impl BlendFn {
    /// Blends the pixel block `tmp` into the block under `mask` (64ths of `tmp`).
    pub fn call(&self, dst: &mut Vec<u16>, dst_off: usize, dst_stride: usize, tmp: &Vec<u16>, w: i32, h: i32, mask: &Vec<u8>)
        requires
            w > 0,
            h >= 0,
            rect_fits(dst_off as int, dst_stride as int, w as int, h as int, old(dst).len() as int),
            rect_fits(0, w as int, w as int, h as int, tmp.len() as int),
            rect_fits(0, w as int, w as int, h as int, mask.len() as int),
            forall|y: int, x: int| 0 <= y < h && 0 <= x < w ==> #[trigger] mask@[y * w + x] <= 64,
        ensures
            rect_written(final(dst)@, old(dst)@, dst_off as int, dst_stride as int, w as int, h as int, 0,
                |y: int, x: int|
                    spec_blend_px(old(dst)@[dst_off + y * dst_stride + x] as int, tmp@[y * w + x] as int,
                        mask@[y * w + x] as int) as u16),
    {
        blend_rust(dst, dst_off, dst_stride, tmp, w as usize, h as usize, mask)
    }
}

impl BlendDirFn {
    /// Overlapped blending of `tmp` (row stride `w`) into the `w` by `h` block
    /// at `dst_off`, along the slot's edge.
    pub fn call(&self, dst: &mut Vec<u16>, dst_off: usize, dst_stride: usize, tmp: &Vec<u16>, w: i32, h: i32)
        requires
            w > 0,
            h >= 0,
            self.vertical ==> {
                &&& w + w * 3 / 4 <= 64
                &&& rect_fits(dst_off as int, dst_stride as int, w * 3 / 4, h as int, old(dst).len() as int)
                &&& rect_fits(0, w as int, w * 3 / 4, h as int, tmp.len() as int)
            },
            !self.vertical ==> {
                &&& h + h * 3 / 4 <= 64
                &&& rect_fits(dst_off as int, dst_stride as int, w as int, h * 3 / 4, old(dst).len() as int)
                &&& rect_fits(0, w as int, w as int, h * 3 / 4, tmp.len() as int)
            },
        ensures
            self.vertical ==> rect_written(final(dst)@, old(dst)@, dst_off as int, dst_stride as int, w * 3 / 4,
                h as int, 0,
                |y: int, x: int|
                    spec_blend_px(old(dst)@[dst_off + y * dst_stride + x] as int, tmp@[y * w + x] as int,
                        OBMC_MASKS[w + x] as int) as u16),
            !self.vertical ==> rect_written(final(dst)@, old(dst)@, dst_off as int, dst_stride as int, w as int,
                h * 3 / 4, 0,
                |y: int, x: int|
                    spec_blend_px(old(dst)@[dst_off + y * dst_stride + x] as int, tmp@[y * w + x] as int,
                        OBMC_MASKS[h + y] as int) as u16),
    {
        if self.vertical {
            blend_v_rust(dst, dst_off, dst_stride, tmp, w as usize, h as usize)
        } else {
            blend_h_rust(dst, dst_off, dst_stride, tmp, w as usize, h as usize)
        }
    }
}

impl Warp8x8Fn {
    /// Warps the 8 by 8 block at `src_off` into `dst` (see `warp_affine_8x8_rust`).
    pub fn call(
        &self,
        dst: &mut Vec<u16>,
        dst_off: usize,
        dst_stride: usize,
        src: &Vec<u16>,
        src_off: usize,
        src_stride: usize,
        abcd: &[i16; 4],
        mx: i32,
        my: i32,
        filters: &WarpFilters,
        bd: BitDepth,
    )
        requires
            rect_fits(dst_off as int, dst_stride as int, 8, 8, old(dst).len() as int),
            window_fits(src.len() as int, src_off as int, src_stride as int, -3, 12, -3, 12),
            warp_grid_ok(mx as int, abcd[1] as int, abcd[0] as int, 15),
            warp_grid_ok(my as int, abcd[3] as int, abcd[2] as int, 8),
        ensures
            rect_written(final(dst)@, old(dst)@, dst_off as int, dst_stride as int, 8, 8, 0,
                |y: int, x: int|
                    bd.spec_iclip_pixel(spec_warp_v(src@, src_off as int, src_stride as int, *filters, *abcd, mx as int,
                        my as int, bd.spec_intermediate_bits(), y, x, (7 + bd.spec_intermediate_bits()) as nat))),
    {
        warp_affine_8x8_rust(dst, dst_off, dst_stride, src, src_off, src_stride, abcd, mx, my, filters, bd)
    }
}

impl Warp8x8tFn {
    /// Warps the 8 by 8 block at `src_off` into `tmp` (see `warp_affine_8x8t_rust`).
    pub fn call(
        &self,
        tmp: &mut Vec<i16>,
        tmp_stride: usize,
        src: &Vec<u16>,
        src_off: usize,
        src_stride: usize,
        abcd: &[i16; 4],
        mx: i32,
        my: i32,
        filters: &WarpFilters,
        bd: BitDepth,
    )
        requires
            rect_fits(0, tmp_stride as int, 8, 8, old(tmp).len() as int),
            window_fits(src.len() as int, src_off as int, src_stride as int, -3, 12, -3, 12),
            warp_grid_ok(mx as int, abcd[1] as int, abcd[0] as int, 15),
            warp_grid_ok(my as int, abcd[3] as int, abcd[2] as int, 8),
        ensures
            rect_written(final(tmp)@, old(tmp)@, 0, tmp_stride as int, 8, 8, 0,
                |y: int, x: int|
                    (spec_warp_v(src@, src_off as int, src_stride as int, *filters, *abcd, mx as int, my as int,
                        bd.spec_intermediate_bits(), y, x, 7) - bd.spec_prep_bias()) as i16),
    {
        warp_affine_8x8t_rust(tmp, tmp_stride, src, src_off, src_stride, abcd, mx, my, filters, bd)
    }
}

impl EmuEdgeFn {
    /// Builds the edge-emulated block (see `emu_edge_rust`).
    pub fn call(
        &self,
        bw: isize,
        bh: isize,
        iw: isize,
        ih: isize,
        x: isize,
        y: isize,
        dst: &mut Vec<u16>,
        dst_stride: usize,
        refp: &Vec<u16>,
        ref_off: usize,
        ref_stride: usize,
    )
        requires
            bw >= 1,
            bh >= 1,
            iw >= 1,
            ih >= 1,
            x > isize::MIN,
            y > isize::MIN,
            x + bw <= isize::MAX,
            y + bh <= isize::MAX,
            isize::MIN <= x + bw - iw,
            isize::MIN <= y + bh - ih,
            spec_ext_before(x as int, bw as int) + spec_ext_after(x as int, bw as int, iw as int) < bw,
            spec_ext_before(y as int, bh as int) + spec_ext_after(y as int, bh as int, ih as int) < bh,
            rect_fits(0, dst_stride as int, bw as int, bh as int, old(dst).len() as int),
            rect_fits(ref_off as int, ref_stride as int, iw as int, ih as int, refp.len() as int),
        ensures
            rect_written(final(dst)@, old(dst)@, 0, dst_stride as int, bw as int, bh as int, 0,
                |r: int, c: int| spec_edge_px(refp@, ref_off as int, ref_stride as int, iw as int, ih as int, y + r, x + c)),
    {
        emu_edge_rust(bw, bh, iw, ih, x, y, dst, dst_stride, refp, ref_off, ref_stride)
    }
}

impl ResizeFn {
    /// Resamples rows (see `resize_rust`).
    pub fn call(
        &self,
        dst: &mut Vec<u16>,
        dst_off: usize,
        dst_stride: usize,
        src: &Vec<u16>,
        src_off: usize,
        src_stride: usize,
        dst_w: i32,
        h: i32,
        src_w: i32,
        dx: i32,
        mx0: i32,
        filters: &ResizeFilters,
        bd: BitDepth,
    )
        requires
            dst_w >= 0,
            h >= 0,
            src_w >= 1,
            0 <= mx0 < 16384,
            dst_w > 0 ==> dx <= i32::MAX - 16383,
            -0x7fff_0000 <= (mx0 + dst_w * dx) / 16384 <= 0x7fff_0000,
            rect_fits(dst_off as int, dst_stride as int, dst_w as int, h as int, old(dst).len() as int),
            h > 0 ==> window_fits(src.len() as int, src_off as int, src_stride as int, 0, h as int, 0, src_w as int),
        ensures
            rect_written(final(dst)@, old(dst)@, dst_off as int, dst_stride as int, dst_w as int, h as int, 0,
                |y: int, x: int|
                    spec_resize_px(src@, src_off as int, src_stride as int, src_w as int, dx as int, mx0 as int, *filters,
                        bd, y, x)),
    {
        resize_rust(dst, dst_off, dst_stride, src, src_off, src_stride, dst_w, h, src_w, dx, mx0, filters, bd)
    }
}

/// The motion compensation table: an interpolation slot of each kind for each
/// filter combination (indexed by `Filter2d::spec_index`), a mask-deriving
/// blend for each chroma layout (indexed by
/// `Rav1dPixelLayoutSubSampled::spec_index`), and one slot for each other kernel.
pub struct Rav1dMCDSPContext {
    pub mc: [McFn; 10],
    pub mc_scaled: [McScaledFn; 10],
    pub mct: [MctFn; 10],
    pub mct_scaled: [MctScaledFn; 10],
    pub avg: AvgFn,
    pub w_avg: WAvgFn,
    pub mask: MaskFn,
    pub w_mask: [WMaskFn; 3],
    pub blend: BlendFn,
    pub blend_v: BlendDirFn,
    pub blend_h: BlendDirFn,
    pub warp8x8: Warp8x8Fn,
    pub warp8x8t: Warp8x8tFn,
    pub emu_edge: EmuEdgeFn,
    pub resize: ResizeFn,
}

/// `c` holds the portable kernels: for each filter combination its 8-tap or
/// bilinear kernel in every kind of slot, and the subsampling of each layout.
pub open spec fn is_portable_context(c: Rav1dMCDSPContext) -> bool {
    &&& forall|f: Filter2d| #[trigger] c.mc[f.spec_index()] == McFn(spec_kernel_of(f))
    &&& forall|f: Filter2d| #[trigger] c.mc_scaled[f.spec_index()] == McScaledFn(spec_kernel_of(f))
    &&& forall|f: Filter2d| #[trigger] c.mct[f.spec_index()] == MctFn(spec_kernel_of(f))
    &&& forall|f: Filter2d| #[trigger] c.mct_scaled[f.spec_index()] == MctScaledFn(spec_kernel_of(f))
    &&& c.w_mask[0] == WMaskFn { ss_hor: true, ss_ver: true }
    &&& c.w_mask[1] == WMaskFn { ss_hor: true, ss_ver: false }
    &&& c.w_mask[2] == WMaskFn { ss_hor: false, ss_ver: false }
    &&& c.blend_v == BlendDirFn { vertical: true }
    &&& c.blend_h == BlendDirFn { vertical: false }
}

/// The two filter types that a filter combination names, in the order of its
/// name (`SmoothSharp8Tap` names smooth, then sharp); bilinear names none.
pub open spec fn named_filter_types(f: Filter2d) -> Option<(Rav1dFilterMode, Rav1dFilterMode)> {
    match f {
        Filter2d::Regular8Tap => Some((Rav1dFilterMode::Regular8Tap, Rav1dFilterMode::Regular8Tap)),
        Filter2d::RegularSmooth8Tap => Some((Rav1dFilterMode::Regular8Tap, Rav1dFilterMode::Smooth8Tap)),
        Filter2d::RegularSharp8Tap => Some((Rav1dFilterMode::Regular8Tap, Rav1dFilterMode::Sharp8Tap)),
        Filter2d::SharpRegular8Tap => Some((Rav1dFilterMode::Sharp8Tap, Rav1dFilterMode::Regular8Tap)),
        Filter2d::SharpSmooth8Tap => Some((Rav1dFilterMode::Sharp8Tap, Rav1dFilterMode::Smooth8Tap)),
        Filter2d::Sharp8Tap => Some((Rav1dFilterMode::Sharp8Tap, Rav1dFilterMode::Sharp8Tap)),
        Filter2d::SmoothRegular8Tap => Some((Rav1dFilterMode::Smooth8Tap, Rav1dFilterMode::Regular8Tap)),
        Filter2d::Smooth8Tap => Some((Rav1dFilterMode::Smooth8Tap, Rav1dFilterMode::Smooth8Tap)),
        Filter2d::SmoothSharp8Tap => Some((Rav1dFilterMode::Smooth8Tap, Rav1dFilterMode::Sharp8Tap)),
        Filter2d::Bilinear => None,
    }
}

/// The table position of a filter combination: the combinations come grouped
/// by their first filter type (regular, sharp, smooth), three to a group,
/// ordered within a group by their second filter type (regular, smooth,
/// sharp); bilinear comes last.
pub proof fn lemma_filter2d_index_by_names(f: Filter2d)
    ensures
        named_filter_types(f) matches Some((h, v)) ==> {
            &&& h != Rav1dFilterMode::Bilinear
            &&& v != Rav1dFilterMode::Bilinear
            &&& f.spec_index() == 3 * ((3 - h.spec_index()) % 3) + v.spec_index()
        },
        named_filter_types(f) is None ==> f.spec_index() == 9,
{
}

/// In every kind of slot of the portable table, a filter combination's kernel
/// filters horizontally with the first filter type that the combination
/// names and vertically with the second; the bilinear combination gets the
/// bilinear kernel.
pub proof fn lemma_table_kernels_follow_names(c: Rav1dMCDSPContext, f: Filter2d)
    requires
        is_portable_context(c),
    ensures
        named_filter_types(f) matches Some((h, v)) ==> {
            &&& c.mc[f.spec_index()] == McFn(McKernel::EightTap(h, v))
            &&& c.mc_scaled[f.spec_index()] == McScaledFn(McKernel::EightTap(h, v))
            &&& c.mct[f.spec_index()] == MctFn(McKernel::EightTap(h, v))
            &&& c.mct_scaled[f.spec_index()] == MctScaledFn(McKernel::EightTap(h, v))
        },
        named_filter_types(f) is None ==> {
            &&& c.mc[f.spec_index()] == McFn(McKernel::Bilinear)
            &&& c.mc_scaled[f.spec_index()] == McScaledFn(McKernel::Bilinear)
            &&& c.mct[f.spec_index()] == MctFn(McKernel::Bilinear)
            &&& c.mct_scaled[f.spec_index()] == MctScaledFn(McKernel::Bilinear)
        },
{
    assert(c.mc[f.spec_index()] == McFn(spec_kernel_of(f)));
    assert(c.mc_scaled[f.spec_index()] == McScaledFn(spec_kernel_of(f)));
    assert(c.mct[f.spec_index()] == MctFn(spec_kernel_of(f)));
    assert(c.mct_scaled[f.spec_index()] == MctScaledFn(spec_kernel_of(f)));
}

/// The filter combination at index `i` of the tables.
fn filter_at(i: usize) -> (f: Filter2d)
    requires
        i < 10,
    ensures
        f.spec_index() == i,
{
    match i {
        0 => Filter2d::Regular8Tap,
        1 => Filter2d::RegularSmooth8Tap,
        2 => Filter2d::RegularSharp8Tap,
        3 => Filter2d::SharpRegular8Tap,
        4 => Filter2d::SharpSmooth8Tap,
        5 => Filter2d::Sharp8Tap,
        6 => Filter2d::SmoothRegular8Tap,
        7 => Filter2d::Smooth8Tap,
        8 => Filter2d::SmoothSharp8Tap,
        _ => Filter2d::Bilinear,
    }
}

impl Rav1dMCDSPContext {
    /// The table of the portable kernels.
    pub fn default() -> (c: Rav1dMCDSPContext)
        ensures
            is_portable_context(c),
    {
        let mut mc = [McFn(McKernel::Bilinear); 10];
        let mut mc_scaled = [McScaledFn(McKernel::Bilinear); 10];
        let mut mct = [MctFn(McKernel::Bilinear); 10];
        let mut mct_scaled = [MctScaledFn(McKernel::Bilinear); 10];
        let mut i: usize = 0;
        while i < 10
            invariant
                0 <= i <= 10,
                forall|f: Filter2d| f.spec_index() < i ==> #[trigger] mc[f.spec_index()] == McFn(spec_kernel_of(f)),
                forall|f: Filter2d| f.spec_index() < i ==> #[trigger] mc_scaled[f.spec_index()] == McScaledFn(spec_kernel_of(f)),
                forall|f: Filter2d| f.spec_index() < i ==> #[trigger] mct[f.spec_index()] == MctFn(spec_kernel_of(f)),
                forall|f: Filter2d| f.spec_index() < i ==> #[trigger] mct_scaled[f.spec_index()] == MctScaledFn(spec_kernel_of(f)),
            decreases 10 - i,
        {
            let f = filter_at(i);
            let k = kernel_of(f);
            mc[i] = McFn(k);
            mc_scaled[i] = McScaledFn(k);
            mct[i] = MctFn(k);
            mct_scaled[i] = MctScaledFn(k);
            proof {
                assert forall|g: Filter2d| g.spec_index() == i implies g == f by {
                }
            }
            i += 1;
        }
        Rav1dMCDSPContext {
            mc,
            mc_scaled,
            mct,
            mct_scaled,
            avg: AvgFn,
            w_avg: WAvgFn,
            mask: MaskFn,
            blend: BlendFn,
            blend_v: BlendDirFn { vertical: true },
            blend_h: BlendDirFn { vertical: false },
            warp8x8: Warp8x8Fn,
            warp8x8t: Warp8x8tFn,
            emu_edge: EmuEdgeFn,
            resize: ResizeFn,
            w_mask: [
                WMaskFn { ss_hor: true, ss_ver: true },
                WMaskFn { ss_hor: true, ss_ver: false },
                WMaskFn { ss_hor: false, ss_ver: false },
            ],
        }
    }

    /// The table for a processor with the given features. Only the portable
    /// kernels exist here, so the features choose nothing.
    pub fn new(flags: u32) -> (c: Rav1dMCDSPContext)
        ensures
            is_portable_context(c),
    {
        Self::default()
    }
}

} // verus!

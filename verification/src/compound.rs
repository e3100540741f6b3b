//! Compound prediction: averaging, weighting and masking two intermediate
//! blocks into pixels, and blending a block into a picture under a mask.
use vstd::prelude::*;
use vstd::arithmetic::power2::{pow2, lemma2_to64};
use crate::bitdepth::BitDepth;
use crate::intops::{spec_asr, spec_min, asr, pow2_i32};
use crate::mc::spec_prep_px;
use crate::plane::{rect_fits, rect_written, lemma_rect_index, write_block, update_block};
use crate::tables::{OBMC_MASKS, lemma_obmc_masks_bound};

verus! {

/// The average of two intermediate values, rounded, back at pixel precision.
pub open spec fn spec_avg_px(bd: BitDepth, a: int, b: int) -> u16 {
    let ib = bd.spec_intermediate_bits();
    bd.spec_iclip_pixel(spec_asr(a + b + pow2(ib as nat) + 2 * bd.spec_prep_bias(), (ib + 1) as nat))
}

/// The weighted average of two intermediate values, `weight` sixteenths of
/// the first, back at pixel precision.
pub open spec fn spec_w_avg_px(bd: BitDepth, a: int, b: int, weight: int) -> u16 {
    let ib = bd.spec_intermediate_bits();
    bd.spec_iclip_pixel(
        spec_asr(a * weight + b * (16 - weight) + 8 * pow2(ib as nat) + 16 * bd.spec_prep_bias(), (ib + 4) as nat),
    )
}

/// The masked blend of two intermediate values, `m` 64ths of the first, back
/// at pixel precision.
pub open spec fn spec_mask_px(bd: BitDepth, a: int, b: int, m: int) -> u16 {
    let ib = bd.spec_intermediate_bits();
    bd.spec_iclip_pixel(
        spec_asr(a * m + b * (64 - m) + 32 * pow2(ib as nat) + 64 * bd.spec_prep_bias(), (ib + 6) as nat),
    )
}

/// Averages the intermediate blocks `tmp1` and `tmp2` (row stride `w`) into
/// the `w` by `h` block at `dst_off` of `dst`.
pub fn avg_rust(
    dst: &mut Vec<u16>,
    dst_off: usize,
    dst_stride: usize,
    tmp1: &Vec<i16>,
    tmp2: &Vec<i16>,
    w: usize,
    h: usize,
    bd: BitDepth,
)
    requires
        w > 0,
        rect_fits(dst_off as int, dst_stride as int, w as int, h as int, old(dst).len() as int),
        rect_fits(0, w as int, w as int, h as int, tmp1.len() as int),
        rect_fits(0, w as int, w as int, h as int, tmp2.len() as int),
    ensures
        rect_written(final(dst)@, old(dst)@, dst_off as int, dst_stride as int, w as int, h as int, 0,
            |y: int, x: int| spec_avg_px(bd, tmp1@[y * w + x] as int, tmp2@[y * w + x] as int)),
{
    let ib = bd.get_intermediate_bits();
    let sh = ib + 1;
    proof {
        lemma2_to64();
    }
    let rnd = pow2_i32(ib) + bd.prep_bias() * 2;
    let ghost g = |y: int, x: int| spec_avg_px(bd, tmp1@[y * w + x] as int, tmp2@[y * w + x] as int);
    let f = |y: usize, x: usize| -> (v: u16)
        requires
            y < h && x < w,
        ensures
            v == spec_avg_px(bd, tmp1@[y * w + x] as int, tmp2@[y * w + x] as int),
        {
            proof {
                lemma_rect_index(0, w as int, w as int, h as int, tmp1.len() as int, y as int, x as int);
                lemma_rect_index(0, w as int, w as int, h as int, tmp2.len() as int, y as int, x as int);
            }
            let i = y * w + x;
            bd.iclip_pixel(asr(tmp1[i] as i32 + tmp2[i] as i32 + rnd, sh))
        };
    write_block(dst, dst_off, dst_stride, w, h, f, Ghost(g));
}

/// Blends the intermediate blocks `tmp1` and `tmp2` (row stride `w`) into the
/// `w` by `h` block at `dst_off` of `dst`, `weight` sixteenths of the first.
pub fn w_avg_rust(
    dst: &mut Vec<u16>,
    dst_off: usize,
    dst_stride: usize,
    tmp1: &Vec<i16>,
    tmp2: &Vec<i16>,
    w: usize,
    h: usize,
    weight: i32,
    bd: BitDepth,
)
    requires
        w > 0,
        0 <= weight <= 16,
        rect_fits(dst_off as int, dst_stride as int, w as int, h as int, old(dst).len() as int),
        rect_fits(0, w as int, w as int, h as int, tmp1.len() as int),
        rect_fits(0, w as int, w as int, h as int, tmp2.len() as int),
    ensures
        rect_written(final(dst)@, old(dst)@, dst_off as int, dst_stride as int, w as int, h as int, 0,
            |y: int, x: int| spec_w_avg_px(bd, tmp1@[y * w + x] as int, tmp2@[y * w + x] as int, weight as int)),
{
    let ib = bd.get_intermediate_bits();
    let sh = ib + 4;
    proof {
        lemma2_to64();
    }
    let rnd = 8 * pow2_i32(ib) + bd.prep_bias() * 16;
    let ghost g = |y: int, x: int| spec_w_avg_px(bd, tmp1@[y * w + x] as int, tmp2@[y * w + x] as int, weight as int);
    let f = |y: usize, x: usize| -> (v: u16)
        requires
            y < h && x < w,
        ensures
            v == spec_w_avg_px(bd, tmp1@[y * w + x] as int, tmp2@[y * w + x] as int, weight as int),
        {
            proof {
                lemma_rect_index(0, w as int, w as int, h as int, tmp1.len() as int, y as int, x as int);
                lemma_rect_index(0, w as int, w as int, h as int, tmp2.len() as int, y as int, x as int);
            }
            let i = y * w + x;
            let a = tmp1[i] as i32;
            let b = tmp2[i] as i32;
            assert(-32768 * 16 <= a * weight <= 32767 * 16) by (nonlinear_arith)
                requires
                    -32768 <= a <= 32767,
                    0 <= weight <= 16,
            ;
            assert(-32768 * 16 <= b * (16 - weight) <= 32767 * 16) by (nonlinear_arith)
                requires
                    -32768 <= b <= 32767,
                    0 <= weight <= 16,
            ;
            bd.iclip_pixel(asr(a * weight + b * (16 - weight) + rnd, sh))
        };
    write_block(dst, dst_off, dst_stride, w, h, f, Ghost(g));
}

/// Blends the intermediate blocks `tmp1` and `tmp2` (row stride `w`) into the
/// `w` by `h` block at `dst_off` of `dst` under `mask` (64ths of the first,
/// row stride `w`).
pub fn mask_rust(
    dst: &mut Vec<u16>,
    dst_off: usize,
    dst_stride: usize,
    tmp1: &Vec<i16>,
    tmp2: &Vec<i16>,
    w: usize,
    h: usize,
    mask: &Vec<u8>,
    bd: BitDepth,
)
    requires
        w > 0,
        rect_fits(dst_off as int, dst_stride as int, w as int, h as int, old(dst).len() as int),
        rect_fits(0, w as int, w as int, h as int, tmp1.len() as int),
        rect_fits(0, w as int, w as int, h as int, tmp2.len() as int),
        rect_fits(0, w as int, w as int, h as int, mask.len() as int),
    ensures
        rect_written(final(dst)@, old(dst)@, dst_off as int, dst_stride as int, w as int, h as int, 0,
            |y: int, x: int| spec_mask_px(bd, tmp1@[y * w + x] as int, tmp2@[y * w + x] as int, mask@[y * w + x] as int)),
{
    let ib = bd.get_intermediate_bits();
    let sh = ib + 6;
    proof {
        lemma2_to64();
    }
    let rnd = 32 * pow2_i32(ib) + bd.prep_bias() * 64;
    let ghost g = |y: int, x: int| spec_mask_px(bd, tmp1@[y * w + x] as int, tmp2@[y * w + x] as int, mask@[y * w + x] as int);
    let f = |y: usize, x: usize| -> (v: u16)
        requires
            y < h && x < w,
        ensures
            v == spec_mask_px(bd, tmp1@[y * w + x] as int, tmp2@[y * w + x] as int, mask@[y * w + x] as int),
        {
            proof {
                lemma_rect_index(0, w as int, w as int, h as int, tmp1.len() as int, y as int, x as int);
                lemma_rect_index(0, w as int, w as int, h as int, tmp2.len() as int, y as int, x as int);
                lemma_rect_index(0, w as int, w as int, h as int, mask.len() as int, y as int, x as int);
            }
            let i = y * w + x;
            mask_px(bd, tmp1[i], tmp2[i], mask[i] as i32, rnd, sh)
        };
    write_block(dst, dst_off, dst_stride, w, h, f, Ghost(g));
}

/// One pixel of a masked blend, with the rounding constant and shift of the
/// bit depth.
fn mask_px(bd: BitDepth, a: i16, b: i16, m: i32, rnd: i32, sh: u32) -> (r: u16)
    requires
        0 <= m <= 255,
        sh == bd.spec_intermediate_bits() + 6,
        rnd == 32 * pow2(bd.spec_intermediate_bits() as nat) + 64 * bd.spec_prep_bias(),
    ensures
        r == spec_mask_px(bd, a as int, b as int, m as int),
{
    let a = a as i32;
    let b = b as i32;
    assert(-32768 * 255 <= a * m <= 32767 * 255) by (nonlinear_arith)
        requires
            -32768 <= a <= 32767,
            0 <= m <= 255,
    ;
    assert(-32768 * 191 <= b * (64 - m) <= 32768 * 191) by (nonlinear_arith)
        requires
            -32768 <= b <= 32767,
            0 <= m <= 255,
    ;
    proof {
        lemma2_to64();
    }
    bd.iclip_pixel(asr(a * m + b * (64 - m) + rnd, sh))
}

/// The blend of pixels `a` and `b`, `m` 64ths of `b`, rounded.
pub open spec fn spec_blend_px(a: int, b: int, m: int) -> int {
    (a * (64 - m) + b * m + 32) / 64
}

/// Blends pixel `b` into pixel `a` with weight `m` (64ths).
pub fn blend_px(a: u16, b: u16, m: u8) -> (r: u16)
    requires
        m <= 64,
    ensures
        r == spec_blend_px(a as int, b as int, m as int),
{
    let m = m as u32;
    let a = a as u32;
    let b = b as u32;
    assert(a * (64 - m) + b * m <= 65535 * 64) by (nonlinear_arith)
        requires
            a <= 65535,
            b <= 65535,
            m <= 64,
    ;
    assert(a * (64 - m) + b * m >= 0) by (nonlinear_arith)
        requires
            m <= 64,
    ;
    let s = a * (64 - m) + b * m + 32;
    assert(s >> 6 == s / 64) by (bit_vector);
    (s >> 6) as u16
}

/// Blends the `w` by `h` pixel block `tmp` (row stride `w`) into the block at
/// `dst_off` of `dst` under `mask` (64ths of `tmp`, row stride `w`).
pub fn blend_rust(
    dst: &mut Vec<u16>,
    dst_off: usize,
    dst_stride: usize,
    tmp: &Vec<u16>,
    w: usize,
    h: usize,
    mask: &Vec<u8>,
)
    requires
        w > 0,
        rect_fits(dst_off as int, dst_stride as int, w as int, h as int, old(dst).len() as int),
        rect_fits(0, w as int, w as int, h as int, tmp.len() as int),
        rect_fits(0, w as int, w as int, h as int, mask.len() as int),
        forall|y: int, x: int| 0 <= y < h && 0 <= x < w ==> #[trigger] mask@[y * w + x] <= 64,
    ensures
        rect_written(final(dst)@, old(dst)@, dst_off as int, dst_stride as int, w as int, h as int, 0,
            |y: int, x: int|
                spec_blend_px(old(dst)@[dst_off + y * dst_stride + x] as int, tmp@[y * w + x] as int, mask@[y * w + x] as int) as u16),
{
    let ghost g = |y: int, x: int, v: u16| spec_blend_px(v as int, tmp@[y * w + x] as int, mask@[y * w + x] as int) as u16;
    let f = |y: usize, x: usize, v: u16| -> (r: u16)
        requires
            y < h && x < w,
        ensures
            r == spec_blend_px(v as int, tmp@[y * w + x] as int, mask@[y * w + x] as int) as u16,
        {
            proof {
                lemma_rect_index(0, w as int, w as int, h as int, tmp.len() as int, y as int, x as int);
                lemma_rect_index(0, w as int, w as int, h as int, mask.len() as int, y as int, x as int);
            }
            let i = y * w + x;
            assert(mask@[y * w + x] <= 64);
            blend_px(v, tmp[i], mask[i])
        };
    update_block(dst, dst_off, dst_stride, w, h, f, Ghost(g));
}

/// Overlapped block motion compensation along a vertical edge: blends the
/// first three quarters of the columns of `tmp` (row stride `w`) into the
/// `w` by `h` block at `dst_off` of `dst`, with the column weights of
/// `OBMC_MASKS` for width `w`.
pub fn blend_v_rust(
    dst: &mut Vec<u16>,
    dst_off: usize,
    dst_stride: usize,
    tmp: &Vec<u16>,
    w: usize,
    h: usize,
)
    requires
        w > 0,
        w + w * 3 / 4 <= 64,
        rect_fits(dst_off as int, dst_stride as int, (w * 3 / 4) as int, h as int, old(dst).len() as int),
        rect_fits(0, w as int, (w * 3 / 4) as int, h as int, tmp.len() as int),
    ensures
        rect_written(final(dst)@, old(dst)@, dst_off as int, dst_stride as int, (w * 3 / 4) as int, h as int, 0,
            |y: int, x: int|
                spec_blend_px(old(dst)@[dst_off + y * dst_stride + x] as int, tmp@[y * w + x] as int, OBMC_MASKS[w + x] as int) as u16),
{
    let w3 = w * 3;
    let w4 = w3 >> 2;
    assert(w4 == w3 / 4) by (bit_vector)
        requires
            w4 == w3 >> 2,
    ;
    let ghost g = |y: int, x: int, v: u16| spec_blend_px(v as int, tmp@[y * w + x] as int, OBMC_MASKS[w + x] as int) as u16;
    let f = |y: usize, x: usize, v: u16| -> (r: u16)
        requires
            y < h && x < w4,
        ensures
            r == spec_blend_px(v as int, tmp@[y * w + x] as int, OBMC_MASKS[w + x] as int) as u16,
        {
            proof {
                lemma_rect_index(0, w as int, w4 as int, h as int, tmp.len() as int, y as int, x as int);
                lemma_obmc_masks_bound();
            }
            assert(OBMC_MASKS[w + x as int] < 32);
            blend_px(v, tmp[y * w + x], OBMC_MASKS[w + x])
        };
    update_block(dst, dst_off, dst_stride, w4, h, f, Ghost(g));
}

/// Overlapped block motion compensation along a horizontal edge: blends the
/// first three quarters of the rows of `tmp` (row stride `w`) into the `w` by
/// `h` block at `dst_off` of `dst`, with the row weights of `OBMC_MASKS` for
/// height `h`.
pub fn blend_h_rust(
    dst: &mut Vec<u16>,
    dst_off: usize,
    dst_stride: usize,
    tmp: &Vec<u16>,
    w: usize,
    h: usize,
)
    requires
        w > 0,
        h + h * 3 / 4 <= 64,
        rect_fits(dst_off as int, dst_stride as int, w as int, (h * 3 / 4) as int, old(dst).len() as int),
        rect_fits(0, w as int, w as int, (h * 3 / 4) as int, tmp.len() as int),
    ensures
        rect_written(final(dst)@, old(dst)@, dst_off as int, dst_stride as int, w as int, (h * 3 / 4) as int, 0,
            |y: int, x: int|
                spec_blend_px(old(dst)@[dst_off + y * dst_stride + x] as int, tmp@[y * w + x] as int, OBMC_MASKS[h + y] as int) as u16),
{
    let h3 = h * 3;
    let h4 = h3 >> 2;
    assert(h4 == h3 / 4) by (bit_vector)
        requires
            h4 == h3 >> 2,
    ;
    let ghost g = |y: int, x: int, v: u16| spec_blend_px(v as int, tmp@[y * w + x] as int, OBMC_MASKS[h + y] as int) as u16;
    let f = |y: usize, x: usize, v: u16| -> (r: u16)
        requires
            y < h4 && x < w,
        ensures
            r == spec_blend_px(v as int, tmp@[y * w + x] as int, OBMC_MASKS[h + y] as int) as u16,
        {
            proof {
                lemma_rect_index(0, w as int, w as int, h4 as int, tmp.len() as int, y as int, x as int);
                lemma_obmc_masks_bound();
            }
            assert(OBMC_MASKS[h + y as int] < 32);
            blend_px(v, tmp[y * w + x], OBMC_MASKS[h + y])
        };
    update_block(dst, dst_off, dst_stride, w, h4, f, Ghost(g));
}

/// The blend weight (64ths of the first) that the difference between two
/// intermediate values gives: 38 plus the difference scaled down to 8 bits,
/// at most 64.
pub open spec fn spec_w_mask_m(bd: BitDepth, a: int, b: int) -> int {
    let sh = bd.spec_bitdepth() + bd.spec_intermediate_bits() - 4;
    let d = if a >= b { a - b } else { b - a };
    spec_min(38 + spec_min(d + pow2((sh - 5) as nat), 65535) / (pow2(sh as nat) as int), 64)
}

/// The weight of `spec_w_mask_m` for entry `(y, x)` of the two blocks.
pub open spec fn spec_w_mask_at(bd: BitDepth, tmp1: Seq<i16>, tmp2: Seq<i16>, w: int, y: int, x: int) -> int {
    spec_w_mask_m(bd, tmp1[y * w + x] as int, tmp2[y * w + x] as int)
}

/// Entry `(y, x)` of the mask that `w_mask_rust` stores, at the chroma
/// resolution: the weights of each 2 by 2 (or 2 by 1) group summed and
/// rounded (down when `sign` is set, otherwise up); without horizontal
/// subsampling, the weight of the last luma row of the group.
pub open spec fn spec_w_mask_out(
    bd: BitDepth,
    tmp1: Seq<i16>,
    tmp2: Seq<i16>,
    w: int,
    sign: bool,
    ss_hor: bool,
    ss_ver: bool,
    y: int,
    x: int,
) -> u8 {
    let s: int = if sign { 1 } else { 0 };
    let m = |r: int, c: int| spec_w_mask_at(bd, tmp1, tmp2, w, r, c);
    (if ss_hor {
        if ss_ver {
            (m(2 * y, 2 * x) + m(2 * y, 2 * x + 1) + m(2 * y + 1, 2 * x) + m(2 * y + 1, 2 * x + 1) + 2 - s) / 4
        } else {
            (m(y, 2 * x) + m(y, 2 * x + 1) + 1 - s) / 2
        }
    } else if ss_ver {
        m(2 * y + 1, x)
    } else {
        m(y, x)
    }) as u8
}

fn w_mask_m(bd: BitDepth, a: i16, b: i16) -> (r: u32)
    ensures
        r == spec_w_mask_m(bd, a as int, b as int),
        38 <= r <= 64,
{
    let sh = bd.bitdepth() + bd.get_intermediate_bits() - 4;
    proof {
        lemma2_to64();
    }
    let rnd = pow2_i32(sh - 5) as u32;
    let scale = pow2_i32(sh) as u32;
    let d: u32 = if a >= b {
        (a as i32 - b as i32) as u32
    } else {
        (b as i32 - a as i32) as u32
    };
    let sat: u32 = if d + rnd > 65535 {
        65535
    } else {
        d + rnd
    };
    let v = 38 + sat / scale;
    if v < 64 {
        v
    } else {
        64
    }
}

/// Blends the intermediate blocks `tmp1` and `tmp2` (row stride `w`) into the
/// `w` by `h` block at `dst_off` of `dst` under weights derived from their
/// difference, and stores those weights in `mask` at the chroma resolution
/// given by `ss_hor` and `ss_ver` (row stride `w >> ss_hor`).
pub fn w_mask_rust(
    dst: &mut Vec<u16>,
    dst_off: usize,
    dst_stride: usize,
    tmp1: &Vec<i16>,
    tmp2: &Vec<i16>,
    w: usize,
    h: usize,
    mask: &mut Vec<u8>,
    sign: bool,
    ss_hor: bool,
    ss_ver: bool,
    bd: BitDepth,
)
    requires
        w > 0,
        h > 0,
        ss_hor ==> w % 2 == 0,
        ss_ver ==> h % 2 == 0,
        rect_fits(dst_off as int, dst_stride as int, w as int, h as int, old(dst).len() as int),
        rect_fits(0, w as int, w as int, h as int, tmp1.len() as int),
        rect_fits(0, w as int, w as int, h as int, tmp2.len() as int),
        ({
            let mw: int = if ss_hor { w as int / 2 } else { w as int };
            let mh: int = if ss_ver { h as int / 2 } else { h as int };
            rect_fits(0, mw, mw, mh, old(mask).len() as int)
        }),
    ensures
        rect_written(final(dst)@, old(dst)@, dst_off as int, dst_stride as int, w as int, h as int, 0,
            |y: int, x: int|
                spec_mask_px(bd, tmp1@[y * w + x] as int, tmp2@[y * w + x] as int, spec_w_mask_at(bd, tmp1@, tmp2@, w as int, y, x))),
        ({
            let mw: int = if ss_hor { w as int / 2 } else { w as int };
            let mh: int = if ss_ver { h as int / 2 } else { h as int };
            rect_written(final(mask)@, old(mask)@, 0, mw, mw, mh, 0,
                |y: int, x: int| spec_w_mask_out(bd, tmp1@, tmp2@, w as int, sign, ss_hor, ss_ver, y, x))
        }),
{
    let ib = bd.get_intermediate_bits();
    let sh = ib + 6;
    proof {
        lemma2_to64();
    }
    let rnd = 32 * pow2_i32(ib) + bd.prep_bias() * 64;
    let ghost g = |y: int, x: int|
        spec_mask_px(bd, tmp1@[y * w + x] as int, tmp2@[y * w + x] as int, spec_w_mask_at(bd, tmp1@, tmp2@, w as int, y, x));
    let f = |y: usize, x: usize| -> (v: u16)
        requires
            y < h && x < w,
        ensures
            v == spec_mask_px(bd, tmp1@[y * w + x] as int, tmp2@[y * w + x] as int,
                spec_w_mask_at(bd, tmp1@, tmp2@, w as int, y as int, x as int)),
        {
            proof {
                lemma_rect_index(0, w as int, w as int, h as int, tmp1.len() as int, y as int, x as int);
                lemma_rect_index(0, w as int, w as int, h as int, tmp2.len() as int, y as int, x as int);
            }
            let i = y * w + x;
            let m = w_mask_m(bd, tmp1[i], tmp2[i]);
            mask_px(bd, tmp1[i], tmp2[i], m as i32, rnd, sh)
        };
    write_block(dst, dst_off, dst_stride, w, h, f, Ghost(g));
    let mw = if ss_hor { w / 2 } else { w };
    let mh = if ss_ver { h / 2 } else { h };
    let sgn: u32 = if sign { 1 } else { 0 };
    let ghost gm = |y: int, x: int| spec_w_mask_out(bd, tmp1@, tmp2@, w as int, sign, ss_hor, ss_ver, y, x);
    let fm = |y: usize, x: usize| -> (v: u8)
        requires
            y < mh && x < mw,
        ensures
            v == spec_w_mask_out(bd, tmp1@, tmp2@, w as int, sign, ss_hor, ss_ver, y as int, x as int),
        {
            let at = |r: usize, c: usize| -> (v: u32)
                requires
                    r < h && c < w,
                ensures
                    v == spec_w_mask_at(bd, tmp1@, tmp2@, w as int, r as int, c as int),
                    38 <= v <= 64,
                {
                    proof {
                        lemma_rect_index(0, w as int, w as int, h as int, tmp1.len() as int, r as int, c as int);
                        lemma_rect_index(0, w as int, w as int, h as int, tmp2.len() as int, r as int, c as int);
                    }
                    w_mask_m(bd, tmp1[r * w + c], tmp2[r * w + c])
                };
            if ss_hor {
                if ss_ver {
                    let s = at(2 * y, 2 * x) + at(2 * y, 2 * x + 1) + at(2 * y + 1, 2 * x) + at(2 * y + 1, 2 * x + 1) + 2 - sgn;
                    assert(s >> 2 == s / 4) by (bit_vector);
                    (s >> 2) as u8
                } else {
                    let s = at(y, 2 * x) + at(y, 2 * x + 1) + 1 - sgn;
                    assert(s >> 1 == s / 2) by (bit_vector);
                    (s >> 1) as u8
                }
            } else if ss_ver {
                at(2 * y + 1, x) as u8
            } else {
                at(y, x) as u8
            }
        };
    write_block(mask, 0, mw, mw, mh, fm, Ghost(gm));
}

/// Blending with weight 0 keeps the first pixel, with weight 64 gives the
/// second, and any weight gives a value between the two.
pub proof fn lemma_blend_px_range(a: int, b: int, m: int)
    requires
        0 <= a <= 65535,
        0 <= b <= 65535,
        0 <= m <= 64,
    ensures
        spec_blend_px(a, b, 0) == a,
        spec_blend_px(a, b, 64) == b,
        a <= b ==> a <= spec_blend_px(a, b, m) <= b,
        b <= a ==> b <= spec_blend_px(a, b, m) <= a,
{
    assert(a * (64 - m) + b * m == 64 * a + m * (b - a)) by (nonlinear_arith);
    if a <= b {
        assert(0 <= m * (b - a) <= 64 * (b - a)) by (nonlinear_arith)
            requires
                0 <= m <= 64,
                a <= b,
        ;
    } else {
        assert(64 * (b - a) <= m * (b - a) <= 0) by (nonlinear_arith)
            requires
                0 <= m <= 64,
                b <= a,
        ;
    }
}

/// Combining a prepared pixel with itself gives the pixel back: by average,
/// by any weighted average (`weight` from 0 to 16) and under any mask weight.
pub proof fn lemma_compound_same_prediction(bd: BitDepth, p: int, weight: int, m: int)
    requires
        0 <= p <= bd.spec_bitdepth_max(),
        0 <= weight <= 16,
        0 <= m <= 255,
    ensures
        spec_avg_px(bd, spec_prep_px(bd, p) as int, spec_prep_px(bd, p) as int) == p,
        spec_w_avg_px(bd, spec_prep_px(bd, p) as int, spec_prep_px(bd, p) as int, weight) == p,
        spec_mask_px(bd, spec_prep_px(bd, p) as int, spec_prep_px(bd, p) as int, m) == p,
{
    lemma2_to64();
    let ib = bd.spec_intermediate_bits();
    let s = pow2(ib as nat) as int;
    let q = spec_prep_px(bd, p) as int;
    assert(0 <= p * s <= 16380) by (nonlinear_arith)
        requires
            0 <= p,
            (s == 16 && p <= 1023) || (s == 4 && p <= 4095),
    ;
    assert(q == p * s - bd.spec_prep_bias());
    assert(q * weight + q * (16 - weight) == 16 * q) by (nonlinear_arith);
    assert(q * m + q * (64 - m) == 64 * q) by (nonlinear_arith);
    assert(pow2((ib + 1) as nat) == 2 * s) by {
        vstd::arithmetic::power2::lemma_pow2_adds(ib as nat, 1);
    }
    assert(pow2((ib + 4) as nat) == 16 * s) by {
        vstd::arithmetic::power2::lemma_pow2_adds(ib as nat, 4);
    }
    assert(pow2((ib + 6) as nat) == 64 * s) by {
        vstd::arithmetic::power2::lemma_pow2_adds(ib as nat, 6);
    }
    assert((2 * p * s + s) / (2 * s) == p) by (nonlinear_arith)
        requires
            s > 0,
            p >= 0,
    {
        vstd::arithmetic::div_mod::lemma_fundamental_div_mod_converse(2 * p * s + s, 2 * s, p, s);
    }
    assert((16 * p * s + 8 * s) / (16 * s) == p) by (nonlinear_arith)
        requires
            s > 0,
            p >= 0,
    {
        vstd::arithmetic::div_mod::lemma_fundamental_div_mod_converse(16 * p * s + 8 * s, 16 * s, p, 8 * s);
    }
    assert((64 * p * s + 32 * s) / (64 * s) == p) by (nonlinear_arith)
        requires
            s > 0,
            p >= 0,
    {
        vstd::arithmetic::div_mod::lemma_fundamental_div_mod_converse(64 * p * s + 32 * s, 64 * s, p, 32 * s);
    }
    assert(q + q + s + 2 * bd.spec_prep_bias() == 2 * p * s + s) by (nonlinear_arith)
        requires
            q == p * s - bd.spec_prep_bias(),
    ;
    assert(16 * q + 8 * s + 16 * bd.spec_prep_bias() == 16 * p * s + 8 * s) by (nonlinear_arith)
        requires
            q == p * s - bd.spec_prep_bias(),
    ;
    assert(64 * q + 32 * s + 64 * bd.spec_prep_bias() == 64 * p * s + 32 * s) by (nonlinear_arith)
        requires
            q == p * s - bd.spec_prep_bias(),
    ;
}

/// The weights that `w_mask_rust` stores are at most 64, so they are valid
/// masks for `mask_rust` and `blend_rust`.
pub proof fn lemma_w_mask_out_bound(
    bd: BitDepth,
    tmp1: Seq<i16>,
    tmp2: Seq<i16>,
    w: int,
    sign: bool,
    ss_hor: bool,
    ss_ver: bool,
    y: int,
    x: int,
)
    ensures
        spec_w_mask_out(bd, tmp1, tmp2, w, sign, ss_hor, ss_ver, y, x) <= 64,
{
    lemma2_to64();
    let m = |r: int, c: int| spec_w_mask_at(bd, tmp1, tmp2, w, r, c);
    assert forall|r: int, c: int| 38 <= #[trigger] m(r, c) <= 64 by {
        let a = tmp1[r * w + c] as int;
        let b = tmp2[r * w + c] as int;
        let sh = bd.spec_bitdepth() + bd.spec_intermediate_bits() - 4;
        let d = if a >= b { a - b } else { b - a };
        vstd::arithmetic::div_mod::lemma_div_pos_is_pos(spec_min(d + pow2((sh - 5) as nat), 65535), pow2(sh as nat) as int);
    }
}

} // verus!

//! The constrained directional enhancement filter (CDEF): padding of a block
//! with its neighbours, and the filter itself.
use vstd::prelude::*;
use vstd::arithmetic::power2::{pow2, lemma_pow2_pos};
use crate::bitdepth::BitDepth;
use crate::intops::{spec_apply_sign, spec_min, spec_max, spec_iclip, spec_ulog2, apply_sign, imin, imax, iclip, asr, ulog2};
use crate::plane::{in_rect, lemma_pos, rect_fits, rect_written, lemma_rect_start, lemma_rect_index, lemma_rect_row, lemma_rect_step, lemma_rect_next_row};
use crate::tables::CDEF_DIRECTIONS;

verus! {

/// Which neighbours of a block are available, as a bit set.
pub type CdefEdgeFlags = u32;

pub const CDEF_HAVE_LEFT: CdefEdgeFlags = 1;
pub const CDEF_HAVE_RIGHT: CdefEdgeFlags = 2;
pub const CDEF_HAVE_TOP: CdefEdgeFlags = 4;
pub const CDEF_HAVE_BOTTOM: CdefEdgeFlags = 8;

/// The row stride of the padded work block.
pub const TMP_STRIDE: usize = 12;

/// The index of the block's top-left pixel in the padded work block: two rows
/// and two columns of padding come before it.
pub const TMP_ORIGIN: usize = 26;

/// The marker of a missing neighbour in the padded block.
pub const CDEF_VERY_LARGE: i16 = i16::MIN;

pub open spec fn has_edge(edges: u32, flag: u32) -> bool {
    edges & flag != 0
}

/// The absolute value of `v`.
pub open spec fn spec_abs(v: int) -> int {
    if v < 0 {
        -v
    } else {
        v
    }
}

/// The constraint of a tap difference: differences far beyond the strength are
/// damped to zero, the rest reduced towards it, the sign kept.
pub open spec fn spec_constrain(diff: int, threshold: int, shift: nat) -> int {
    let adiff = spec_abs(diff);
    spec_apply_sign(spec_min(adiff, spec_max(0, threshold - adiff / (pow2(shift) as int))), diff)
}

pub fn constrain(diff: i32, threshold: i32, shift: i32) -> (r: i32)
    requires
        diff > i32::MIN,
        0 <= shift < 32,
        threshold - spec_abs(diff as int) / (pow2(shift as nat) as int) >= i32::MIN,
    ensures
        r == spec_constrain(diff as int, threshold as int, shift as nat),
{
    let adiff = if diff < 0 {
        -diff
    } else {
        diff
    };
    proof {
        lemma_pow2_pos(shift as nat);
        vstd::arithmetic::div_mod::lemma_div_pos_is_pos(adiff as int, pow2(shift as nat) as int);
    }
    let shifted = asr(adiff, shift as u32);
    apply_sign(imin(adiff, imax(0, threshold - shifted)), diff)
}

/// Marks the `w` by `h` block at `off` (row stride `stride`) of `tmp` as missing.
pub fn fill(tmp: &mut Vec<i16>, off: usize, stride: usize, w: usize, h: usize)
    requires
        rect_fits(off as int, stride as int, w as int, h as int, old(tmp).len() as int),
    ensures
        rect_written(final(tmp)@, old(tmp)@, off as int, stride as int, w as int, h as int, 0,
            |r: int, c: int| CDEF_VERY_LARGE),
{
    let ghost f = |r: int, c: int| CDEF_VERY_LARGE;
    proof {
        lemma_rect_start(tmp@, off as int, stride as int, w as int, f);
    }
    let mut y: usize = 0;
    while y < h
        invariant
            rect_fits(off as int, stride as int, w as int, h as int, old(tmp).len() as int),
            0 <= y <= h,
            rect_written(tmp@, old(tmp)@, off as int, stride as int, w as int, y as int, 0, f),
            f == (|r: int, c: int| CDEF_VERY_LARGE),
        decreases h - y,
    {
        proof {
            lemma_rect_row(off as int, stride as int, w as int, h as int, tmp.len() as int, y as int);
        }
        let row = off + y * stride;
        let mut x: usize = 0;
        while x < w
            invariant
                rect_fits(off as int, stride as int, w as int, h as int, old(tmp).len() as int),
                0 <= y < h,
                0 <= x <= w,
                row == off + y * stride,
                rect_written(tmp@, old(tmp)@, off as int, stride as int, w as int, y as int, x as int, f),
                f == (|r: int, c: int| CDEF_VERY_LARGE),
            decreases w - x,
        {
            proof {
                lemma_rect_index(off as int, stride as int, w as int, h as int, tmp.len() as int, y as int, x as int);
                lemma_rect_step(tmp@, old(tmp)@, off as int, stride as int, w as int, y as int, x as int, f);
            }
            tmp.set(row + x, CDEF_VERY_LARGE);
            x += 1;
        }
        proof {
            lemma_rect_next_row(tmp@, old(tmp)@, off as int, stride as int, w as int, y as int, f);
        }
        y += 1;
    }
}

/// The first padded column: two columns left of the block when the left
/// neighbour exists.
pub open spec fn pad_x_start(edges: u32) -> int {
    if has_edge(edges, CDEF_HAVE_LEFT) {
        -2
    } else {
        0
    }
}

/// One past the last column read from the picture rows.
pub open spec fn pad_x_end(edges: u32, w: int) -> int {
    if has_edge(edges, CDEF_HAVE_RIGHT) {
        w + 2
    } else {
        w
    }
}

/// The neighbours that the padding reads lie inside their buffers.
pub open spec fn padding_inputs_fit(
    src_len: int,
    src_off: int,
    stride: int,
    left_len: int,
    top_len: int,
    top_off: int,
    bottom_len: int,
    bottom_off: int,
    w: int,
    h: int,
    edges: u32,
) -> bool {
    &&& 0 <= w <= 8
    &&& 0 <= h <= 8
    &&& 0 <= src_off
    &&& 0 <= stride
    &&& (h > 0 ==> src_off + (h - 1) * stride + pad_x_end(edges, w) <= src_len)
    &&& has_edge(edges, CDEF_HAVE_LEFT) ==> left_len >= h
    &&& has_edge(edges, CDEF_HAVE_TOP) ==> {
        &&& top_off + pad_x_start(edges) >= 0
        &&& top_off + stride + pad_x_end(edges, w) <= top_len
    }
    &&& has_edge(edges, CDEF_HAVE_BOTTOM) ==> {
        &&& bottom_off + pad_x_start(edges) >= 0
        &&& bottom_off + stride + pad_x_end(edges, w) <= bottom_len
    }
}

/// The value of the padded block at row `r` and column `c` relative to the
/// block's top-left pixel (`-2 <= r < h + 2`, `-2 <= c < w + 2`): a neighbouring
/// or own pixel where the neighbour exists, the missing marker otherwise.
/// The two rows above come from `top`, the two below from `bottom`, the two
/// columns to the left of the block rows from `left`.
pub open spec fn spec_padding_value(
    src: Seq<u16>,
    src_off: int,
    stride: int,
    left: Seq<[u16; 2]>,
    top: Seq<u16>,
    top_off: int,
    bottom: Seq<u16>,
    bottom_off: int,
    w: int,
    h: int,
    edges: u32,
    r: int,
    c: int,
) -> i16 {
    let left_missing = c < 0 && !has_edge(edges, CDEF_HAVE_LEFT);
    let right_missing = c >= w && !has_edge(edges, CDEF_HAVE_RIGHT);
    if r < 0 {
        if !has_edge(edges, CDEF_HAVE_TOP) || left_missing || right_missing {
            CDEF_VERY_LARGE
        } else {
            top[top_off + (r + 2) * stride + c] as i16
        }
    } else if r < h {
        if left_missing || right_missing {
            CDEF_VERY_LARGE
        } else if c < 0 {
            left[r][c + 2] as i16
        } else {
            src[src_off + r * stride + c] as i16
        }
    } else {
        if !has_edge(edges, CDEF_HAVE_BOTTOM) || left_missing || right_missing {
            CDEF_VERY_LARGE
        } else {
            bottom[bottom_off + (r - h) * stride + c] as i16
        }
    }
}

/// The padded work block: 12 by 12 cells, the block's top-left pixel at
/// `TMP_ORIGIN`; cells beyond the `w + 4` by `h + 4` padded area stay 0.
pub open spec fn spec_padded_block(
    src: Seq<u16>,
    src_off: int,
    stride: int,
    left: Seq<[u16; 2]>,
    top: Seq<u16>,
    top_off: int,
    bottom: Seq<u16>,
    bottom_off: int,
    w: int,
    h: int,
    edges: u32,
) -> Seq<i16> {
    Seq::new(
        144,
        |t: int|
            if in_rect(t, 0, 12, w + 4, h + 4) {
                spec_padding_value(src, src_off, stride, left, top, top_off, bottom, bottom_off, w, h, edges,
                    t / 12 - 2, t % 12 - 2)
            } else {
                0i16
            },
    )
}

/// The value of one padded cell, read from the neighbour it comes from.
fn padding_px(
    src: &Vec<u16>,
    src_off: usize,
    stride: usize,
    left: &[[u16; 2]],
    top: &[u16],
    top_off: usize,
    bottom: &[u16],
    bottom_off: usize,
    w: usize,
    h: usize,
    edges: CdefEdgeFlags,
    rr: usize,
    cc: usize,
) -> (v: i16)
    requires
        padding_inputs_fit(src.len() as int, src_off as int, stride as int, left.len() as int, top.len() as int,
            top_off as int, bottom.len() as int, bottom_off as int, w as int, h as int, edges),
        rr < h + 4,
        cc < w + 4,
    ensures
        v == spec_padding_value(src@, src_off as int, stride as int, left@, top@, top_off as int, bottom@,
            bottom_off as int, w as int, h as int, edges, rr - 2, cc - 2),
{
    let left_missing = cc < 2 && edges & CDEF_HAVE_LEFT == 0;
    let right_missing = cc >= w + 2 && edges & CDEF_HAVE_RIGHT == 0;
    if rr < 2 {
        if edges & CDEF_HAVE_TOP == 0 || left_missing || right_missing {
            CDEF_VERY_LARGE
        } else {
            // row rr of `top`, column cc - 2
            proof {
                vstd::arithmetic::mul::lemma_mul_inequality(rr as int, 1, stride as int);
                vstd::arithmetic::mul::lemma_mul_nonnegative(rr as int, stride as int);
            }
            let i = if cc >= 2 {
                top_off + rr * stride + (cc - 2)
            } else {
                (top_off - (2 - cc)) + rr * stride
            };
            assert(i == top_off + ((rr - 2) + 2) * stride + (cc - 2));
            top[i] as i16
        }
    } else if rr < h + 2 {
        if left_missing || right_missing {
            CDEF_VERY_LARGE
        } else if cc < 2 {
            left[rr - 2][cc] as i16
        } else {
            proof {
                vstd::arithmetic::mul::lemma_mul_inequality(rr - 2, h - 1, stride as int);
                vstd::arithmetic::mul::lemma_mul_nonnegative(rr - 2, stride as int);
            }
            let i = src_off + (rr - 2) * stride + (cc - 2);
            src[i] as i16
        }
    } else {
        if edges & CDEF_HAVE_BOTTOM == 0 || left_missing || right_missing {
            CDEF_VERY_LARGE
        } else {
            proof {
                vstd::arithmetic::mul::lemma_mul_inequality(rr - h - 2, 1, stride as int);
                vstd::arithmetic::mul::lemma_mul_nonnegative(rr - h - 2, stride as int);
            }
            let i = if cc >= 2 {
                bottom_off + (rr - h - 2) * stride + (cc - 2)
            } else {
                (bottom_off - (2 - cc)) + (rr - h - 2) * stride
            };
            assert(i == bottom_off + ((rr - 2) - h) * stride + (cc - 2));
            bottom[i] as i16
        }
    }
}

/// Copies a block and its neighbourhood into the padded work block `tmp`
/// (row stride 12, block origin at `TMP_ORIGIN`), marking missing neighbours.
pub fn padding(
    tmp: &mut [i16; 144],
    src: &Vec<u16>,
    src_off: usize,
    src_stride: usize,
    left: &[[u16; 2]],
    top: &[u16],
    top_off: usize,
    bottom: &[u16],
    bottom_off: usize,
    w: usize,
    h: usize,
    edges: CdefEdgeFlags,
)
    requires
        padding_inputs_fit(src.len() as int, src_off as int, src_stride as int, left.len() as int,
            top.len() as int, top_off as int, bottom.len() as int, bottom_off as int, w as int, h as int,
            edges),
    ensures
        rect_written(final(tmp)@, old(tmp)@, 0, 12, w + 4, h + 4, 0,
            |r: int, c: int|
                spec_padding_value(src@, src_off as int, src_stride as int, left@, top@, top_off as int,
                    bottom@, bottom_off as int, w as int, h as int, edges, r - 2, c - 2)),
{
    let ghost f = |r: int, c: int|
        spec_padding_value(src@, src_off as int, src_stride as int, left@, top@, top_off as int, bottom@,
            bottom_off as int, w as int, h as int, edges, r - 2, c - 2);
    let ghost orig = tmp@;
    proof {
        lemma_rect_start(tmp@, 0, 12, (w + 4) as int, f);
    }
    let mut rr: usize = 0;
    while rr < h + 4
        invariant
            padding_inputs_fit(src.len() as int, src_off as int, src_stride as int, left.len() as int,
                top.len() as int, top_off as int, bottom.len() as int, bottom_off as int, w as int, h as int,
                edges),
            0 <= rr <= h + 4,
            orig == old(tmp)@,
            rect_written(tmp@, orig, 0, 12, (w + 4) as int, rr as int, 0, f),
            f == (|r: int, c: int|
                spec_padding_value(src@, src_off as int, src_stride as int, left@, top@, top_off as int,
                    bottom@, bottom_off as int, w as int, h as int, edges, r - 2, c - 2)),
        decreases h + 4 - rr,
    {
        let mut cc: usize = 0;
        while cc < w + 4
            invariant
                padding_inputs_fit(src.len() as int, src_off as int, src_stride as int, left.len() as int,
                    top.len() as int, top_off as int, bottom.len() as int, bottom_off as int, w as int,
                    h as int, edges),
                0 <= rr < h + 4,
                0 <= cc <= w + 4,
                rect_written(tmp@, orig, 0, 12, (w + 4) as int, rr as int, cc as int, f),
                f == (|r: int, c: int|
                    spec_padding_value(src@, src_off as int, src_stride as int, left@, top@, top_off as int,
                        bottom@, bottom_off as int, w as int, h as int, edges, r - 2, c - 2)),
            decreases w + 4 - cc,
        {
            let v = padding_px(src, src_off, src_stride, left, top, top_off, bottom, bottom_off, w, h, edges,
                rr, cc);
            proof {
                lemma_rect_step(tmp@, orig, 0, 12, (w + 4) as int, rr as int, cc as int, f);
            }
            tmp[rr * 12 + cc] = v;
            cc += 1;
        }
        proof {
            lemma_rect_next_row(tmp@, orig, 0, 12, (w + 4) as int, rr as int, f);
        }
        rr += 1;
    }
}

/// The constrained difference never exceeds the strength nor the difference
/// itself, keeps the difference's sign, and vanishes at strength 0.
pub proof fn lemma_constrain_bound(diff: int, threshold: int, shift: nat)
    requires
        threshold >= 0,
    ensures
        -threshold <= spec_constrain(diff, threshold, shift) <= threshold,
        spec_abs(spec_constrain(diff, threshold, shift)) <= spec_abs(diff),
        diff >= 0 ==> spec_constrain(diff, threshold, shift) >= 0,
        diff <= 0 ==> spec_constrain(diff, threshold, shift) <= 0,
        spec_constrain(diff, 0, shift) == 0,
{
    lemma_pow2_pos(shift);
    vstd::arithmetic::div_mod::lemma_div_pos_is_pos(spec_abs(diff), pow2(shift) as int);
}

/// The smaller of `a` and `b` compared as unsigned 32-bit numbers, so that a
/// negative value (the missing marker) never wins over a pixel.
pub open spec fn spec_umin(a: int, b: int) -> int {
    if (a < 0) == (b < 0) {
        spec_min(a, b)
    } else if a < 0 {
        b
    } else {
        a
    }
}

fn umin(a: i32, b: i32) -> (r: i32)
    ensures
        r == spec_umin(a as int, b as int),
{
    if (a < 0) == (b < 0) {
        if a < b {
            a
        } else {
            b
        }
    } else if a < 0 {
        b
    } else {
        a
    }
}

/// The padded cell at offset `off` from cell `base`.
pub open spec fn cdef_tap(tmp: Seq<i16>, base: int, off: int) -> int {
    tmp[base + off] as int
}

/// The tap offset of table row `d` at distance `k`.
pub open spec fn cdef_offset(d: int, k: int) -> int {
    CDEF_DIRECTIONS[d][k] as int
}

/// The constrained differences of the two taps at `+off` and `-off`.
pub open spec fn spec_tap_pair(tmp: Seq<i16>, base: int, px: int, off: int, strength: int, shift: nat) -> int {
    spec_constrain(cdef_tap(tmp, base, off) - px, strength, shift) + spec_constrain(
        cdef_tap(tmp, base, -off) - px,
        strength,
        shift,
    )
}

/// The primary tap weights: `{4, 2}` or `{3, 3}`.
pub open spec fn spec_pri_tap_k(pri_tap: int, k: int) -> int {
    if k == 0 {
        pri_tap
    } else if pri_tap == 4 {
        2
    } else {
        3
    }
}

/// The weighted primary taps, along direction `dir`.
pub open spec fn spec_pri_sum(tmp: Seq<i16>, base: int, px: int, dir: int, pri: int, pri_tap: int, shift: nat) -> int {
    spec_pri_tap_k(pri_tap, 0) * spec_tap_pair(tmp, base, px, cdef_offset(dir + 2, 0), pri, shift)
        + spec_pri_tap_k(pri_tap, 1) * spec_tap_pair(tmp, base, px, cdef_offset(dir + 2, 1), pri, shift)
}

/// The weighted secondary taps, along the directions 45 degrees off `dir`.
pub open spec fn spec_sec_sum(tmp: Seq<i16>, base: int, px: int, dir: int, sec: int, shift: nat) -> int {
    2 * (spec_tap_pair(tmp, base, px, cdef_offset(dir + 4, 0), sec, shift) + spec_tap_pair(
        tmp,
        base,
        px,
        cdef_offset(dir, 0),
        sec,
        shift,
    )) + 1 * (spec_tap_pair(tmp, base, px, cdef_offset(dir + 4, 1), sec, shift) + spec_tap_pair(
        tmp,
        base,
        px,
        cdef_offset(dir, 1),
        sec,
        shift,
    ))
}

/// The taps at distance `k` folded into a running value `m` with `g`, in the
/// order primary, secondary, secondary.
pub open spec fn fold_taps(tmp: Seq<i16>, base: int, dir: int, k: int, m: int, g: spec_fn(int, int) -> int) -> int {
    let o1 = cdef_offset(dir + 2, k);
    let o2 = cdef_offset(dir + 4, k);
    let o3 = cdef_offset(dir, k);
    g(cdef_tap(tmp, base, -o3), g(cdef_tap(tmp, base, o3), g(cdef_tap(tmp, base, -o2), g(cdef_tap(tmp, base, o2),
        g(cdef_tap(tmp, base, -o1), g(cdef_tap(tmp, base, o1), m))))))
}

/// The smallest pixel among the pixel and its taps (missing taps ignored).
pub open spec fn spec_tap_min(tmp: Seq<i16>, base: int, px: int, dir: int) -> int {
    fold_taps(tmp, base, dir, 1, fold_taps(tmp, base, dir, 0, px, |a: int, b: int| spec_umin(a, b)),
        |a: int, b: int| spec_umin(a, b))
}

/// The largest value among the pixel and its taps.
pub open spec fn spec_tap_max(tmp: Seq<i16>, base: int, px: int, dir: int) -> int {
    fold_taps(tmp, base, dir, 1, fold_taps(tmp, base, dir, 0, px, |a: int, b: int| spec_max(a, b)),
        |a: int, b: int| spec_max(a, b))
}

/// A weighted sum of tap differences scaled down by 16, rounded to nearest
/// with ties away from zero.
pub open spec fn spec_round16(sum: int) -> int {
    (sum - (if sum < 0 { 1int } else { 0 }) + 8) / 16
}

/// The filtered value of the pixel `px` at padded cell `base`, given the
/// primary tap weight and the two damping shifts.
pub open spec fn spec_cdef_px_with(
    tmp: Seq<i16>,
    base: int,
    px: int,
    pri: int,
    sec: int,
    dir: int,
    pri_tap: int,
    pri_shift: nat,
    sec_shift: nat,
    bd: BitDepth,
) -> u16 {
    if pri != 0 {
        let ps = spec_pri_sum(tmp, base, px, dir, pri, pri_tap, pri_shift);
        if sec != 0 {
            let sum = ps + spec_sec_sum(tmp, base, px, dir, sec, sec_shift);
            bd.spec_pixel_cast(
                spec_iclip(px + spec_round16(sum), spec_tap_min(tmp, base, px, dir), spec_tap_max(tmp, base, px, dir)),
            )
        } else {
            bd.spec_pixel_cast(px + spec_round16(ps))
        }
    } else {
        bd.spec_pixel_cast(px + spec_round16(spec_sec_sum(tmp, base, px, dir, sec, sec_shift)))
    }
}

/// The primary tap weight: 4 or 3 by the lowest bit of the strength scaled to
/// 8 bits per component.
pub open spec fn spec_pri_tap(pri: int, bd: BitDepth) -> int {
    4 - (pri / (pow2((bd.spec_bitdepth() - 8) as nat) as int)) % 2
}

/// The filtered value of pixel `px` at padded cell `base`, for the strengths,
/// direction and damping of the block.
pub open spec fn spec_cdef_px(tmp: Seq<i16>, base: int, px: int, pri: int, sec: int, dir: int, damping: int, bd: BitDepth) -> u16 {
    spec_cdef_px_with(
        tmp,
        base,
        px,
        pri,
        sec,
        dir,
        spec_pri_tap(pri, bd),
        spec_max(0, damping - spec_ulog2(pri as nat)) as nat,
        (damping - spec_ulog2(sec as nat)) as nat,
        bd,
    )
}

/// The primary strength scaled to 8 bits per component.
pub open spec fn pri_strength_8bit(pri: int, bd: BitDepth) -> int {
    match bd {
        BitDepth::Bpc8 => pri,
        BitDepth::Bpc10 => pri / 4,
        BitDepth::Bpc12 => pri / 16,
    }
}

/// The primary taps of a pixel weigh 4 (nearer pair) and 2 (farther pair)
/// when the primary strength scaled to 8 bits is even, and 3 and 3 when it is
/// odd: the filtered pixel is the one computed with those weights.
pub proof fn lemma_cdef_primary_weights(
    tmp: Seq<i16>,
    base: int,
    px: int,
    pri: int,
    sec: int,
    dir: int,
    damping: int,
    bd: BitDepth,
)
    requires
        pri >= 0,
    ensures
        pri_strength_8bit(pri, bd) % 2 == 0 ==> spec_pri_tap(pri, bd) == 4,
        pri_strength_8bit(pri, bd) % 2 == 1 ==> spec_pri_tap(pri, bd) == 3,
        forall|s: nat| #![trigger spec_pri_sum(tmp, base, px, dir, pri, spec_pri_tap(pri, bd), s)]
            spec_pri_sum(tmp, base, px, dir, pri, spec_pri_tap(pri, bd), s) == if pri_strength_8bit(pri, bd) % 2 == 0 {
                4 * spec_tap_pair(tmp, base, px, cdef_offset(dir + 2, 0), pri, s) + 2 * spec_tap_pair(tmp, base, px,
                    cdef_offset(dir + 2, 1), pri, s)
            } else {
                3 * spec_tap_pair(tmp, base, px, cdef_offset(dir + 2, 0), pri, s) + 3 * spec_tap_pair(tmp, base, px,
                    cdef_offset(dir + 2, 1), pri, s)
            },
        spec_cdef_px(tmp, base, px, pri, sec, dir, damping, bd) == spec_cdef_px_with(tmp, base, px, pri, sec, dir,
            if pri_strength_8bit(pri, bd) % 2 == 0 { 4 } else { 3 }, spec_max(0, damping - spec_ulog2(pri as nat)) as nat,
            (damping - spec_ulog2(sec as nat)) as nat, bd),
{
    vstd::arithmetic::power2::lemma2_to64();
    match bd {
        BitDepth::Bpc8 => assert(pow2((bd.spec_bitdepth() - 8) as nat) == 1),
        BitDepth::Bpc10 => assert(pow2((bd.spec_bitdepth() - 8) as nat) == 4),
        BitDepth::Bpc12 => assert(pow2((bd.spec_bitdepth() - 8) as nat) == 16),
    }
}

/// The cell of the padded block holding pixel `(y, x)` of the block.
pub open spec fn tmp_cell(y: int, x: int) -> int {
    TMP_ORIGIN + 12 * y + x
}

/// Cell `base` is a block pixel with all its taps inside the padded block.
pub open spec fn tap_cell_ok(base: int) -> bool {
    26 <= base && base + 26 < 144
}

proof fn lemma_offsets_small(d: int, k: int)
    requires
        0 <= d < 12,
        0 <= k < 2,
    ensures
        -26 <= cdef_offset(d, k) <= 26,
{
}

fn tap_pair(tmp: &[i16; 144], base: usize, px: i32, off: i8, strength: i32, shift: i32) -> (r: i32)
    requires
        tap_cell_ok(base as int),
        -26 <= off <= 26,
        0 <= px <= 65535,
        0 <= strength <= 32767,
        0 <= shift < 32,
    ensures
        r == spec_tap_pair(tmp@, base as int, px as int, off as int, strength as int, shift as nat),
        -2 * strength <= r <= 2 * strength,
{
    let p0 = tmp[(base as i32 + off as i32) as usize] as i32;
    let p1 = tmp[(base as i32 - off as i32) as usize] as i32;
    proof {
        vstd::arithmetic::power2::lemma_pow2_pos(shift as nat);
        vstd::arithmetic::div_mod::lemma_div_is_ordered_by_denominator(spec_abs((p0 - px) as int), 1, pow2(shift as nat) as int);
        vstd::arithmetic::div_mod::lemma_div_is_ordered_by_denominator(spec_abs((p1 - px) as int), 1, pow2(shift as nat) as int);
        vstd::arithmetic::div_mod::lemma_div_basics(spec_abs((p0 - px) as int));
        vstd::arithmetic::div_mod::lemma_div_basics(spec_abs((p1 - px) as int));
        lemma_constrain_bound((p0 - px) as int, strength as int, shift as nat);
        lemma_constrain_bound((p1 - px) as int, strength as int, shift as nat);
    }
    constrain(p0 - px, strength, shift) + constrain(p1 - px, strength, shift)
}

fn fold_min(tmp: &[i16; 144], base: usize, dir: usize, k: usize, m: i32) -> (r: i32)
    requires
        tap_cell_ok(base as int),
        dir < 8,
        k < 2,
    ensures
        r == fold_taps(tmp@, base as int, dir as int, k as int, m as int, |a: int, b: int| spec_umin(a, b)),
{
    proof {
        lemma_offsets_small(dir + 2, k as int);
        lemma_offsets_small(dir + 4, k as int);
        lemma_offsets_small(dir as int, k as int);
    }
    let o1 = CDEF_DIRECTIONS[dir + 2][k] as i32;
    let o2 = CDEF_DIRECTIONS[dir + 4][k] as i32;
    let o3 = CDEF_DIRECTIONS[dir][k] as i32;
    let b = base as i32;
    let mut m = umin(tmp[(b + o1) as usize] as i32, m);
    m = umin(tmp[(b - o1) as usize] as i32, m);
    m = umin(tmp[(b + o2) as usize] as i32, m);
    m = umin(tmp[(b - o2) as usize] as i32, m);
    m = umin(tmp[(b + o3) as usize] as i32, m);
    m = umin(tmp[(b - o3) as usize] as i32, m);
    m
}

fn fold_max(tmp: &[i16; 144], base: usize, dir: usize, k: usize, m: i32) -> (r: i32)
    requires
        tap_cell_ok(base as int),
        dir < 8,
        k < 2,
    ensures
        r == fold_taps(tmp@, base as int, dir as int, k as int, m as int, |a: int, b: int| spec_max(a, b)),
{
    proof {
        lemma_offsets_small(dir + 2, k as int);
        lemma_offsets_small(dir + 4, k as int);
        lemma_offsets_small(dir as int, k as int);
    }
    let o1 = CDEF_DIRECTIONS[dir + 2][k] as i32;
    let o2 = CDEF_DIRECTIONS[dir + 4][k] as i32;
    let o3 = CDEF_DIRECTIONS[dir][k] as i32;
    let b = base as i32;
    let mut m = imax(tmp[(b + o1) as usize] as i32, m);
    m = imax(tmp[(b - o1) as usize] as i32, m);
    m = imax(tmp[(b + o2) as usize] as i32, m);
    m = imax(tmp[(b - o2) as usize] as i32, m);
    m = imax(tmp[(b + o3) as usize] as i32, m);
    m = imax(tmp[(b - o3) as usize] as i32, m);
    m
}

fn round16(sum: i32) -> (r: i32)
    requires
        -1000000 <= sum <= 1000000,
    ensures
        r == spec_round16(sum as int),
{
    let v = sum - (if sum < 0 { 1i32 } else { 0 }) + 8;
    proof {
        vstd::arithmetic::power2::lemma2_to64();
    }
    asr(v, 4)
}

fn pri_sum(tmp: &[i16; 144], base: usize, px: i32, dir: usize, pri: i32, pri_tap: i32, shift: i32) -> (r: i32)
    requires
        tap_cell_ok(base as int),
        dir < 8,
        0 <= px <= 65535,
        0 <= pri <= 32767,
        pri_tap == 3 || pri_tap == 4,
        0 <= shift < 32,
    ensures
        r == spec_pri_sum(tmp@, base as int, px as int, dir as int, pri as int, pri_tap as int, shift as nat),
        -14 * pri <= r <= 14 * pri,
{
    proof {
        lemma_offsets_small(dir + 2, 0);
        lemma_offsets_small(dir + 2, 1);
    }
    let tap1: i32 = if pri_tap == 4 { 2 } else { 3 };
    let a = tap_pair(tmp, base, px, CDEF_DIRECTIONS[dir + 2][0], pri, shift);
    let b = tap_pair(tmp, base, px, CDEF_DIRECTIONS[dir + 2][1], pri, shift);
    proof {
        assert(-8 * pri <= pri_tap * a <= 8 * pri) by (nonlinear_arith)
            requires -2 * pri <= a <= 2 * pri, 3 <= pri_tap <= 4, pri >= 0;
        assert(-6 * pri <= tap1 * b <= 6 * pri) by (nonlinear_arith)
            requires -2 * pri <= b <= 2 * pri, 2 <= tap1 <= 3, pri >= 0;
    }
    pri_tap * a + tap1 * b
}

fn sec_sum(tmp: &[i16; 144], base: usize, px: i32, dir: usize, sec: i32, shift: i32) -> (r: i32)
    requires
        tap_cell_ok(base as int),
        dir < 8,
        0 <= px <= 65535,
        0 <= sec <= 32767,
        0 <= shift < 32,
    ensures
        r == spec_sec_sum(tmp@, base as int, px as int, dir as int, sec as int, shift as nat),
        -12 * sec <= r <= 12 * sec,
{
    proof {
        lemma_offsets_small(dir + 4, 0);
        lemma_offsets_small(dir + 4, 1);
        lemma_offsets_small(dir as int, 0);
        lemma_offsets_small(dir as int, 1);
    }
    let a = tap_pair(tmp, base, px, CDEF_DIRECTIONS[dir + 4][0], sec, shift);
    let b = tap_pair(tmp, base, px, CDEF_DIRECTIONS[dir][0], sec, shift);
    let c = tap_pair(tmp, base, px, CDEF_DIRECTIONS[dir + 4][1], sec, shift);
    let d = tap_pair(tmp, base, px, CDEF_DIRECTIONS[dir][1], sec, shift);
    2 * (a + b) + 1 * (c + d)
}

/// The filtered value of one pixel.
fn cdef_px(
    tmp: &[i16; 144],
    base: usize,
    px: i32,
    pri: i32,
    sec: i32,
    dir: usize,
    pri_tap: i32,
    pri_shift: i32,
    sec_shift: i32,
    bd: BitDepth,
) -> (r: u16)
    requires
        tap_cell_ok(base as int),
        dir < 8,
        0 <= px <= 65535,
        0 <= pri <= 32767,
        0 <= sec <= 32767,
        pri_tap == 3 || pri_tap == 4,
        0 <= pri_shift < 32,
        0 <= sec_shift < 32,
    ensures
        r == spec_cdef_px_with(tmp@, base as int, px as int, pri as int, sec as int, dir as int, pri_tap as int,
            pri_shift as nat, sec_shift as nat, bd),
{
    if pri != 0 {
        let ps = pri_sum(tmp, base, px, dir, pri, pri_tap, pri_shift);
        if sec != 0 {
            let ss = sec_sum(tmp, base, px, dir, sec, sec_shift);
            let min = fold_min(tmp, base, dir, 1, fold_min(tmp, base, dir, 0, px));
            let max = fold_max(tmp, base, dir, 1, fold_max(tmp, base, dir, 0, px));
            bd.pixel_cast(iclip(px + round16(ps + ss), min, max))
        } else {
            bd.pixel_cast(px + round16(ps))
        }
    } else {
        let ss = sec_sum(tmp, base, px, dir, sec, sec_shift);
        bd.pixel_cast(px + round16(ss))
    }
}

/// The damping shifts that the strengths call for are valid shift amounts.
pub open spec fn cdef_shifts_ok(pri: int, sec: int, damping: int) -> bool {
    &&& pri != 0 ==> i32::MIN <= damping - spec_ulog2(pri as nat) < 32
    &&& sec != 0 ==> 0 <= damping - spec_ulog2(sec as nat) < 32
}

/// Filters the `w` by `h` block at `dst_off` of the plane `dst` (row stride
/// `dst_stride`) in place. Each pixel is moved towards the weighted,
/// constrained differences of its primary taps (along direction `dir`, with
/// strength `pri_strength`) and secondary taps (45 degrees off, with strength
/// `sec_strength`); the neighbours come from the block's own rows, the two
/// columns `left` of each row, and the two rows above (`top`) and below
/// (`bottom`), where `edges` says they exist. With both strengths, the result
/// is clamped to the range of the pixel and its taps.
pub fn cdef_filter_block_c(
    dst: &mut Vec<u16>,
    dst_off: usize,
    dst_stride: usize,
    left: &[[u16; 2]],
    top: &[u16],
    top_off: usize,
    bottom: &[u16],
    bottom_off: usize,
    pri_strength: i32,
    sec_strength: i32,
    dir: i32,
    damping: i32,
    w: usize,
    h: usize,
    edges: CdefEdgeFlags,
    bd: BitDepth,
)
    requires
        (w == 4 || w == 8) && (h == 4 || h == 8),
        pri_strength != 0 || sec_strength != 0,
        0 <= pri_strength <= 32767,
        0 <= sec_strength <= 32767,
        0 <= dir < 8,
        cdef_shifts_ok(pri_strength as int, sec_strength as int, damping as int),
        rect_fits(dst_off as int, dst_stride as int, w as int, h as int, old(dst).len() as int),
        padding_inputs_fit(old(dst).len() as int, dst_off as int, dst_stride as int, left.len() as int,
            top.len() as int, top_off as int, bottom.len() as int, bottom_off as int, w as int, h as int,
            edges),
    ensures
        rect_written(final(dst)@, old(dst)@, dst_off as int, dst_stride as int, w as int, h as int, 0,
            |y: int, x: int|
                spec_cdef_px(
                    spec_padded_block(old(dst)@, dst_off as int, dst_stride as int, left@, top@, top_off as int,
                        bottom@, bottom_off as int, w as int, h as int, edges),
                    tmp_cell(y, x),
                    old(dst)@[dst_off + y * dst_stride + x] as int,
                    pri_strength as int,
                    sec_strength as int,
                    dir as int,
                    damping as int,
                    bd,
                )),
{
    let ghost orig = dst@;
    let ghost padded = spec_padded_block(dst@, dst_off as int, dst_stride as int, left@, top@, top_off as int,
        bottom@, bottom_off as int, w as int, h as int, edges);
    let mut tmp = [0i16; 144];
    let ghost zero = tmp@;
    padding(&mut tmp, dst, dst_off, dst_stride, left, top, top_off, bottom, bottom_off, w, h, edges);
    assert(tmp@ =~= padded) by {
        assert forall|t: int| 0 <= t < 144 implies tmp@[t] == padded[t] by {
            assert(zero[t] == 0i16);
        }
    }
    let pri = pri_strength;
    let sec = sec_strength;
    let bdm8 = bd.bitdepth() - 8;
    let pb = (pri as u32) >> bdm8;
    proof {
        vstd::bits::lemma_u32_shr_is_div(pri as u32, bdm8);
        assert(pb & 1u32 == pb % 2) by (bit_vector);
    }
    let pri_tap = 4 - (pb & 1) as i32;
    let pri_shift = if pri != 0 {
        imax(0, damping - ulog2(pri as u32))
    } else {
        0
    };
    let sec_shift = if sec != 0 {
        damping - ulog2(sec as u32)
    } else {
        0
    };
    let ghost f = |y: int, x: int|
        spec_cdef_px(padded, tmp_cell(y, x), orig[dst_off + y * dst_stride + x] as int, pri as int, sec as int,
            dir as int, damping as int, bd);
    proof {
        lemma_rect_start(dst@, dst_off as int, dst_stride as int, w as int, f);
    }
    let mut y: usize = 0;
    while y < h
        invariant
            (w == 4 || w == 8) && (h == 4 || h == 8),
            0 <= y <= h,
            rect_fits(dst_off as int, dst_stride as int, w as int, h as int, orig.len() as int),
            rect_written(dst@, orig, dst_off as int, dst_stride as int, w as int, y as int, 0, f),
            orig == old(dst)@,
            tmp@ == padded,
            0 <= dir < 8,
            0 <= pri <= 32767,
            0 <= sec <= 32767,
            pri != 0 || sec != 0,
            pri_tap == spec_pri_tap(pri as int, bd),
            pri != 0 ==> pri_shift == spec_max(0, damping - spec_ulog2(pri as nat)),
            sec != 0 ==> sec_shift == damping - spec_ulog2(sec as nat),
            0 <= pri_shift < 32,
            0 <= sec_shift < 32,
            f == (|y: int, x: int|
                spec_cdef_px(padded, tmp_cell(y, x), orig[dst_off + y * dst_stride + x] as int, pri as int,
                    sec as int, dir as int, damping as int, bd)),
        decreases h - y,
    {
        proof {
            lemma_rect_row(dst_off as int, dst_stride as int, w as int, h as int, dst.len() as int, y as int);
        }
        let row = dst_off + y * dst_stride;
        let mut x: usize = 0;
        while x < w
            invariant
                (w == 4 || w == 8) && (h == 4 || h == 8),
                0 <= y < h,
                0 <= x <= w,
                row == dst_off + y * dst_stride,
                rect_fits(dst_off as int, dst_stride as int, w as int, h as int, orig.len() as int),
                rect_written(dst@, orig, dst_off as int, dst_stride as int, w as int, y as int, x as int, f),
                orig == old(dst)@,
                tmp@ == padded,
                0 <= dir < 8,
                0 <= pri <= 32767,
                0 <= sec <= 32767,
                pri != 0 || sec != 0,
                pri_tap == spec_pri_tap(pri as int, bd),
                pri != 0 ==> pri_shift == spec_max(0, damping - spec_ulog2(pri as nat)),
                sec != 0 ==> sec_shift == damping - spec_ulog2(sec as nat),
                0 <= pri_shift < 32,
                0 <= sec_shift < 32,
                f == (|y: int, x: int|
                    spec_cdef_px(padded, tmp_cell(y, x), orig[dst_off + y * dst_stride + x] as int, pri as int,
                        sec as int, dir as int, damping as int, bd)),
            decreases w - x,
        {
            proof {
                lemma_rect_index(dst_off as int, dst_stride as int, w as int, h as int, dst.len() as int, y as int,
                    x as int);
                lemma_pos(dst_off as int, dst_stride as int, y as int, x as int);
            }
            let j = row + x;
            assert(dst@[j as int] == orig[j as int]);
            let px = dst[j] as i32;
            let base = TMP_ORIGIN + 12 * y + x;
            let v = cdef_px(&tmp, base, px, pri, sec, dir as usize, pri_tap, pri_shift, sec_shift, bd);
            assert(v == f(y as int, x as int));
            proof {
                lemma_rect_step(dst@, orig, dst_off as int, dst_stride as int, w as int, y as int, x as int, f);
            }
            dst.set(j, v);
            x += 1;
        }
        proof {
            lemma_rect_next_row(dst@, orig, dst_off as int, dst_stride as int, w as int, y as int, f);
        }
        y += 1;
    }
}

/// Filters an 8 by 8 block (see `cdef_filter_block_c`).
pub fn cdef_filter_block_8x8_c_erased(
    dst: &mut Vec<u16>,
    dst_off: usize,
    dst_stride: usize,
    left: &[[u16; 2]],
    top: &[u16],
    top_off: usize,
    bottom: &[u16],
    bottom_off: usize,
    pri_strength: i32,
    sec_strength: i32,
    dir: i32,
    damping: i32,
    edges: CdefEdgeFlags,
    bd: BitDepth,
)
    requires
        pri_strength != 0 || sec_strength != 0,
        0 <= pri_strength <= 32767,
        0 <= sec_strength <= 32767,
        0 <= dir < 8,
        cdef_shifts_ok(pri_strength as int, sec_strength as int, damping as int),
        rect_fits(dst_off as int, dst_stride as int, 8, 8, old(dst).len() as int),
        padding_inputs_fit(old(dst).len() as int, dst_off as int, dst_stride as int, left.len() as int,
            top.len() as int, top_off as int, bottom.len() as int, bottom_off as int, 8, 8, edges),
    ensures
        rect_written(final(dst)@, old(dst)@, dst_off as int, dst_stride as int, 8, 8, 0,
            |y: int, x: int|
                spec_cdef_px(
                    spec_padded_block(old(dst)@, dst_off as int, dst_stride as int, left@, top@, top_off as int,
                        bottom@, bottom_off as int, 8, 8, edges),
                    tmp_cell(y, x),
                    old(dst)@[dst_off + y * dst_stride + x] as int,
                    pri_strength as int,
                    sec_strength as int,
                    dir as int,
                    damping as int,
                    bd,
                )),
{
    cdef_filter_block_c(dst, dst_off, dst_stride, left, top, top_off, bottom, bottom_off, pri_strength,
        sec_strength, dir, damping, 8, 8, edges, bd)
}

/// Filters a 4 wide, 8 high block (see `cdef_filter_block_c`).
pub fn cdef_filter_block_4x8_c_erased(
    dst: &mut Vec<u16>,
    dst_off: usize,
    dst_stride: usize,
    left: &[[u16; 2]],
    top: &[u16],
    top_off: usize,
    bottom: &[u16],
    bottom_off: usize,
    pri_strength: i32,
    sec_strength: i32,
    dir: i32,
    damping: i32,
    edges: CdefEdgeFlags,
    bd: BitDepth,
)
    requires
        pri_strength != 0 || sec_strength != 0,
        0 <= pri_strength <= 32767,
        0 <= sec_strength <= 32767,
        0 <= dir < 8,
        cdef_shifts_ok(pri_strength as int, sec_strength as int, damping as int),
        rect_fits(dst_off as int, dst_stride as int, 4, 8, old(dst).len() as int),
        padding_inputs_fit(old(dst).len() as int, dst_off as int, dst_stride as int, left.len() as int,
            top.len() as int, top_off as int, bottom.len() as int, bottom_off as int, 4, 8, edges),
    ensures
        rect_written(final(dst)@, old(dst)@, dst_off as int, dst_stride as int, 4, 8, 0,
            |y: int, x: int|
                spec_cdef_px(
                    spec_padded_block(old(dst)@, dst_off as int, dst_stride as int, left@, top@, top_off as int,
                        bottom@, bottom_off as int, 4, 8, edges),
                    tmp_cell(y, x),
                    old(dst)@[dst_off + y * dst_stride + x] as int,
                    pri_strength as int,
                    sec_strength as int,
                    dir as int,
                    damping as int,
                    bd,
                )),
{
    cdef_filter_block_c(dst, dst_off, dst_stride, left, top, top_off, bottom, bottom_off, pri_strength,
        sec_strength, dir, damping, 4, 8, edges, bd)
}

/// Filters a 4 by 4 block (see `cdef_filter_block_c`).
pub fn cdef_filter_block_4x4_c_erased(
    dst: &mut Vec<u16>,
    dst_off: usize,
    dst_stride: usize,
    left: &[[u16; 2]],
    top: &[u16],
    top_off: usize,
    bottom: &[u16],
    bottom_off: usize,
    pri_strength: i32,
    sec_strength: i32,
    dir: i32,
    damping: i32,
    edges: CdefEdgeFlags,
    bd: BitDepth,
)
    requires
        pri_strength != 0 || sec_strength != 0,
        0 <= pri_strength <= 32767,
        0 <= sec_strength <= 32767,
        0 <= dir < 8,
        cdef_shifts_ok(pri_strength as int, sec_strength as int, damping as int),
        rect_fits(dst_off as int, dst_stride as int, 4, 4, old(dst).len() as int),
        padding_inputs_fit(old(dst).len() as int, dst_off as int, dst_stride as int, left.len() as int,
            top.len() as int, top_off as int, bottom.len() as int, bottom_off as int, 4, 4, edges),
    ensures
        rect_written(final(dst)@, old(dst)@, dst_off as int, dst_stride as int, 4, 4, 0,
            |y: int, x: int|
                spec_cdef_px(
                    spec_padded_block(old(dst)@, dst_off as int, dst_stride as int, left@, top@, top_off as int,
                        bottom@, bottom_off as int, 4, 4, edges),
                    tmp_cell(y, x),
                    old(dst)@[dst_off + y * dst_stride + x] as int,
                    pri_strength as int,
                    sec_strength as int,
                    dir as int,
                    damping as int,
                    bd,
                )),
{
    cdef_filter_block_c(dst, dst_off, dst_stride, left, top, top_off, bottom, bottom_off, pri_strength,
        sec_strength, dir, damping, 4, 4, edges, bd)
}

/// The running minimum of taps, started at a pixel, stays between 0 and the
/// pixel: missing taps (negative) never win.
proof fn lemma_umin_step(a: int, m: int)
    requires
        0 <= m,
    ensures
        0 <= spec_umin(a, m) <= m,
{
}

/// With both strengths, the filtered pixel lies between the smallest and the
/// largest of the pixel and its (present) taps, and that range holds the
/// pixel (for high bit depth pixels).
pub proof fn lemma_cdef_clamped(tmp: Seq<i16>, base: int, px: int, pri: int, sec: int, dir: int, damping: int, bd: BitDepth)
    requires
        pri != 0,
        sec != 0,
        0 <= px <= 32767,
        !(bd is Bpc8),
    ensures
        0 <= spec_tap_min(tmp, base, px, dir) <= px <= spec_tap_max(tmp, base, px, dir),
        spec_tap_min(tmp, base, px, dir) <= spec_cdef_px(tmp, base, px, pri, sec, dir, damping, bd) <= spec_tap_max(
            tmp,
            base,
            px,
            dir,
        ),
{
    let umin = |a: int, b: int| spec_umin(a, b);
    let umax = |a: int, b: int| spec_max(a, b);
    let t = |o: int| cdef_tap(tmp, base, o);
    assert forall|k: int, m: int| 0 <= m implies 0 <= #[trigger] fold_taps(tmp, base, dir, k, m, umin) <= m by {
        let o1 = cdef_offset(dir + 2, k);
        let o2 = cdef_offset(dir + 4, k);
        let o3 = cdef_offset(dir, k);
        lemma_umin_step(t(o1), m);
        let m1 = spec_umin(t(o1), m);
        lemma_umin_step(t(-o1), m1);
        let m2 = spec_umin(t(-o1), m1);
        lemma_umin_step(t(o2), m2);
        let m3 = spec_umin(t(o2), m2);
        lemma_umin_step(t(-o2), m3);
        let m4 = spec_umin(t(-o2), m3);
        lemma_umin_step(t(o3), m4);
        let m5 = spec_umin(t(o3), m4);
        lemma_umin_step(t(-o3), m5);
    }
    assert forall|k: int, m: int| m <= #[trigger] fold_taps(tmp, base, dir, k, m, umax) by {
    }
    let lo = spec_tap_min(tmp, base, px, dir);
    let hi = spec_tap_max(tmp, base, px, dir);
    assert(fold_taps(tmp, base, dir, 0, px, umin) <= px);
    assert(0 <= lo <= fold_taps(tmp, base, dir, 0, px, umin));
    assert(px <= fold_taps(tmp, base, dir, 0, px, umax) <= hi);
    assert(hi <= 32767) by {
        assert forall|k: int, m: int| m <= 32767 implies #[trigger] fold_taps(tmp, base, dir, k, m, umax) <= 32767 by {
        }
    }
}

} // verus!

//! Affine warped motion compensation of 8 by 8 blocks, and horizontal
//! resampling of rows for frames coded at a reduced width.
use vstd::prelude::*;
use vstd::arithmetic::power2::lemma2_to64;
use crate::bitdepth::BitDepth;
use crate::intops::{asr, spec_asr, spec_iclip};
use crate::mc::{spec_taps, spec_rnd, spec_filter_8tap, lemma_taps_ext, rnd, filter_8tap, filter_8tap_mid, lemma_h_taps, lemma_tap_bound};
use vstd::arithmetic::div_mod::{lemma_fundamental_div_mod, lemma_fundamental_div_mod_converse, lemma_mod_bound};
use crate::plane::{rect_fits, rect_written, window_fits, lemma_window_index, lemma_rect_get, write_block};

verus! {

/// The warp filters: 8 taps for each of the 193 positions, in steps of 1/64
/// pixel from -1 to 2 pixels.
pub type WarpFilters = [[i8; 8]; 193];

/// The entry of the warp filter table for the position `t` (1/65536 pixel,
/// relative to the block's sample), rounded to 1/64.
pub open spec fn warp_index(t: int) -> int {
    64 + (t + 512) / 1024
}

/// The position `base + y * sy + x * sx` selects an entry of the warp filters.
pub open spec fn warp_pos_ok(base: int, sy: int, sx: int, y: int, x: int) -> bool {
    0 <= warp_index(base + y * sy + x * sx) < 193
}

/// Every position of a `rows` by 8 grid selects an entry of the warp filters.
pub open spec fn warp_grid_ok(base: int, sy: int, sx: int, rows: int) -> bool {
    forall|y: int, x: int| 0 <= y < rows && 0 <= x < 8 ==> #[trigger] warp_pos_ok(base, sy, sx, y, x)
}

/// The taps for position `(y, x)` of the grid.
fn warp_filter_at(filters: &WarpFilters, base: i32, sy: i16, sx: i16, rows: usize, y: usize, x: usize) -> (f: [i8; 8])
    requires
        rows <= 15,
        y < rows,
        x < 8,
        warp_grid_ok(base as int, sy as int, sx as int, rows as int),
    ensures
        f == filters[warp_index(base + y * sy + x * sx)],
{
    assert(warp_pos_ok(base as int, sy as int, sx as int, 0, 0));
    assert(warp_pos_ok(base as int, sy as int, sx as int, y as int, x as int));
    let yi = y as i32;
    let xi = x as i32;
    assert(-15 * 32768 <= yi * (sy as i32) <= 15 * 32768) by (nonlinear_arith)
        requires
            0 <= yi < 15,
            -32768 <= sy <= 32767,
    ;
    assert(-8 * 32768 <= xi * (sx as i32) <= 8 * 32768) by (nonlinear_arith)
        requires
            0 <= xi < 8,
            -32768 <= sx <= 32767,
    ;
    let t = base + yi * (sy as i32) + xi * (sx as i32);
    proof {
        lemma2_to64();
    }
    let i = 64 + asr(t + 512, 10);
    filters[i as usize]
}

/// Entry `(y, x)` of the horizontal pass of an 8 by 8 warp: reference row
/// `y - 3`, filtered at the warped position, at intermediate precision.
pub open spec fn spec_warp_mid(
    src: Seq<u16>,
    off: int,
    stride: int,
    filters: WarpFilters,
    abcd: [i16; 4],
    mx: int,
    ib: int,
    y: int,
    x: int,
) -> i16 {
    let f = filters[warp_index(mx + y * abcd[1] + x * abcd[0])];
    spec_rnd(spec_filter_8tap(src, off + (y - 3) * stride + x, f, 1), (7 - ib) as nat) as i16
}

/// The vertical pass of an 8 by 8 warp at `(y, x)`, rounded by `sh` bits.
pub open spec fn spec_warp_v(
    src: Seq<u16>,
    off: int,
    stride: int,
    filters: WarpFilters,
    abcd: [i16; 4],
    mx: int,
    my: int,
    ib: int,
    y: int,
    x: int,
    sh: nat,
) -> int {
    let f = filters[warp_index(my + y * abcd[3] + x * abcd[2])];
    spec_rnd(spec_taps(f, |i: int| spec_warp_mid(src, off, stride, filters, abcd, mx, ib, y + i, x) as int), sh)
}

/// The two passes of an 8 by 8 warp: the horizontal pass into `mid` (15 rows
/// of 8), then the vertical sum at `(y, x)`.
fn warp_h_pass(
    mid: &mut Vec<i16>,
    src: &Vec<u16>,
    src_off: usize,
    src_stride: usize,
    abcd: &[i16; 4],
    mx: i32,
    filters: &WarpFilters,
    bd: BitDepth,
)
    requires
        old(mid).len() == 120,
        window_fits(src.len() as int, src_off as int, src_stride as int, -3, 12, -3, 12),
        warp_grid_ok(mx as int, abcd[1] as int, abcd[0] as int, 15),
    ensures
        final(mid).len() == 120,
        forall|y: int, x: int|
            0 <= y < 15 && 0 <= x < 8 ==> #[trigger] final(mid)@[8 * y + x] == spec_warp_mid(src@, src_off as int,
                src_stride as int, *filters, *abcd, mx as int, bd.spec_intermediate_bits(), y, x),
{
    let ib = bd.get_intermediate_bits();
    proof {
        lemma_window_index(src.len() as int, src_off as int, src_stride as int, -3, 12, -3, 12, -3, 0);
    }
    let base = src_off - 3 * src_stride;
    let ghost mid0 = mid@;
    let ghost gm = |y: int, x: int| spec_warp_mid(src@, src_off as int, src_stride as int, *filters, *abcd, mx as int, ib as int, y, x);
    let fm = |y: usize, x: usize| -> (v: i16)
        requires
            y < 15 && x < 8,
        ensures
            v == spec_warp_mid(src@, src_off as int, src_stride as int, *filters, *abcd, mx as int, ib as int, y as int, x as int),
        {
            let f = warp_filter_at(filters, mx, abcd[1], abcd[0], 15, y, x);
            proof {
                lemma_h_taps(src.len() as int, src_off as int, src_stride as int, -3, 12, 8, y - 3, x as int);
                assert(base + y * src_stride == src_off + (y - 3) * src_stride) by (nonlinear_arith)
                    requires base == src_off - 3 * src_stride;
                lemma2_to64();
            }
            rnd(filter_8tap(src, base + y * src_stride + x, &f, 1), 7 - ib) as i16
        };
    write_block(mid, 0, 8, 8, 15, fm, Ghost(gm));
    proof {
        assert forall|y: int, x: int| 0 <= y < 15 && 0 <= x < 8 implies #[trigger] mid@[8 * y + x] == gm(y, x) by {
            lemma_rect_get(mid@, mid0, 0, 8, 8, 15, gm, y, x);
        }
    }
}

/// The vertical pass sum at `(y, x)` of an 8 by 8 warp, before rounding.
fn warp_v_sum(
    mid: &Vec<i16>,
    src: &Vec<u16>,
    src_off: usize,
    src_stride: usize,
    abcd: &[i16; 4],
    mx: i32,
    my: i32,
    filters: &WarpFilters,
    bd: BitDepth,
    y: usize,
    x: usize,
) -> (r: i32)
    requires
        y < 8,
        x < 8,
        mid.len() == 120,
        warp_grid_ok(my as int, abcd[3] as int, abcd[2] as int, 8),
        forall|r: int, c: int|
            0 <= r < 15 && 0 <= c < 8 ==> #[trigger] mid@[8 * r + c] == spec_warp_mid(src@, src_off as int,
                src_stride as int, *filters, *abcd, mx as int, bd.spec_intermediate_bits(), r, c),
    ensures
        r == spec_taps(filters[warp_index(my + y * abcd[3] + x * abcd[2])],
            |i: int| spec_warp_mid(src@, src_off as int, src_stride as int, *filters, *abcd, mx as int, bd.spec_intermediate_bits(),
                y + i, x as int) as int),
        -67108864 <= r <= 67108864,
{
    let f = warp_filter_at(filters, my, abcd[3], abcd[2], 8, y, x);
    let pos = (y + 3) * 8 + x;
    let s = filter_8tap_mid(mid, pos, &f, 8);
    proof {
        let ib = bd.spec_intermediate_bits();
        let g1 = |i: int| mid@[pos + (i - 3) * 8] as int;
        let g2 = |i: int| spec_warp_mid(src@, src_off as int, src_stride as int, *filters, *abcd, mx as int, ib, y + i, x as int) as int;
        assert forall|i: int| 0 <= i < 8 implies #[trigger] g1(i) == g2(i) by {
            assert(pos + (i - 3) * 8 == 8 * (y + i) + x);
        }
        lemma_taps_ext(f, g1, g2);
    }
    s
}

/// Warps the 8 by 8 block at `src_off` of the reference into `dst` by the
/// affine step `abcd` (horizontal position steps per column and per row,
/// then vertical ones), starting from the positions `mx` and `my`.
pub fn warp_affine_8x8_rust(
    dst: &mut Vec<u16>,
    dst_off: usize,
    dst_stride: usize,
    src: &Vec<u16>,
    src_off: usize,
    src_stride: usize,
    abcd: &[i16; 4],
    mx: i32,
    my: i32,
    filters: &WarpFilters,
    bd: BitDepth,
)
    requires
        rect_fits(dst_off as int, dst_stride as int, 8, 8, old(dst).len() as int),
        window_fits(src.len() as int, src_off as int, src_stride as int, -3, 12, -3, 12),
        warp_grid_ok(mx as int, abcd[1] as int, abcd[0] as int, 15),
        warp_grid_ok(my as int, abcd[3] as int, abcd[2] as int, 8),
    ensures
        rect_written(final(dst)@, old(dst)@, dst_off as int, dst_stride as int, 8, 8, 0,
            |y: int, x: int|
                bd.spec_iclip_pixel(spec_warp_v(src@, src_off as int, src_stride as int, *filters, *abcd, mx as int, my as int,
                    bd.spec_intermediate_bits(), y, x, (7 + bd.spec_intermediate_bits()) as nat))),
{
    let ib = bd.get_intermediate_bits();
    let mut mid: Vec<i16> = vec![0i16; 120];
    warp_h_pass(&mut mid, src, src_off, src_stride, abcd, mx, filters, bd);
    let ghost g = |y: int, x: int|
        bd.spec_iclip_pixel(spec_warp_v(src@, src_off as int, src_stride as int, *filters, *abcd, mx as int, my as int,
            ib as int, y, x, (7 + ib) as nat));
    let fo = |y: usize, x: usize| -> (v: u16)
        requires
            y < 8 && x < 8,
        ensures
            v == bd.spec_iclip_pixel(spec_warp_v(src@, src_off as int, src_stride as int, *filters, *abcd, mx as int, my as int,
                ib as int, y as int, x as int, (7 + ib) as nat)),
        {
            let s = warp_v_sum(&mid, src, src_off, src_stride, abcd, mx, my, filters, bd, y, x);
            proof {
                lemma2_to64();
            }
            bd.iclip_pixel(rnd(s, 7 + ib))
        };
    write_block(dst, dst_off, dst_stride, 8, 8, fo, Ghost(g));
}

/// Warps as `warp_affine_8x8_rust` does, into the intermediate buffer `tmp`
/// (row stride `tmp_stride`), at intermediate precision less the bias.
pub fn warp_affine_8x8t_rust(
    tmp: &mut Vec<i16>,
    tmp_stride: usize,
    src: &Vec<u16>,
    src_off: usize,
    src_stride: usize,
    abcd: &[i16; 4],
    mx: i32,
    my: i32,
    filters: &WarpFilters,
    bd: BitDepth,
)
    requires
        rect_fits(0, tmp_stride as int, 8, 8, old(tmp).len() as int),
        window_fits(src.len() as int, src_off as int, src_stride as int, -3, 12, -3, 12),
        warp_grid_ok(mx as int, abcd[1] as int, abcd[0] as int, 15),
        warp_grid_ok(my as int, abcd[3] as int, abcd[2] as int, 8),
    ensures
        rect_written(final(tmp)@, old(tmp)@, 0, tmp_stride as int, 8, 8, 0,
            |y: int, x: int|
                (spec_warp_v(src@, src_off as int, src_stride as int, *filters, *abcd, mx as int, my as int,
                    bd.spec_intermediate_bits(), y, x, 7) - bd.spec_prep_bias()) as i16),
{
    let ib = bd.get_intermediate_bits();
    let bias = bd.prep_bias();
    let mut mid: Vec<i16> = vec![0i16; 120];
    warp_h_pass(&mut mid, src, src_off, src_stride, abcd, mx, filters, bd);
    let ghost g = |y: int, x: int|
        (spec_warp_v(src@, src_off as int, src_stride as int, *filters, *abcd, mx as int, my as int, ib as int, y, x, 7)
            - bd.spec_prep_bias()) as i16;
    let fo = |y: usize, x: usize| -> (v: i16)
        requires
            y < 8 && x < 8,
        ensures
            v == (spec_warp_v(src@, src_off as int, src_stride as int, *filters, *abcd, mx as int, my as int, ib as int,
                y as int, x as int, 7) - bd.spec_prep_bias()) as i16,
        {
            let s = warp_v_sum(&mid, src, src_off, src_stride, abcd, mx, my, filters, bd, y, x);
            proof {
                lemma2_to64();
            }
            (rnd(s, 7) - bias) as i16
        };
    write_block(tmp, 0, tmp_stride, 8, 8, fo, Ghost(g));
}

/// The resampling filters: 8 taps for each of the 64 phases (1/64 pixel).
pub type ResizeFilters = [[i8; 8]; 64];

/// Pixel `x` of row `y` of a resampled row: the source position
/// `mx0 + x * dx` (1/16384 pixel) gives the sample and the filter phase,
/// reads beyond the row's ends repeat its edge pixels.
pub open spec fn spec_resize_px(
    src: Seq<u16>,
    off: int,
    stride: int,
    src_w: int,
    dx: int,
    mx0: int,
    filters: ResizeFilters,
    bd: BitDepth,
    y: int,
    x: int,
) -> u16 {
    let p = mx0 + x * dx;
    let sx = -1 + p / 16384;
    let f = filters[(p % 16384) / 256];
    let px = |i: int| src[off + y * stride + spec_iclip(sx - 3 + i, 0, src_w - 1)] as int;
    bd.spec_iclip_pixel(spec_asr(-spec_taps(f, px) + 64, 7))
}

/// `p / 16384` and `p % 16384`, rounded down.
fn split_16384(p: i64) -> (r: (i64, i64))
    requires
        p > i64::MIN,
    ensures
        r.0 == p / 16384,
        r.1 == p % 16384,
        0 <= r.1 < 16384,
{
    if p >= 0 {
        (p / 16384, p % 16384)
    } else {
        let u = -p - 1;
        let q = u / 16384;
        let rm = u % 16384;
        proof {
            lemma_fundamental_div_mod(u as int, 16384);
            lemma_mod_bound(u as int, 16384);
            assert(p == 16384 * (-q - 1) + (16383 - rm));
            lemma_fundamental_div_mod_converse(p as int, 16384, -q - 1, 16383 - rm);
        }
        (-q - 1, 16383 - rm)
    }
}

/// The source pixel at column `c` of the row at `row`, the column clamped to
/// the row.
fn clamped_px(src: &Vec<u16>, row: usize, c: i64, src_w: i32) -> (r: i32)
    requires
        src_w >= 1,
        row + src_w <= src.len(),
    ensures
        r == src@[row + spec_iclip(c as int, 0, src_w - 1)],
{
    let i: i64 = if c < 0 {
        0
    } else if c > src_w as i64 - 1 {
        src_w as i64 - 1
    } else {
        c
    };
    src[row + i as usize] as i32
}

/// Resamples the `h` rows of `src_w` pixels at `src_off` of `src` to rows of
/// `dst_w` pixels at `dst_off` of `dst`, the source position starting at
/// `mx0` and advancing by `dx` (1/16384 pixel) per pixel.
pub fn resize_rust(
    dst: &mut Vec<u16>,
    dst_off: usize,
    dst_stride: usize,
    src: &Vec<u16>,
    src_off: usize,
    src_stride: usize,
    dst_w: i32,
    h: i32,
    src_w: i32,
    dx: i32,
    mx0: i32,
    filters: &ResizeFilters,
    bd: BitDepth,
)
    requires
        dst_w >= 0,
        h >= 0,
        src_w >= 1,
        0 <= mx0 < 16384,
        dst_w > 0 ==> dx <= i32::MAX - 16383,
        -0x7fff_0000 <= (mx0 + dst_w * dx) / 16384 <= 0x7fff_0000,
        rect_fits(dst_off as int, dst_stride as int, dst_w as int, h as int, old(dst).len() as int),
        h > 0 ==> window_fits(src.len() as int, src_off as int, src_stride as int, 0, h as int, 0, src_w as int),
    ensures
        rect_written(final(dst)@, old(dst)@, dst_off as int, dst_stride as int, dst_w as int, h as int, 0,
            |y: int, x: int|
                spec_resize_px(src@, src_off as int, src_stride as int, src_w as int, dx as int, mx0 as int, *filters, bd, y, x)),
{
    let w = dst_w as usize;
    let hh = h as usize;
    let ghost g = |y: int, x: int|
        spec_resize_px(src@, src_off as int, src_stride as int, src_w as int, dx as int, mx0 as int, *filters, bd, y, x);
    let f = |y: usize, x: usize| -> (v: u16)
        requires
            y < hh && x < w,
        ensures
            v == spec_resize_px(src@, src_off as int, src_stride as int, src_w as int, dx as int, mx0 as int, *filters, bd,
                y as int, x as int),
        {
            proof {
                lemma_window_index(src.len() as int, src_off as int, src_stride as int, 0, h as int, 0, src_w as int, y as int, 0);
                lemma_window_index(src.len() as int, src_off as int, src_stride as int, 0, h as int, 0, src_w as int, y as int,
                    src_w - 1);
            }
            let row = src_off + y * src_stride;
            let xi = x as i64;
            assert(-0x8000_0000 * 0x8000_0000 <= xi * (dx as i64) <= 0x8000_0000 * 0x8000_0000) by (nonlinear_arith)
                requires
                    0 <= xi < 0x8000_0000,
                    -0x8000_0000 <= dx < 0x8000_0000,
            ;
            let p = mx0 as i64 + xi * dx as i64;
            let (q, rm) = split_16384(p);
            let sx = q - 1;
            let fi = (rm / 256) as usize;
            let fl = filters[fi];
            let s0 = clamped_px(src, row, sx - 3, src_w);
            let s1 = clamped_px(src, row, sx - 2, src_w);
            let s2 = clamped_px(src, row, sx - 1, src_w);
            let s3 = clamped_px(src, row, sx, src_w);
            let s4 = clamped_px(src, row, sx + 1, src_w);
            let s5 = clamped_px(src, row, sx + 2, src_w);
            let s6 = clamped_px(src, row, sx + 3, src_w);
            let s7 = clamped_px(src, row, sx + 4, src_w);
            proof {
                lemma_tap_bound(fl[0] as int, s0 as int);
                lemma_tap_bound(fl[1] as int, s1 as int);
                lemma_tap_bound(fl[2] as int, s2 as int);
                lemma_tap_bound(fl[3] as int, s3 as int);
                lemma_tap_bound(fl[4] as int, s4 as int);
                lemma_tap_bound(fl[5] as int, s5 as int);
                lemma_tap_bound(fl[6] as int, s6 as int);
                lemma_tap_bound(fl[7] as int, s7 as int);
                let px = |i: int| src@[src_off + y * src_stride + spec_iclip(sx - 3 + i, 0, src_w - 1)] as int;
                assert(s0 == px(0) && s1 == px(1) && s2 == px(2) && s3 == px(3));
                assert(s4 == px(4) && s5 == px(5) && s6 == px(6) && s7 == px(7));
                lemma2_to64();
            }
            let sum = fl[0] as i32 * s0 + fl[1] as i32 * s1 + fl[2] as i32 * s2 + fl[3] as i32 * s3 + fl[4] as i32 * s4
                + fl[5] as i32 * s5 + fl[6] as i32 * s6 + fl[7] as i32 * s7;
            bd.iclip_pixel(asr(-sum + 64, 7))
        };
    write_block(dst, dst_off, dst_stride, w, hh, f, Ghost(g));
}

} // verus!

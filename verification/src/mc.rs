//! Motion compensation: copying and sub-pixel interpolation of reference
//! blocks (8-tap and bilinear, at the block's scale or scaled), into pixels or
//! into an intermediate buffer at higher precision.
use vstd::prelude::*;
use vstd::arithmetic::power2::{pow2, lemma_pow2_pos, lemma2_to64};
use vstd::arithmetic::div_mod::{lemma_div_is_ordered, lemma_div_pos_is_pos};
use vstd::arithmetic::mul::lemma_mul_inequality;
use crate::bitdepth::BitDepth;
use crate::intops::{spec_asr, asr, pow2_i32};
use crate::plane::{rect_fits, rect_written, lemma_rect_get, window_fits, lemma_window_index, write_block};

verus! {

/// The interpolation filter of one direction.
#[derive(Clone, Copy, PartialEq, Eq, Debug)]
pub enum Rav1dFilterMode {
    Regular8Tap,
    Smooth8Tap,
    Sharp8Tap,
    Bilinear,
}

impl Rav1dFilterMode {
    pub open spec fn spec_index(self) -> int {
        match self {
            Rav1dFilterMode::Regular8Tap => 0,
            Rav1dFilterMode::Smooth8Tap => 1,
            Rav1dFilterMode::Sharp8Tap => 2,
            Rav1dFilterMode::Bilinear => 3,
        }
    }

    pub fn index(&self) -> (r: usize)
        ensures
            r == self.spec_index(),
    {
        match self {
            Rav1dFilterMode::Regular8Tap => 0,
            Rav1dFilterMode::Smooth8Tap => 1,
            Rav1dFilterMode::Sharp8Tap => 2,
            Rav1dFilterMode::Bilinear => 3,
        }
    }
}

/// The sub-pixel filters: for each of the six filter sets (regular, smooth and
/// sharp; then the 4-tap regular and smooth variants used for blocks of at most
/// 4 pixels; then bilinear), the 8 taps of each of the 15 fractional positions.
pub type SubpelFilters = [[[i8; 8]; 15]; 6];

/// Which filter of the sub-pixel table applies at fractional position `m`
/// (sixteenths) for a block of size `d` in the filtered direction: none at
/// position 0, otherwise the filter set and the position's entry.
pub open spec fn spec_get_filter(m: int, d: int, filter_type: Rav1dFilterMode) -> Option<(int, int)> {
    if m == 0 {
        None
    } else {
        let i = if d > 4 {
            filter_type.spec_index()
        } else {
            3 + filter_type.spec_index() % 2
        };
        Some((i, m - 1))
    }
}

/// Returns the table indices of the filter for position `m` and size `d`.
/// The table holds 15 fractional positions, so `m` is at most 15.
pub fn get_filter(m: usize, d: usize, filter_type: Rav1dFilterMode) -> (r: Option<(usize, usize)>)
    requires
        m < 16,
    ensures
        r matches Some((i, j)) ==> spec_get_filter(m as int, d as int, filter_type) == Some((i as int, j as int)),
        r is None <==> spec_get_filter(m as int, d as int, filter_type) is None,
{
    if m == 0 {
        return None;
    }
    let m = m - 1;
    let t = filter_type.index();
    let i = if d > 4 {
        t
    } else {
        3 + t % 2
    };
    Some((i, m))
}

/// The taps of the filter for position `m` and size `d`, if any.
pub open spec fn spec_filter_taps(filters: SubpelFilters, m: int, d: int, filter_type: Rav1dFilterMode) -> Option<[i8; 8]> {
    match spec_get_filter(m, d, filter_type) {
        Some((i, j)) => if 0 <= i < 6 && 0 <= j < 15 {
            Some(filters[i][j])
        } else {
            None
        },
        None => None,
    }
}

fn filter_taps(filters: &SubpelFilters, m: usize, d: usize, filter_type: Rav1dFilterMode) -> (r: Option<[i8; 8]>)
    requires
        m < 16,
    ensures
        r == spec_filter_taps(*filters, m as int, d as int, filter_type),
{
    match get_filter(m, d, filter_type) {
        Some((i, j)) => Some(filters[i][j]),
        None => None,
    }
}

/// The weighted sum of 8 samples `g(0)` to `g(7)` with the taps `f`.
pub open spec fn spec_taps(f: [i8; 8], g: spec_fn(int) -> int) -> int {
    f[0] as int * g(0) + f[1] as int * g(1) + f[2] as int * g(2) + f[3] as int * g(3) + f[4] as int * g(4)
        + f[5] as int * g(5) + f[6] as int * g(6) + f[7] as int * g(7)
}

pub proof fn lemma_taps_ext(f: [i8; 8], g1: spec_fn(int) -> int, g2: spec_fn(int) -> int)
    requires
        forall|j: int| 0 <= j < 8 ==> #[trigger] g1(j) == g2(j),
    ensures
        spec_taps(f, g1) == spec_taps(f, g2),
{
    assert(g1(0) == g2(0) && g1(1) == g2(1) && g1(2) == g2(2) && g1(3) == g2(3));
    assert(g1(4) == g2(4) && g1(5) == g2(5) && g1(6) == g2(6) && g1(7) == g2(7));
}

/// The 8-tap filter at `pos` of a pixel buffer, the taps `step` apart and
/// centred between the fourth and fifth tap.
pub open spec fn spec_filter_8tap(src: Seq<u16>, pos: int, f: [i8; 8], step: int) -> int {
    spec_taps(f, |i: int| src[pos + (i - 3) * step] as int)
}

/// The 8-tap filter at `pos` of an intermediate buffer.
pub open spec fn spec_filter_8tap_mid(src: Seq<i16>, pos: int, f: [i8; 8], step: int) -> int {
    spec_taps(f, |i: int| src[pos + (i - 3) * step] as int)
}

/// `v / 2^sh` rounded to nearest, ties upwards.
pub open spec fn spec_rnd(v: int, sh: nat) -> int {
    spec_asr(v + (pow2(sh) as int) / 2, sh)
}

/// Rounding shift.
pub(crate) fn rnd(v: i32, sh: u32) -> (r: i32)
    requires
        sh < 16,
        -1000000000 <= v <= 1000000000,
    ensures
        r == spec_rnd(v as int, sh as nat),
        v >= 0 ==> 0 <= r <= v + 16384,
        v < 0 ==> v <= r <= 16384,
{
    let p = pow2_i32(sh);
    proof {
        vstd::arithmetic::power2::lemma_pow2_strictly_increases(sh as nat, 16);
        lemma2_to64();
    }
    asr(v + p / 2, sh)
}

pub(crate) proof fn lemma_tap_bound(a: int, b: int)
    by (nonlinear_arith)
    requires
        -128 <= a <= 127,
        -32768 <= b <= 65535,
    ensures
        -8388608 <= a * b <= 8388608,
{
}

pub(crate) fn filter_8tap(src: &Vec<u16>, pos: usize, f: &[i8; 8], step: usize) -> (r: i32)
    requires
        pos >= 3 * step,
        pos + 4 * step < src.len(),
    ensures
        r == spec_filter_8tap(src@, pos as int, *f, step as int),
        -67108864 <= r <= 67108864,
{
    let s0 = src[pos - 3 * step] as i32;
    let s1 = src[pos - 2 * step] as i32;
    let s2 = src[pos - step] as i32;
    let s3 = src[pos] as i32;
    let s4 = src[pos + step] as i32;
    let s5 = src[pos + 2 * step] as i32;
    let s6 = src[pos + 3 * step] as i32;
    let s7 = src[pos + 4 * step] as i32;
    proof {
        lemma_tap_bound(f[0] as int, s0 as int);
        lemma_tap_bound(f[1] as int, s1 as int);
        lemma_tap_bound(f[2] as int, s2 as int);
        lemma_tap_bound(f[3] as int, s3 as int);
        lemma_tap_bound(f[4] as int, s4 as int);
        lemma_tap_bound(f[5] as int, s5 as int);
        lemma_tap_bound(f[6] as int, s6 as int);
        lemma_tap_bound(f[7] as int, s7 as int);
    }
    f[0] as i32 * s0 + f[1] as i32 * s1 + f[2] as i32 * s2 + f[3] as i32 * s3 + f[4] as i32 * s4 + f[5] as i32 * s5
        + f[6] as i32 * s6 + f[7] as i32 * s7
}

pub(crate) fn filter_8tap_mid(src: &Vec<i16>, pos: usize, f: &[i8; 8], step: usize) -> (r: i32)
    requires
        pos >= 3 * step,
        pos + 4 * step < src.len(),
    ensures
        r == spec_filter_8tap_mid(src@, pos as int, *f, step as int),
        -67108864 <= r <= 67108864,
{
    let s0 = src[pos - 3 * step] as i32;
    let s1 = src[pos - 2 * step] as i32;
    let s2 = src[pos - step] as i32;
    let s3 = src[pos] as i32;
    let s4 = src[pos + step] as i32;
    let s5 = src[pos + 2 * step] as i32;
    let s6 = src[pos + 3 * step] as i32;
    let s7 = src[pos + 4 * step] as i32;
    proof {
        lemma_tap_bound(f[0] as int, s0 as int);
        lemma_tap_bound(f[1] as int, s1 as int);
        lemma_tap_bound(f[2] as int, s2 as int);
        lemma_tap_bound(f[3] as int, s3 as int);
        lemma_tap_bound(f[4] as int, s4 as int);
        lemma_tap_bound(f[5] as int, s5 as int);
        lemma_tap_bound(f[6] as int, s6 as int);
        lemma_tap_bound(f[7] as int, s7 as int);
    }
    f[0] as i32 * s0 + f[1] as i32 * s1 + f[2] as i32 * s2 + f[3] as i32 * s3 + f[4] as i32 * s4 + f[5] as i32 * s5
        + f[6] as i32 * s6 + f[7] as i32 * s7
}

/// Copies the `w` by `h` block at `src_off` of `src` to `dst_off` of `dst`.
pub fn put_rust(
    dst: &mut Vec<u16>,
    dst_off: usize,
    dst_stride: usize,
    src: &Vec<u16>,
    src_off: usize,
    src_stride: usize,
    w: usize,
    h: usize,
)
    requires
        rect_fits(dst_off as int, dst_stride as int, w as int, h as int, old(dst).len() as int),
        w > 0 && h > 0 ==> window_fits(src.len() as int, src_off as int, src_stride as int, 0, h as int, 0, w as int),
    ensures
        rect_written(final(dst)@, old(dst)@, dst_off as int, dst_stride as int, w as int, h as int, 0,
            |y: int, x: int| src@[src_off + y * src_stride + x]),
{
    let ghost g = |y: int, x: int| src@[src_off + y * src_stride + x];
    let f = |y: usize, x: usize| -> (v: u16)
        requires
            y < h && x < w,
        ensures
            v == src@[src_off + y * src_stride + x],
        {
            proof {
                lemma_window_index(src.len() as int, src_off as int, src_stride as int, 0, h as int, 0, w as int, y as int, x as int);
            }
            src[src_off + y * src_stride + x]
        };
    write_block(dst, dst_off, dst_stride, w, h, f, Ghost(g));
}

/// A pixel scaled to the intermediate precision, less the bias.
pub open spec fn spec_prep_px(bd: BitDepth, p: int) -> i16 {
    (p * pow2(bd.spec_intermediate_bits() as nat) - bd.spec_prep_bias()) as i16
}

/// The number of rows of `w` entries that `prep_rust` writes: `h`, or as many
/// as `tmp` holds where it is shorter.
pub open spec fn prep_rows(tmp_len: int, w: int, h: int) -> int {
    if tmp_len / w < h {
        tmp_len / w
    } else {
        h
    }
}

/// Converts the `w` by `h` block at `src_off` of `src` to the intermediate
/// precision, into the first `w * h` entries of `tmp` (row stride `w`); where
/// `tmp` is shorter, only the rows that it holds whole.
pub fn prep_rust(
    tmp: &mut Vec<i16>,
    src: &Vec<u16>,
    src_off: usize,
    src_stride: usize,
    w: usize,
    h: usize,
    bd: BitDepth,
)
    requires
        w > 0,
        prep_rows(old(tmp).len() as int, w as int, h as int) > 0 ==> window_fits(src.len() as int, src_off as int,
            src_stride as int, 0, prep_rows(old(tmp).len() as int, w as int, h as int), 0, w as int),
    ensures
        rect_written(final(tmp)@, old(tmp)@, 0, w as int, w as int, prep_rows(old(tmp).len() as int, w as int, h as int),
            0, |y: int, x: int| spec_prep_px(bd, src@[src_off + y * src_stride + x] as int)),
{
    let ghost g = |y: int, x: int| spec_prep_px(bd, src@[src_off + y * src_stride + x] as int);
    let rows = if tmp.len() / w < h {
        tmp.len() / w
    } else {
        h
    };
    proof {
        vstd::arithmetic::div_mod::lemma_fundamental_div_mod(tmp.len() as int, w as int);
        vstd::arithmetic::div_mod::lemma_mod_bound(tmp.len() as int, w as int);
        if rows > 0 {
            assert((rows - 1) * w + w <= tmp.len()) by (nonlinear_arith)
                requires
                    rows <= tmp.len() / w,
                    tmp.len() == w * (tmp.len() / w) + tmp.len() % w,
                    tmp.len() % w >= 0,
                    w > 0,
            ;
        }
    }
    let scale = pow2_i32(bd.get_intermediate_bits());
    let bias = bd.prep_bias();
    let f = |y: usize, x: usize| -> (v: i16)
        requires
            y < rows && x < w,
            scale == pow2(bd.spec_intermediate_bits() as nat),
            bias == bd.spec_prep_bias(),
        ensures
            v == spec_prep_px(bd, src@[src_off + y * src_stride + x] as int),
        {
            proof {
                lemma_window_index(src.len() as int, src_off as int, src_stride as int, 0, rows as int, 0, w as int, y as int, x as int);
                lemma2_to64();
            }
            let p = src[src_off + y * src_stride + x] as i32;
            assert(0 <= scale <= 16);
            assert(0 <= p * scale <= 65535 * 16) by (nonlinear_arith)
                requires
                    0 <= p <= 65535,
                    0 <= scale <= 16,
            ;
            (p * scale - bias) as i16
        };
    write_block(tmp, 0, w, w, rows, f, Ghost(g));
}

/// A buffer that holds `h` rows of `w` gets all of them from `prep_rust`.
proof fn lemma_prep_rows_full(tmp_len: int, w: int, h: int)
    requires
        w > 0,
        h >= 0,
        tmp_len >= 0,
        rect_fits(0, w, w, h, tmp_len),
    ensures
        prep_rows(tmp_len, w, h) == h,
{
    if h > 0 {
        assert(h * w <= tmp_len) by (nonlinear_arith)
            requires
                (h - 1) * w + w <= tmp_len,
        ;
        assert(h * w == w * h) by (nonlinear_arith);
        vstd::arithmetic::div_mod::lemma_div_is_ordered(w * h, tmp_len, w);
        vstd::arithmetic::div_mod::lemma_div_multiples_vanish(h, w);
    } else {
        vstd::arithmetic::div_mod::lemma_div_pos_is_pos(tmp_len, w);
    }
}

/// The reference window that an interpolation reads: three rows or columns
/// before the block and four after where that direction is filtered.
pub open spec fn mc_window(len: int, off: int, stride: int, w: int, h: int, hf: bool, vf: bool) -> bool {
    window_fits(
        len,
        off,
        stride,
        if vf { -3 } else { 0 },
        if vf { h + 4 } else { h },
        if hf { -3 } else { 0 },
        if hf { w + 4 } else { w },
    )
}

/// The horizontal taps around `(y, x)` of a window lie inside the buffer.
pub(crate) proof fn lemma_h_taps(len: int, off: int, stride: int, ylo: int, yhi: int, w: int, y: int, x: int)
    requires
        window_fits(len, off, stride, ylo, yhi, -3, w + 4),
        ylo <= y < yhi,
        0 <= x < w,
    ensures
        off + y * stride + x >= 3,
        off + y * stride + x + 4 < len,
{
    lemma_window_index(len, off, stride, ylo, yhi, -3, w + 4, y, x - 3);
    lemma_window_index(len, off, stride, ylo, yhi, -3, w + 4, y, x + 4);
}

/// The vertical taps around `(y, x)` of a window lie inside the buffer.
proof fn lemma_v_taps(len: int, off: int, stride: int, h: int, xlo: int, xhi: int, y: int, x: int)
    requires
        window_fits(len, off, stride, -3, h + 4, xlo, xhi),
        0 <= y < h,
        xlo <= x < xhi,
    ensures
        off + y * stride + x >= 3 * stride,
        off + y * stride + x + 4 * stride < len,
{
    lemma_window_index(len, off, stride, -3, h + 4, xlo, xhi, y - 3, x);
    lemma_window_index(len, off, stride, -3, h + 4, xlo, xhi, y + 4, x);
    assert((y - 3) * stride == y * stride - 3 * stride) by (nonlinear_arith);
    assert((y + 4) * stride == y * stride + 4 * stride) by (nonlinear_arith);
}

/// The first pass of two-dimensional interpolation: row `r` of the
/// intermediate block is reference row `r - 3`, filtered horizontally and
/// kept with `intermediate_bits` extra bits.
pub open spec fn spec_mid_8tap(src: Seq<u16>, off: int, stride: int, fh: [i8; 8], ib: int, r: int, x: int) -> i16 {
    spec_rnd(spec_filter_8tap(src, off + (r - 3) * stride + x, fh, 1), (6 - ib) as nat) as i16
}

/// The horizontal first pass of two-dimensional 8-tap interpolation: rows
/// `-3` to `h + 3` of the reference, filtered with `fh`, into the rows of
/// `mid` (row stride 128).
fn h_pass_8tap(
    mid: &mut Vec<i16>,
    src: &Vec<u16>,
    src_off: usize,
    src_stride: usize,
    w: usize,
    h: usize,
    fh: [i8; 8],
    bd: BitDepth,
)
    requires
        old(mid).len() == 128 * 135,
        0 < w <= 128,
        0 < h <= 128,
        window_fits(src.len() as int, src_off as int, src_stride as int, -3, h + 4, -3, w + 4),
    ensures
        final(mid).len() == 128 * 135,
        forall|r: int, c: int|
            0 <= r < h + 7 && 0 <= c < w ==> #[trigger] final(mid)@[128 * r + c] == spec_mid_8tap(src@, src_off as int,
                src_stride as int, fh, bd.spec_intermediate_bits(), r, c),
{
    let ib = bd.get_intermediate_bits();
    proof {
        lemma_window_index(src.len() as int, src_off as int, src_stride as int, -3, h + 4, -3, w + 4, -3, 0);
    }
    let base = src_off - 3 * src_stride;
    let ghost mid0 = mid@;
    let ghost gm = |r: int, x: int| spec_mid_8tap(src@, src_off as int, src_stride as int, fh, ib as int, r, x);
    let fm = |r: usize, x: usize| -> (v: i16)
        requires
            r < h + 7 && x < w,
        ensures
            v == spec_mid_8tap(src@, src_off as int, src_stride as int, fh, ib as int, r as int, x as int),
        {
            proof {
                lemma_h_taps(src.len() as int, src_off as int, src_stride as int, -3, h + 4, w as int, r - 3, x as int);
                assert(base + r * src_stride == src_off + (r - 3) * src_stride) by (nonlinear_arith)
                    requires base == src_off - 3 * src_stride;
                lemma2_to64();
            }
            rnd(filter_8tap(src, base + r * src_stride + x, &fh, 1), 6 - ib) as i16
        };
    write_block(mid, 0, 128, w, h + 7, fm, Ghost(gm));
    proof {
        assert forall|r: int, c: int| 0 <= r < h + 7 && 0 <= c < w implies #[trigger] mid@[128 * r + c] == spec_mid_8tap(
            src@, src_off as int, src_stride as int, fh, ib as int, r, c) by {
            lemma_rect_get(mid@, mid0, 0, 128, w as int, (h + 7) as int, gm, r, c);
        }
    }
}

/// The second, vertical pass of two-dimensional 8-tap interpolation at
/// `(y, x)`, rounded by `sh` bits.
pub open spec fn spec_hv_8tap(src: Seq<u16>, off: int, stride: int, fh: [i8; 8], fv: [i8; 8], ib: int, y: int, x: int, sh: nat) -> int {
    spec_rnd(spec_taps(fv, |j: int| spec_mid_8tap(src, off, stride, fh, ib, y + j, x) as int), sh)
}

/// Pixel `(y, x)` of the interpolated block, for the horizontal and vertical
/// filters (none at integer positions).
pub open spec fn spec_put_8tap_px(
    src: Seq<u16>,
    off: int,
    stride: int,
    fh: Option<[i8; 8]>,
    fv: Option<[i8; 8]>,
    bd: BitDepth,
    y: int,
    x: int,
) -> u16 {
    let ib = bd.spec_intermediate_bits();
    match (fh, fv) {
        (Some(fh), Some(fv)) => bd.spec_iclip_pixel(spec_hv_8tap(src, off, stride, fh, fv, ib, y, x, (6 + ib) as nat)),
        (Some(fh), None) => bd.spec_iclip_pixel(
            spec_asr(spec_filter_8tap(src, off + y * stride + x, fh, 1) + 32 + (pow2((6 - ib) as nat) as int) / 2, 6),
        ),
        (None, Some(fv)) => bd.spec_iclip_pixel(spec_rnd(spec_filter_8tap(src, off + y * stride + x, fv, stride), 6)),
        (None, None) => src[off + y * stride + x],
    }
}

/// Interpolates the `w` by `h` block at sub-pixel position `(mx, my)`
/// (sixteenths) of the reference `src` into `dst`, with the 8-tap filters of
/// the given types: horizontally, vertically, or both (horizontal pass first,
/// at intermediate precision).
pub fn put_8tap_rust(
    dst: &mut Vec<u16>,
    dst_off: usize,
    dst_stride: usize,
    src: &Vec<u16>,
    src_off: usize,
    src_stride: usize,
    w: usize,
    h: usize,
    mx: usize,
    my: usize,
    filter_type: (Rav1dFilterMode, Rav1dFilterMode),
    filters: &SubpelFilters,
    bd: BitDepth,
)
    requires
        0 < w <= 128,
        0 < h <= 128,
        mx < 16,
        my < 16,
        rect_fits(dst_off as int, dst_stride as int, w as int, h as int, old(dst).len() as int),
        mc_window(src.len() as int, src_off as int, src_stride as int, w as int, h as int, mx != 0, my != 0),
    ensures
        rect_written(final(dst)@, old(dst)@, dst_off as int, dst_stride as int, w as int, h as int, 0,
            |y: int, x: int|
                spec_put_8tap_px(src@, src_off as int, src_stride as int,
                    spec_filter_taps(*filters, mx as int, w as int, filter_type.0),
                    spec_filter_taps(*filters, my as int, h as int, filter_type.1), bd, y, x)),
{
    let ib = bd.get_intermediate_bits();
    let fh = filter_taps(filters, mx, w, filter_type.0);
    let fv = filter_taps(filters, my, h, filter_type.1);
    let ghost g = |y: int, x: int|
        spec_put_8tap_px(src@, src_off as int, src_stride as int, fh, fv, bd, y, x);
    proof {
        lemma2_to64();
    }
    match (fh, fv) {
        (Some(fh), Some(fv)) => {
            let mut mid: Vec<i16> = vec![0i16; 128 * 135];
            h_pass_8tap(&mut mid, src, src_off, src_stride, w, h, fh, bd);
            let fo = |y: usize, x: usize| -> (v: u16)
                requires
                    y < h && x < w,
                    ib == bd.spec_intermediate_bits(),
                    mid.len() == 128 * 135,
                    forall|r: int, c: int|
                        0 <= r < h + 7 && 0 <= c < w ==> #[trigger] mid@[128 * r + c] == spec_mid_8tap(src@, src_off as int,
                            src_stride as int, fh, ib as int, r, c),
                ensures
                    v == spec_put_8tap_px(src@, src_off as int, src_stride as int, Some(fh), Some(fv), bd, y as int, x as int),
                {
                    let pos = (y + 3) * 128 + x;
                    let s = filter_8tap_mid(&mid, pos, &fv, 128);
                    proof {
                        let g1 = |i: int| mid@[pos + (i - 3) * 128] as int;
                        let g2 = |j: int| spec_mid_8tap(src@, src_off as int, src_stride as int, fh, ib as int, y + j, x as int) as int;
                        assert forall|j: int| 0 <= j < 8 implies #[trigger] g1(j) == g2(j) by {
                            assert(pos + (j - 3) * 128 == 128 * (y + j) + x);
                        }
                        lemma_taps_ext(fv, g1, g2);
                        lemma2_to64();
                    }
                    bd.iclip_pixel(rnd(s, 6 + ib))
                };
            write_block(dst, dst_off, dst_stride, w, h, fo, Ghost(g));
        },
        (Some(fh), None) => {
            let irnd = 32 + pow2_i32(6 - ib) / 2;
            let fo = |y: usize, x: usize| -> (v: u16)
                requires
                    y < h && x < w,
                    ib == bd.spec_intermediate_bits(),
                    irnd == 32 + (pow2((6 - ib) as nat) as int) / 2,
                ensures
                    v == spec_put_8tap_px(src@, src_off as int, src_stride as int, Some(fh), None, bd, y as int, x as int),
                {
                    proof {
                        lemma_h_taps(src.len() as int, src_off as int, src_stride as int, 0, h as int, w as int, y as int, x as int);
                        lemma2_to64();
                    }
                    let s = filter_8tap(src, src_off + y * src_stride + x, &fh, 1);
                    bd.iclip_pixel(asr(s + irnd, 6))
                };
            write_block(dst, dst_off, dst_stride, w, h, fo, Ghost(g));
        },
        (None, Some(fv)) => {
            let fo = |y: usize, x: usize| -> (v: u16)
                requires
                    y < h && x < w,
                ensures
                    v == spec_put_8tap_px(src@, src_off as int, src_stride as int, None, Some(fv), bd, y as int, x as int),
                {
                    proof {
                        lemma_v_taps(src.len() as int, src_off as int, src_stride as int, h as int, 0, w as int, y as int, x as int);
                    }
                    let s = filter_8tap(src, src_off + y * src_stride + x, &fv, src_stride);
                    bd.iclip_pixel(rnd(s, 6))
                };
            write_block(dst, dst_off, dst_stride, w, h, fo, Ghost(g));
        },
        (None, None) => {
            put_rust(dst, dst_off, dst_stride, src, src_off, src_stride, w, h);
        },
    }
}

/// Entry `(y, x)` of the intermediate block that `prep_8tap_rust` produces.
pub open spec fn spec_prep_8tap_px(
    src: Seq<u16>,
    off: int,
    stride: int,
    fh: Option<[i8; 8]>,
    fv: Option<[i8; 8]>,
    bd: BitDepth,
    y: int,
    x: int,
) -> i16 {
    let ib = bd.spec_intermediate_bits();
    let bias = bd.spec_prep_bias();
    match (fh, fv) {
        (Some(fh), Some(fv)) => (spec_hv_8tap(src, off, stride, fh, fv, ib, y, x, 6) - bias) as i16,
        (Some(fh), None) => (spec_rnd(spec_filter_8tap(src, off + y * stride + x, fh, 1), (6 - ib) as nat) - bias) as i16,
        (None, Some(fv)) => (spec_rnd(spec_filter_8tap(src, off + y * stride + x, fv, stride), (6 - ib) as nat) - bias) as i16,
        (None, None) => spec_prep_px(bd, src[off + y * stride + x] as int),
    }
}

/// With both filters present, every entry of the two-pass result fits an
/// `i16` (a result that does not is an error).
pub open spec fn prep_8tap_fits(
    src: Seq<u16>,
    off: int,
    stride: int,
    fh: Option<[i8; 8]>,
    fv: Option<[i8; 8]>,
    bd: BitDepth,
    w: int,
    h: int,
) -> bool {
    match (fh, fv) {
        (Some(fh), Some(fv)) => forall|y: int, x: int|
            0 <= y < h && 0 <= x < w ==> -32768 <= #[trigger] spec_hv_8tap(src, off, stride, fh, fv,
                bd.spec_intermediate_bits(), y, x, 6) - bd.spec_prep_bias() <= 32767,
        _ => true,
    }
}

/// Interpolates the `w` by `h` block at sub-pixel position `(mx, my)` of the
/// reference into the intermediate buffer `tmp` (row stride `w`), at
/// intermediate precision less the bias.
pub fn prep_8tap_rust(
    tmp: &mut Vec<i16>,
    src: &Vec<u16>,
    src_off: usize,
    src_stride: usize,
    w: usize,
    h: usize,
    mx: usize,
    my: usize,
    filter_type: (Rav1dFilterMode, Rav1dFilterMode),
    filters: &SubpelFilters,
    bd: BitDepth,
)
    requires
        0 < w <= 128,
        0 < h <= 128,
        mx < 16,
        my < 16,
        rect_fits(0, w as int, w as int, h as int, old(tmp).len() as int),
        mc_window(src.len() as int, src_off as int, src_stride as int, w as int, h as int, mx != 0, my != 0),
        prep_8tap_fits(src@, src_off as int, src_stride as int, spec_filter_taps(*filters, mx as int, w as int, filter_type.0),
            spec_filter_taps(*filters, my as int, h as int, filter_type.1), bd, w as int, h as int),
    ensures
        rect_written(final(tmp)@, old(tmp)@, 0, w as int, w as int, h as int, 0,
            |y: int, x: int|
                spec_prep_8tap_px(src@, src_off as int, src_stride as int,
                    spec_filter_taps(*filters, mx as int, w as int, filter_type.0),
                    spec_filter_taps(*filters, my as int, h as int, filter_type.1), bd, y, x)),
{
    let ib = bd.get_intermediate_bits();
    let bias = bd.prep_bias();
    let fh = filter_taps(filters, mx, w, filter_type.0);
    let fv = filter_taps(filters, my, h, filter_type.1);
    let ghost g = |y: int, x: int|
        spec_prep_8tap_px(src@, src_off as int, src_stride as int, fh, fv, bd, y, x);
    proof {
        lemma2_to64();
    }
    match (fh, fv) {
        (Some(fh), Some(fv)) => {
            let mut mid: Vec<i16> = vec![0i16; 128 * 135];
            h_pass_8tap(&mut mid, src, src_off, src_stride, w, h, fh, bd);
            let fo = |y: usize, x: usize| -> (v: i16)
                requires
                    y < h && x < w,
                    ib == bd.spec_intermediate_bits(),
                    bias == bd.spec_prep_bias(),
                    mid.len() == 128 * 135,
                    forall|r: int, c: int|
                        0 <= r < h + 7 && 0 <= c < w ==> #[trigger] mid@[128 * r + c] == spec_mid_8tap(src@, src_off as int,
                            src_stride as int, fh, ib as int, r, c),
                ensures
                    v == spec_prep_8tap_px(src@, src_off as int, src_stride as int, Some(fh), Some(fv), bd, y as int, x as int),
                {
                    let pos = (y + 3) * 128 + x;
                    let s = filter_8tap_mid(&mid, pos, &fv, 128);
                    proof {
                        let g1 = |i: int| mid@[pos + (i - 3) * 128] as int;
                        let g2 = |j: int| spec_mid_8tap(src@, src_off as int, src_stride as int, fh, ib as int, y + j, x as int) as int;
                        assert forall|j: int| 0 <= j < 8 implies #[trigger] g1(j) == g2(j) by {
                            assert(pos + (j - 3) * 128 == 128 * (y + j) + x);
                        }
                        lemma_taps_ext(fv, g1, g2);
                        lemma2_to64();
                        assert(-32768 <= spec_hv_8tap(src@, src_off as int, src_stride as int, fh, fv, ib as int, y as int, x as int, 6)
                            - bias <= 32767);
                    }
                    (rnd(s, 6) - bias) as i16
                };
            write_block(tmp, 0, w, w, h, fo, Ghost(g));
        },
        (Some(fh), None) => {
            let fo = |y: usize, x: usize| -> (v: i16)
                requires
                    y < h && x < w,
                    ib == bd.spec_intermediate_bits(),
                    bias == bd.spec_prep_bias(),
                ensures
                    v == spec_prep_8tap_px(src@, src_off as int, src_stride as int, Some(fh), None, bd, y as int, x as int),
                {
                    proof {
                        lemma_h_taps(src.len() as int, src_off as int, src_stride as int, 0, h as int, w as int, y as int, x as int);
                        lemma2_to64();
                    }
                    let s = filter_8tap(src, src_off + y * src_stride + x, &fh, 1);
                    (rnd(s, 6 - ib) - bias) as i16
                };
            write_block(tmp, 0, w, w, h, fo, Ghost(g));
        },
        (None, Some(fv)) => {
            let fo = |y: usize, x: usize| -> (v: i16)
                requires
                    y < h && x < w,
                    ib == bd.spec_intermediate_bits(),
                    bias == bd.spec_prep_bias(),
                ensures
                    v == spec_prep_8tap_px(src@, src_off as int, src_stride as int, None, Some(fv), bd, y as int, x as int),
                {
                    proof {
                        lemma_v_taps(src.len() as int, src_off as int, src_stride as int, h as int, 0, w as int, y as int, x as int);
                        lemma2_to64();
                    }
                    let s = filter_8tap(src, src_off + y * src_stride + x, &fv, src_stride);
                    (rnd(s, 6 - ib) - bias) as i16
                };
            write_block(tmp, 0, w, w, h, fo, Ghost(g));
        },
        (None, None) => {
            proof {
                lemma_prep_rows_full(tmp.len() as int, w as int, h as int);
            }
            prep_rust(tmp, src, src_off, src_stride, w, h, bd);
        },
    }
}

/// The reference window of a scaled interpolation: rows and columns from `lo`
/// to the last integer position reached plus `hi - 1`, positions advancing
/// by `dx` and `dy` (1/1024 pixel) from `mx` and `my`.
pub open spec fn scaled_window(
    len: int,
    off: int,
    stride: int,
    w: int,
    h: int,
    mx: int,
    my: int,
    dx: int,
    dy: int,
    lo: int,
    hi: int,
) -> bool {
    window_fits(len, off, stride, lo, ((h - 1) * dy + my) / 1024 + hi, lo, ((w - 1) * dx + mx) / 1024 + hi)
}

/// Entry `(r, x)` of the horizontal pass of scaled 8-tap interpolation:
/// reference row `r - 3` at the column position `mx + x * dx` (1/1024 pixel),
/// filtered where the position has a fractional part, at intermediate
/// precision.
pub open spec fn spec_mid_8tap_scaled(
    src: Seq<u16>,
    off: int,
    stride: int,
    filters: SubpelFilters,
    mx: int,
    dx: int,
    w: int,
    filter_type: Rav1dFilterMode,
    ib: int,
    r: int,
    x: int,
) -> i16 {
    let p = mx + x * dx;
    let pos = off + (r - 3) * stride + p / 1024;
    match spec_filter_taps(filters, (p % 1024) / 64, w, filter_type) {
        Some(fh) => spec_rnd(spec_filter_8tap(src, pos, fh, 1), (6 - ib) as nat) as i16,
        None => (src[pos] * pow2(ib as nat)) as i16,
    }
}

/// The horizontal pass of scaled 8-tap interpolation into `mid` (row stride 128).
fn h_pass_8tap_scaled(
    mid: &mut Vec<i16>,
    src: &Vec<u16>,
    src_off: usize,
    src_stride: usize,
    w: usize,
    h: usize,
    mx: usize,
    my: usize,
    dx: usize,
    dy: usize,
    filter_type: Rav1dFilterMode,
    filters: &SubpelFilters,
    bd: BitDepth,
)
    requires
        old(mid).len() == 128 * 263,
        0 < w <= 128,
        0 < h <= 128,
        mx < 1024,
        (w - 1) * dx + mx <= usize::MAX,
        ((h - 1) * dy + my) / 1024 + 8 <= 263,
        scaled_window(src.len() as int, src_off as int, src_stride as int, w as int, h as int, mx as int, my as int,
            dx as int, dy as int, -3, 5),
    ensures
        final(mid).len() == 128 * 263,
        forall|r: int, c: int|
            0 <= r < ((h - 1) * dy + my) / 1024 + 8 && 0 <= c < w ==> #[trigger] final(mid)@[128 * r + c]
                == spec_mid_8tap_scaled(src@, src_off as int, src_stride as int, *filters, mx as int, dx as int, w as int,
                filter_type, bd.spec_intermediate_bits(), r, c),
{
    let ib = bd.get_intermediate_bits();
    let scale = pow2_i32(ib);
    let ghost xmax = ((w - 1) * dx + mx) / 1024;
    let ghost ymax = ((h - 1) * dy + my) / 1024;
    proof {
        lemma_mul_inequality(0, (h - 1) as int, dy as int);
        lemma_mul_inequality(0, (w - 1) as int, dx as int);
        lemma_div_pos_is_pos(((h - 1) * dy + my) as int, 1024);
        lemma_div_pos_is_pos(((w - 1) * dx + mx) as int, 1024);
        lemma_window_index(src.len() as int, src_off as int, src_stride as int, -3, ymax + 5, -3, xmax + 5, -3, 0);
    }
    let tmp_h = ((h - 1) * dy + my) / 1024 + 8;
    let base = src_off - 3 * src_stride;
    let ghost mid0 = mid@;
    let ghost gm = |r: int, x: int|
        spec_mid_8tap_scaled(src@, src_off as int, src_stride as int, *filters, mx as int, dx as int, w as int, filter_type,
            ib as int, r, x);
    let fm = |r: usize, x: usize| -> (v: i16)
        requires
            r < tmp_h && x < w,
        ensures
            v == spec_mid_8tap_scaled(src@, src_off as int, src_stride as int, *filters, mx as int, dx as int, w as int,
                filter_type, ib as int, r as int, x as int),
        {
            proof {
                lemma_mul_inequality(x as int, (w - 1) as int, dx as int);
                lemma_div_is_ordered((x * dx + mx) as int, ((w - 1) * dx + mx) as int, 1024);
                lemma_div_pos_is_pos((x * dx + mx) as int, 1024);
            }
            let p = mx + x * dx;
            let ioff = p / 1024;
            proof {
                lemma_h_taps(src.len() as int, src_off as int, src_stride as int, -3, ymax + 5, xmax + 1, r - 3, ioff as int);
                lemma_window_index(src.len() as int, src_off as int, src_stride as int, -3, ymax + 5, -3, xmax + 5, r - 3, ioff as int);
                assert(base + r * src_stride == src_off + (r - 3) * src_stride) by (nonlinear_arith)
                    requires base == src_off - 3 * src_stride;
                lemma2_to64();
            }
            let pos = base + r * src_stride + ioff;
            match filter_taps(filters, (p % 1024) / 64, w, filter_type) {
                Some(fh) => rnd(filter_8tap(src, pos, &fh, 1), 6 - ib) as i16,
                None => {
                    let px = src[pos] as i32;
                    assert(0 <= scale <= 16);
                    assert(0 <= px * scale <= 65535 * 16) by (nonlinear_arith)
                        requires
                            0 <= px <= 65535,
                            0 <= scale <= 16,
                    ;
                    (px * scale) as i16
                },
            }
        };
    write_block(mid, 0, 128, w, tmp_h, fm, Ghost(gm));
    proof {
        assert forall|r: int, c: int| 0 <= r < tmp_h && 0 <= c < w implies #[trigger] mid@[128 * r + c] == gm(r, c) by {
            lemma_rect_get(mid@, mid0, 0, 128, w as int, tmp_h as int, gm, r, c);
        }
    }
}

/// Pixel `(y, x)` of a scaled 8-tap interpolation: the vertical position
/// `my + y * dy` selects the rows of the horizontal pass and the filter.
pub open spec fn spec_put_8tap_scaled_px(
    src: Seq<u16>,
    off: int,
    stride: int,
    filters: SubpelFilters,
    mx: int,
    my: int,
    dx: int,
    dy: int,
    w: int,
    h: int,
    filter_type: (Rav1dFilterMode, Rav1dFilterMode),
    bd: BitDepth,
    y: int,
    x: int,
) -> u16 {
    let ib = bd.spec_intermediate_bits();
    let q = my + y * dy;
    let row = q / 1024;
    let mid = |r: int| spec_mid_8tap_scaled(src, off, stride, filters, mx, dx, w, filter_type.0, ib, r, x) as int;
    match spec_filter_taps(filters, (q % 1024) / 64, h, filter_type.1) {
        Some(fv) => bd.spec_iclip_pixel(spec_rnd(spec_taps(fv, |j: int| mid(row + j)), (6 + ib) as nat)),
        None => bd.spec_iclip_pixel(spec_rnd(mid(row + 3), ib as nat)),
    }
}

/// Entry `(y, x)` of a scaled 8-tap interpolation to intermediate precision.
pub open spec fn spec_prep_8tap_scaled_px(
    src: Seq<u16>,
    off: int,
    stride: int,
    filters: SubpelFilters,
    mx: int,
    my: int,
    dx: int,
    dy: int,
    w: int,
    h: int,
    filter_type: (Rav1dFilterMode, Rav1dFilterMode),
    bd: BitDepth,
    y: int,
    x: int,
) -> i16 {
    let ib = bd.spec_intermediate_bits();
    let q = my + y * dy;
    let row = q / 1024;
    let mid = |r: int| spec_mid_8tap_scaled(src, off, stride, filters, mx, dx, w, filter_type.0, ib, r, x) as int;
    (match spec_filter_taps(filters, (q % 1024) / 64, h, filter_type.1) {
        Some(fv) => spec_rnd(spec_taps(fv, |j: int| mid(row + j)), 6),
        None => mid(row + 3),
    } - bd.spec_prep_bias()) as i16
}

/// The vertical pass at `(y, x)` of a scaled interpolation, before rounding:
/// the filtered sum, or the centre entry where no filter applies.
fn v_pass_scaled(
    mid: &Vec<i16>,
    w: usize,
    h: usize,
    my: usize,
    dy: usize,
    filter_type: Rav1dFilterMode,
    filters: &SubpelFilters,
    y: usize,
    x: usize,
) -> (r: (Option<[i8; 8]>, i32))
    requires
        mid.len() == 128 * 263,
        0 < w <= 128,
        0 < h <= 128,
        my < 1024,
        ((h - 1) * dy + my) / 1024 + 8 <= 263,
        y < h,
        x < w,
    ensures
        r.0 == spec_filter_taps(*filters, ((my + y * dy) % 1024) / 64, h as int, filter_type),
        ({
            let row = (my + y * dy) / 1024;
            match r.0 {
                Some(fv) => r.1 == spec_taps(fv, |j: int| mid@[128 * (row + j) + x] as int),
                None => r.1 == mid@[128 * (row + 3) + x],
            }
        }),
        -67108864 <= r.1 <= 67108864,
{
    proof {
        lemma_mul_inequality(y as int, (h - 1) as int, dy as int);
        lemma_div_is_ordered((y * dy + my) as int, ((h - 1) * dy + my) as int, 1024);
        lemma_div_pos_is_pos((y * dy + my) as int, 1024);
    }
    let q = my + y * dy;
    let row = q / 1024;
    let pos = (row + 3) * 128 + x;
    let fv = filter_taps(filters, (q % 1024) / 64, h, filter_type);
    match fv {
        Some(fv) => {
            let s = filter_8tap_mid(mid, pos, &fv, 128);
            proof {
                let g1 = |i: int| mid@[pos + (i - 3) * 128] as int;
                let g2 = |j: int| mid@[128 * (row + j) + x] as int;
                assert forall|j: int| 0 <= j < 8 implies #[trigger] g1(j) == g2(j) by {
                    assert(pos + (j - 3) * 128 == 128 * (row + j) + x);
                }
                lemma_taps_ext(fv, g1, g2);
            }
            (Some(fv), s)
        },
        None => {
            assert(pos == 128 * (row + 3) + x);
            (None, mid[pos] as i32)
        },
    }
}

/// Interpolates the `w` by `h` block at position `(mx, my)` (1/1024 pixel) of
/// the reference into `dst`, the position advancing by `dx` per column and `dy`
/// per row, with the 8-tap filters of the given types.
pub fn put_8tap_scaled_rust(
    dst: &mut Vec<u16>,
    dst_off: usize,
    dst_stride: usize,
    src: &Vec<u16>,
    src_off: usize,
    src_stride: usize,
    w: usize,
    h: usize,
    mx: usize,
    my: usize,
    dx: usize,
    dy: usize,
    filter_type: (Rav1dFilterMode, Rav1dFilterMode),
    filters: &SubpelFilters,
    bd: BitDepth,
)
    requires
        0 < w <= 128,
        0 < h <= 128,
        mx < 1024,
        my < 1024,
        (w - 1) * dx + mx <= usize::MAX,
        ((h - 1) * dy + my) / 1024 + 8 <= 263,
        rect_fits(dst_off as int, dst_stride as int, w as int, h as int, old(dst).len() as int),
        scaled_window(src.len() as int, src_off as int, src_stride as int, w as int, h as int, mx as int, my as int,
            dx as int, dy as int, -3, 5),
    ensures
        rect_written(final(dst)@, old(dst)@, dst_off as int, dst_stride as int, w as int, h as int, 0,
            |y: int, x: int|
                spec_put_8tap_scaled_px(src@, src_off as int, src_stride as int, *filters, mx as int, my as int, dx as int,
                    dy as int, w as int, h as int, filter_type, bd, y, x)),
{
    let ib = bd.get_intermediate_bits();
    let mut mid: Vec<i16> = vec![0i16; 128 * 263];
    h_pass_8tap_scaled(&mut mid, src, src_off, src_stride, w, h, mx, my, dx, dy, filter_type.0, filters, bd);
    let ghost g = |y: int, x: int|
        spec_put_8tap_scaled_px(src@, src_off as int, src_stride as int, *filters, mx as int, my as int, dx as int,
            dy as int, w as int, h as int, filter_type, bd, y, x);
    let fo = |y: usize, x: usize| -> (v: u16)
        requires
            y < h && x < w,
        ensures
            v == spec_put_8tap_scaled_px(src@, src_off as int, src_stride as int, *filters, mx as int, my as int, dx as int,
                dy as int, w as int, h as int, filter_type, bd, y as int, x as int),
        {
            let (fv, s) = v_pass_scaled(&mid, w, h, my, dy, filter_type.1, filters, y, x);
            proof {
                lemma_mul_inequality(y as int, (h - 1) as int, dy as int);
                lemma_div_is_ordered((y * dy + my) as int, ((h - 1) * dy + my) as int, 1024);
                lemma_div_pos_is_pos((y * dy + my) as int, 1024);
                let row = (my + y * dy) / 1024;
                let m = |r: int| spec_mid_8tap_scaled(src@, src_off as int, src_stride as int, *filters, mx as int, dx as int,
                    w as int, filter_type.0, ib as int, r, x as int) as int;
                match fv {
                    Some(fv) => {
                        lemma_taps_ext(fv, |j: int| mid@[128 * (row + j) + x] as int, |j: int| m(row + j));
                    },
                    None => {},
                }
                lemma2_to64();
            }
            match fv {
                Some(_) => bd.iclip_pixel(rnd(s, 6 + ib)),
                None => bd.iclip_pixel(rnd(s, ib)),
            }
        };
    write_block(dst, dst_off, dst_stride, w, h, fo, Ghost(g));
}

/// Interpolates as `put_8tap_scaled_rust` does, into the intermediate buffer
/// `tmp` (row stride `w`), at intermediate precision less the bias.
pub fn prep_8tap_scaled_rust(
    tmp: &mut Vec<i16>,
    src: &Vec<u16>,
    src_off: usize,
    src_stride: usize,
    w: usize,
    h: usize,
    mx: usize,
    my: usize,
    dx: usize,
    dy: usize,
    filter_type: (Rav1dFilterMode, Rav1dFilterMode),
    filters: &SubpelFilters,
    bd: BitDepth,
)
    requires
        0 < w <= 128,
        0 < h <= 128,
        mx < 1024,
        my < 1024,
        (w - 1) * dx + mx <= usize::MAX,
        ((h - 1) * dy + my) / 1024 + 8 <= 263,
        rect_fits(0, w as int, w as int, h as int, old(tmp).len() as int),
        scaled_window(src.len() as int, src_off as int, src_stride as int, w as int, h as int, mx as int, my as int,
            dx as int, dy as int, -3, 5),
    ensures
        rect_written(final(tmp)@, old(tmp)@, 0, w as int, w as int, h as int, 0,
            |y: int, x: int|
                spec_prep_8tap_scaled_px(src@, src_off as int, src_stride as int, *filters, mx as int, my as int, dx as int,
                    dy as int, w as int, h as int, filter_type, bd, y, x)),
{
    let ib = bd.get_intermediate_bits();
    let bias = bd.prep_bias();
    let mut mid: Vec<i16> = vec![0i16; 128 * 263];
    h_pass_8tap_scaled(&mut mid, src, src_off, src_stride, w, h, mx, my, dx, dy, filter_type.0, filters, bd);
    let ghost g = |y: int, x: int|
        spec_prep_8tap_scaled_px(src@, src_off as int, src_stride as int, *filters, mx as int, my as int, dx as int,
            dy as int, w as int, h as int, filter_type, bd, y, x);
    let fo = |y: usize, x: usize| -> (v: i16)
        requires
            y < h && x < w,
        ensures
            v == spec_prep_8tap_scaled_px(src@, src_off as int, src_stride as int, *filters, mx as int, my as int, dx as int,
                dy as int, w as int, h as int, filter_type, bd, y as int, x as int),
        {
            let (fv, s) = v_pass_scaled(&mid, w, h, my, dy, filter_type.1, filters, y, x);
            proof {
                lemma_mul_inequality(y as int, (h - 1) as int, dy as int);
                lemma_div_is_ordered((y * dy + my) as int, ((h - 1) * dy + my) as int, 1024);
                lemma_div_pos_is_pos((y * dy + my) as int, 1024);
                let row = (my + y * dy) / 1024;
                let m = |r: int| spec_mid_8tap_scaled(src@, src_off as int, src_stride as int, *filters, mx as int, dx as int,
                    w as int, filter_type.0, ib as int, r, x as int) as int;
                match fv {
                    Some(fv) => {
                        lemma_taps_ext(fv, |j: int| mid@[128 * (row + j) + x] as int, |j: int| m(row + j));
                    },
                    None => {},
                }
                lemma2_to64();
            }
            let v = match fv {
                Some(_) => rnd(s, 6),
                None => s,
            };
            (v - bias) as i16
        };
    write_block(tmp, 0, w, w, h, fo, Ghost(g));
}

/// Bilinear interpolation between `a` and `b` at position `m` (sixteenths).
pub open spec fn spec_bilin(a: int, b: int, m: int) -> int {
    16 * a + m * (b - a)
}

fn bilin(a: i32, b: i32, m: usize) -> (r: i32)
    requires
        -65536 <= a <= 65536,
        -65536 <= b <= 65536,
        m < 16,
    ensures
        r == spec_bilin(a as int, b as int, m as int),
        -4194304 <= r <= 4194304,
{
    let mi = m as i32;
    assert(-15 * 131072 <= mi * (b - a) <= 15 * 131072) by (nonlinear_arith)
        requires
            0 <= mi < 16,
            -131072 <= b - a <= 131072,
    ;
    16 * a + mi * (b - a)
}

/// Entry `(r, x)` of the horizontal pass of two-dimensional bilinear
/// interpolation at intermediate precision.
pub open spec fn spec_mid_bilin(src: Seq<u16>, off: int, stride: int, mx: int, ib: int, r: int, x: int) -> i16 {
    let pos = off + r * stride + x;
    spec_rnd(spec_bilin(src[pos] as int, src[pos + 1] as int, mx), (4 - ib) as nat) as i16
}

/// The horizontal pass of two-dimensional bilinear interpolation: rows `0` to
/// `h` of the reference into `mid` (row stride 128).
fn h_pass_bilin(mid: &mut Vec<i16>, src: &Vec<u16>, src_off: usize, src_stride: usize, w: usize, h: usize, mx: usize, bd: BitDepth)
    requires
        old(mid).len() == 128 * 129,
        0 < w <= 128,
        0 < h <= 128,
        mx < 16,
        window_fits(src.len() as int, src_off as int, src_stride as int, 0, h + 1, 0, w + 1),
    ensures
        final(mid).len() == 128 * 129,
        forall|r: int, c: int|
            0 <= r < h + 1 && 0 <= c < w ==> #[trigger] final(mid)@[128 * r + c] == spec_mid_bilin(src@, src_off as int,
                src_stride as int, mx as int, bd.spec_intermediate_bits(), r, c),
{
    let ib = bd.get_intermediate_bits();
    let ghost mid0 = mid@;
    let ghost gm = |r: int, x: int| spec_mid_bilin(src@, src_off as int, src_stride as int, mx as int, ib as int, r, x);
    let fm = |r: usize, x: usize| -> (v: i16)
        requires
            r < h + 1 && x < w,
        ensures
            v == spec_mid_bilin(src@, src_off as int, src_stride as int, mx as int, ib as int, r as int, x as int),
        {
            proof {
                lemma_window_index(src.len() as int, src_off as int, src_stride as int, 0, h + 1, 0, w + 1, r as int, x + 1);
                lemma2_to64();
            }
            let pos = src_off + r * src_stride + x;
            rnd(bilin(src[pos] as i32, src[pos + 1] as i32, mx), 4 - ib) as i16
        };
    write_block(mid, 0, 128, w, h + 1, fm, Ghost(gm));
    proof {
        assert forall|r: int, c: int| 0 <= r < h + 1 && 0 <= c < w implies #[trigger] mid@[128 * r + c] == gm(r, c) by {
            lemma_rect_get(mid@, mid0, 0, 128, w as int, (h + 1) as int, gm, r, c);
        }
    }
}

/// The reference window that a bilinear interpolation reads: one column more
/// where it filters horizontally, one row more where it filters vertically.
pub open spec fn bilin_window(len: int, off: int, stride: int, w: int, h: int, hf: bool, vf: bool) -> bool {
    window_fits(len, off, stride, 0, if vf { h + 1 } else { h }, 0, if hf { w + 1 } else { w })
}

/// Pixel `(y, x)` of the bilinear interpolation at `(mx, my)` (sixteenths).
pub open spec fn spec_put_bilin_px(src: Seq<u16>, off: int, stride: int, mx: int, my: int, bd: BitDepth, y: int, x: int) -> u16 {
    let ib = bd.spec_intermediate_bits();
    let pos = off + y * stride + x;
    if mx != 0 {
        if my != 0 {
            let mid = |r: int| spec_mid_bilin(src, off, stride, mx, ib, r, x) as int;
            bd.spec_iclip_pixel(spec_rnd(spec_bilin(mid(y), mid(y + 1), my), (4 + ib) as nat))
        } else {
            bd.spec_iclip_pixel(
                spec_rnd(spec_rnd(spec_bilin(src[pos] as int, src[pos + 1] as int, mx), (4 - ib) as nat), ib as nat),
            )
        }
    } else if my != 0 {
        bd.spec_iclip_pixel(spec_rnd(spec_bilin(src[pos] as int, src[pos + stride] as int, my), 4))
    } else {
        src[pos]
    }
}

/// Entry `(y, x)` of the bilinear interpolation at `(mx, my)` to intermediate
/// precision, less the bias.
pub open spec fn spec_prep_bilin_px(src: Seq<u16>, off: int, stride: int, mx: int, my: int, bd: BitDepth, y: int, x: int) -> i16 {
    let ib = bd.spec_intermediate_bits();
    let bias = bd.spec_prep_bias();
    let pos = off + y * stride + x;
    if mx != 0 {
        if my != 0 {
            let mid = |r: int| spec_mid_bilin(src, off, stride, mx, ib, r, x) as int;
            (spec_rnd(spec_bilin(mid(y), mid(y + 1), my), 4) - bias) as i16
        } else {
            (spec_rnd(spec_bilin(src[pos] as int, src[pos + 1] as int, mx), (4 - ib) as nat) - bias) as i16
        }
    } else if my != 0 {
        (spec_rnd(spec_bilin(src[pos] as int, src[pos + stride] as int, my), (4 - ib) as nat) - bias) as i16
    } else {
        spec_prep_px(bd, src[pos] as int)
    }
}

/// Interpolates the `w` by `h` block at sub-pixel position `(mx, my)`
/// (sixteenths) of the reference into `dst` bilinearly.
pub fn put_bilin_rust(
    dst: &mut Vec<u16>,
    dst_off: usize,
    dst_stride: usize,
    src: &Vec<u16>,
    src_off: usize,
    src_stride: usize,
    w: usize,
    h: usize,
    mx: usize,
    my: usize,
    bd: BitDepth,
)
    requires
        0 < w <= 128,
        0 < h <= 128,
        mx < 16,
        my < 16,
        rect_fits(dst_off as int, dst_stride as int, w as int, h as int, old(dst).len() as int),
        bilin_window(src.len() as int, src_off as int, src_stride as int, w as int, h as int, mx != 0, my != 0),
    ensures
        rect_written(final(dst)@, old(dst)@, dst_off as int, dst_stride as int, w as int, h as int, 0,
            |y: int, x: int| spec_put_bilin_px(src@, src_off as int, src_stride as int, mx as int, my as int, bd, y, x)),
{
    let ib = bd.get_intermediate_bits();
    let ghost g = |y: int, x: int| spec_put_bilin_px(src@, src_off as int, src_stride as int, mx as int, my as int, bd, y, x);
    proof {
        lemma2_to64();
    }
    if mx != 0 {
        if my != 0 {
            let mut mid: Vec<i16> = vec![0i16; 128 * 129];
            h_pass_bilin(&mut mid, src, src_off, src_stride, w, h, mx, bd);
            let fo = |y: usize, x: usize| -> (v: u16)
                requires
                    y < h && x < w,
                    ib == bd.spec_intermediate_bits(),
                    mid.len() == 128 * 129,
                    forall|r: int, c: int|
                        0 <= r < h + 1 && 0 <= c < w ==> #[trigger] mid@[128 * r + c] == spec_mid_bilin(src@, src_off as int,
                            src_stride as int, mx as int, ib as int, r, c),
                ensures
                    v == spec_put_bilin_px(src@, src_off as int, src_stride as int, mx as int, my as int, bd, y as int, x as int),
                {
                    assert(mid@[128 * y + x] == spec_mid_bilin(src@, src_off as int, src_stride as int, mx as int, ib as int, y as int, x as int));
                    assert(mid@[128 * (y + 1) + x] == spec_mid_bilin(src@, src_off as int, src_stride as int, mx as int, ib as int, y + 1, x as int));
                    let s = bilin(mid[y * 128 + x] as i32, mid[(y + 1) * 128 + x] as i32, my);
                    proof {
                        lemma2_to64();
                    }
                    bd.iclip_pixel(rnd(s, 4 + ib))
                };
            write_block(dst, dst_off, dst_stride, w, h, fo, Ghost(g));
        } else {
            let fo = |y: usize, x: usize| -> (v: u16)
                requires
                    y < h && x < w,
                    ib == bd.spec_intermediate_bits(),
                ensures
                    v == spec_put_bilin_px(src@, src_off as int, src_stride as int, mx as int, my as int, bd, y as int, x as int),
                {
                    proof {
                        lemma_window_index(src.len() as int, src_off as int, src_stride as int, 0, h as int, 0, w + 1, y as int, x + 1);
                        lemma2_to64();
                    }
                    let pos = src_off + y * src_stride + x;
                    let px = rnd(bilin(src[pos] as i32, src[pos + 1] as i32, mx), 4 - ib);
                    bd.iclip_pixel(rnd(px, ib))
                };
            write_block(dst, dst_off, dst_stride, w, h, fo, Ghost(g));
        }
    } else if my != 0 {
        let fo = |y: usize, x: usize| -> (v: u16)
            requires
                y < h && x < w,
            ensures
                v == spec_put_bilin_px(src@, src_off as int, src_stride as int, mx as int, my as int, bd, y as int, x as int),
            {
                proof {
                    lemma_window_index(src.len() as int, src_off as int, src_stride as int, 0, h + 1, 0, w as int, y + 1, x as int);
                    assert((y + 1) * src_stride == y * src_stride + src_stride) by (nonlinear_arith);
                    lemma2_to64();
                }
                let pos = src_off + y * src_stride + x;
                bd.iclip_pixel(rnd(bilin(src[pos] as i32, src[pos + src_stride] as i32, my), 4))
            };
        write_block(dst, dst_off, dst_stride, w, h, fo, Ghost(g));
    } else {
        put_rust(dst, dst_off, dst_stride, src, src_off, src_stride, w, h);
    }
}

/// Interpolates the `w` by `h` block at sub-pixel position `(mx, my)` of the
/// reference bilinearly into the intermediate buffer `tmp` (row stride `w`).
pub fn prep_bilin_rust(
    tmp: &mut Vec<i16>,
    src: &Vec<u16>,
    src_off: usize,
    src_stride: usize,
    w: usize,
    h: usize,
    mx: usize,
    my: usize,
    bd: BitDepth,
)
    requires
        0 < w <= 128,
        0 < h <= 128,
        mx < 16,
        my < 16,
        rect_fits(0, w as int, w as int, h as int, old(tmp).len() as int),
        bilin_window(src.len() as int, src_off as int, src_stride as int, w as int, h as int, mx != 0, my != 0),
    ensures
        rect_written(final(tmp)@, old(tmp)@, 0, w as int, w as int, h as int, 0,
            |y: int, x: int| spec_prep_bilin_px(src@, src_off as int, src_stride as int, mx as int, my as int, bd, y, x)),
{
    let ib = bd.get_intermediate_bits();
    let bias = bd.prep_bias();
    let ghost g = |y: int, x: int| spec_prep_bilin_px(src@, src_off as int, src_stride as int, mx as int, my as int, bd, y, x);
    proof {
        lemma2_to64();
    }
    if mx != 0 {
        if my != 0 {
            let mut mid: Vec<i16> = vec![0i16; 128 * 129];
            h_pass_bilin(&mut mid, src, src_off, src_stride, w, h, mx, bd);
            let fo = |y: usize, x: usize| -> (v: i16)
                requires
                    y < h && x < w,
                    ib == bd.spec_intermediate_bits(),
                    bias == bd.spec_prep_bias(),
                    mid.len() == 128 * 129,
                    forall|r: int, c: int|
                        0 <= r < h + 1 && 0 <= c < w ==> #[trigger] mid@[128 * r + c] == spec_mid_bilin(src@, src_off as int,
                            src_stride as int, mx as int, ib as int, r, c),
                ensures
                    v == spec_prep_bilin_px(src@, src_off as int, src_stride as int, mx as int, my as int, bd, y as int, x as int),
                {
                    assert(mid@[128 * y + x] == spec_mid_bilin(src@, src_off as int, src_stride as int, mx as int, ib as int, y as int, x as int));
                    assert(mid@[128 * (y + 1) + x] == spec_mid_bilin(src@, src_off as int, src_stride as int, mx as int, ib as int, y + 1, x as int));
                    let s = bilin(mid[y * 128 + x] as i32, mid[(y + 1) * 128 + x] as i32, my);
                    proof {
                        lemma2_to64();
                    }
                    (rnd(s, 4) - bias) as i16
                };
            write_block(tmp, 0, w, w, h, fo, Ghost(g));
        } else {
            let fo = |y: usize, x: usize| -> (v: i16)
                requires
                    y < h && x < w,
                    ib == bd.spec_intermediate_bits(),
                    bias == bd.spec_prep_bias(),
                ensures
                    v == spec_prep_bilin_px(src@, src_off as int, src_stride as int, mx as int, my as int, bd, y as int, x as int),
                {
                    proof {
                        lemma_window_index(src.len() as int, src_off as int, src_stride as int, 0, h as int, 0, w + 1, y as int, x + 1);
                        lemma2_to64();
                    }
                    let pos = src_off + y * src_stride + x;
                    (rnd(bilin(src[pos] as i32, src[pos + 1] as i32, mx), 4 - ib) - bias) as i16
                };
            write_block(tmp, 0, w, w, h, fo, Ghost(g));
        }
    } else if my != 0 {
        let fo = |y: usize, x: usize| -> (v: i16)
            requires
                y < h && x < w,
                ib == bd.spec_intermediate_bits(),
                bias == bd.spec_prep_bias(),
            ensures
                v == spec_prep_bilin_px(src@, src_off as int, src_stride as int, mx as int, my as int, bd, y as int, x as int),
            {
                proof {
                    lemma_window_index(src.len() as int, src_off as int, src_stride as int, 0, h + 1, 0, w as int, y + 1, x as int);
                    assert((y + 1) * src_stride == y * src_stride + src_stride) by (nonlinear_arith);
                    lemma2_to64();
                }
                let pos = src_off + y * src_stride + x;
                (rnd(bilin(src[pos] as i32, src[pos + src_stride] as i32, my), 4 - ib) - bias) as i16
            };
        write_block(tmp, 0, w, w, h, fo, Ghost(g));
    } else {
        proof {
            lemma_prep_rows_full(tmp.len() as int, w as int, h as int);
        }
        prep_rust(tmp, src, src_off, src_stride, w, h, bd);
    }
}

/// Entry `(r, x)` of the horizontal pass of scaled bilinear interpolation:
/// reference row `r` at the column position `mx + x * dx` (1/1024 pixel).
pub open spec fn spec_mid_bilin_scaled(src: Seq<u16>, off: int, stride: int, mx: int, dx: int, ib: int, r: int, x: int) -> i16 {
    let p = mx + x * dx;
    let pos = off + r * stride + p / 1024;
    spec_rnd(spec_bilin(src[pos] as int, src[pos + 1] as int, (p % 1024) / 64), (4 - ib) as nat) as i16
}

/// The horizontal pass of scaled bilinear interpolation into `mid` (row
/// stride 128).
fn h_pass_bilin_scaled(
    mid: &mut Vec<i16>,
    src: &Vec<u16>,
    src_off: usize,
    src_stride: usize,
    w: usize,
    h: usize,
    mx: usize,
    my: usize,
    dx: usize,
    dy: usize,
    bd: BitDepth,
)
    requires
        old(mid).len() == 128 * 257,
        0 < w <= 128,
        0 < h <= 128,
        mx < 1024,
        (w - 1) * dx + mx <= usize::MAX,
        ((h - 1) * dy + my) / 1024 + 2 <= 257,
        scaled_window(src.len() as int, src_off as int, src_stride as int, w as int, h as int, mx as int, my as int,
            dx as int, dy as int, 0, 2),
    ensures
        final(mid).len() == 128 * 257,
        forall|r: int, c: int|
            0 <= r < ((h - 1) * dy + my) / 1024 + 2 && 0 <= c < w ==> #[trigger] final(mid)@[128 * r + c]
                == spec_mid_bilin_scaled(src@, src_off as int, src_stride as int, mx as int, dx as int,
                bd.spec_intermediate_bits(), r, c),
{
    let ib = bd.get_intermediate_bits();
    let ghost xmax = ((w - 1) * dx + mx) / 1024;
    let ghost ymax = ((h - 1) * dy + my) / 1024;
    proof {
        lemma_mul_inequality(0, (h - 1) as int, dy as int);
        lemma_mul_inequality(0, (w - 1) as int, dx as int);
        lemma_div_pos_is_pos(((h - 1) * dy + my) as int, 1024);
        lemma_div_pos_is_pos(((w - 1) * dx + mx) as int, 1024);
    }
    let tmp_h = ((h - 1) * dy + my) / 1024 + 2;
    let ghost mid0 = mid@;
    let ghost gm = |r: int, x: int| spec_mid_bilin_scaled(src@, src_off as int, src_stride as int, mx as int, dx as int, ib as int, r, x);
    let fm = |r: usize, x: usize| -> (v: i16)
        requires
            r < tmp_h && x < w,
        ensures
            v == spec_mid_bilin_scaled(src@, src_off as int, src_stride as int, mx as int, dx as int, ib as int, r as int, x as int),
        {
            proof {
                lemma_mul_inequality(x as int, (w - 1) as int, dx as int);
                lemma_div_is_ordered((x * dx + mx) as int, ((w - 1) * dx + mx) as int, 1024);
                lemma_div_pos_is_pos((x * dx + mx) as int, 1024);
            }
            let p = mx + x * dx;
            let ioff = p / 1024;
            proof {
                lemma_window_index(src.len() as int, src_off as int, src_stride as int, 0, ymax + 2, 0, xmax + 2, r as int, ioff + 1);
                lemma2_to64();
            }
            let pos = src_off + r * src_stride + ioff;
            rnd(bilin(src[pos] as i32, src[pos + 1] as i32, (p % 1024) / 64), 4 - ib) as i16
        };
    write_block(mid, 0, 128, w, tmp_h, fm, Ghost(gm));
    proof {
        assert forall|r: int, c: int| 0 <= r < tmp_h && 0 <= c < w implies #[trigger] mid@[128 * r + c] == gm(r, c) by {
            lemma_rect_get(mid@, mid0, 0, 128, w as int, tmp_h as int, gm, r, c);
        }
    }
}

/// The vertical pass at `(y, x)` of scaled bilinear interpolation, before
/// rounding.
fn v_pass_bilin_scaled(mid: &Vec<i16>, w: usize, h: usize, my: usize, dy: usize, y: usize, x: usize) -> (r: i32)
    requires
        mid.len() == 128 * 257,
        0 < w <= 128,
        0 < h <= 128,
        my < 1024,
        ((h - 1) * dy + my) / 1024 + 2 <= 257,
        y < h,
        x < w,
    ensures
        ({
            let q = my + y * dy;
            let row = q / 1024;
            r == spec_bilin(mid@[128 * row + x] as int, mid@[128 * (row + 1) + x] as int, (q % 1024) / 64)
        }),
        -4194304 <= r <= 4194304,
{
    proof {
        lemma_mul_inequality(y as int, (h - 1) as int, dy as int);
        lemma_div_is_ordered((y * dy + my) as int, ((h - 1) * dy + my) as int, 1024);
        lemma_div_pos_is_pos((y * dy + my) as int, 1024);
    }
    let q = my + y * dy;
    let row = q / 1024;
    bilin(mid[row * 128 + x] as i32, mid[(row + 1) * 128 + x] as i32, (q % 1024) / 64)
}

/// Pixel `(y, x)` of the scaled bilinear interpolation.
pub open spec fn spec_put_bilin_scaled_px(
    src: Seq<u16>,
    off: int,
    stride: int,
    mx: int,
    my: int,
    dx: int,
    dy: int,
    bd: BitDepth,
    y: int,
    x: int,
) -> u16 {
    let ib = bd.spec_intermediate_bits();
    let q = my + y * dy;
    let row = q / 1024;
    let mid = |r: int| spec_mid_bilin_scaled(src, off, stride, mx, dx, ib, r, x) as int;
    bd.spec_iclip_pixel(spec_rnd(spec_bilin(mid(row), mid(row + 1), (q % 1024) / 64), (4 + ib) as nat))
}

/// Entry `(y, x)` of the scaled bilinear interpolation to intermediate
/// precision, less the bias.
pub open spec fn spec_prep_bilin_scaled_px(
    src: Seq<u16>,
    off: int,
    stride: int,
    mx: int,
    my: int,
    dx: int,
    dy: int,
    bd: BitDepth,
    y: int,
    x: int,
) -> i16 {
    let ib = bd.spec_intermediate_bits();
    let q = my + y * dy;
    let row = q / 1024;
    let mid = |r: int| spec_mid_bilin_scaled(src, off, stride, mx, dx, ib, r, x) as int;
    (spec_rnd(spec_bilin(mid(row), mid(row + 1), (q % 1024) / 64), 4) - bd.spec_prep_bias()) as i16
}

/// Interpolates the `w` by `h` block at position `(mx, my)` (1/1024 pixel) of
/// the reference into `dst` bilinearly, the position advancing by `dx` per
/// column and `dy` per row.
pub fn put_bilin_scaled_rust(
    dst: &mut Vec<u16>,
    dst_off: usize,
    dst_stride: usize,
    src: &Vec<u16>,
    src_off: usize,
    src_stride: usize,
    w: usize,
    h: usize,
    mx: usize,
    my: usize,
    dx: usize,
    dy: usize,
    bd: BitDepth,
)
    requires
        0 < w <= 128,
        0 < h <= 128,
        mx < 1024,
        my < 1024,
        (w - 1) * dx + mx <= usize::MAX,
        ((h - 1) * dy + my) / 1024 + 2 <= 257,
        rect_fits(dst_off as int, dst_stride as int, w as int, h as int, old(dst).len() as int),
        scaled_window(src.len() as int, src_off as int, src_stride as int, w as int, h as int, mx as int, my as int,
            dx as int, dy as int, 0, 2),
    ensures
        rect_written(final(dst)@, old(dst)@, dst_off as int, dst_stride as int, w as int, h as int, 0,
            |y: int, x: int|
                spec_put_bilin_scaled_px(src@, src_off as int, src_stride as int, mx as int, my as int, dx as int, dy as int,
                    bd, y, x)),
{
    let ib = bd.get_intermediate_bits();
    let mut mid: Vec<i16> = vec![0i16; 128 * 257];
    h_pass_bilin_scaled(&mut mid, src, src_off, src_stride, w, h, mx, my, dx, dy, bd);
    let ghost g = |y: int, x: int|
        spec_put_bilin_scaled_px(src@, src_off as int, src_stride as int, mx as int, my as int, dx as int, dy as int, bd, y, x);
    let fo = |y: usize, x: usize| -> (v: u16)
        requires
            y < h && x < w,
        ensures
            v == spec_put_bilin_scaled_px(src@, src_off as int, src_stride as int, mx as int, my as int, dx as int, dy as int,
                bd, y as int, x as int),
        {
            let s = v_pass_bilin_scaled(&mid, w, h, my, dy, y, x);
            proof {
                lemma_mul_inequality(y as int, (h - 1) as int, dy as int);
                lemma_div_is_ordered((y * dy + my) as int, ((h - 1) * dy + my) as int, 1024);
                lemma_div_pos_is_pos((y * dy + my) as int, 1024);
                lemma2_to64();
            }
            bd.iclip_pixel(rnd(s, 4 + ib))
        };
    write_block(dst, dst_off, dst_stride, w, h, fo, Ghost(g));
}

/// Interpolates as `put_bilin_scaled_rust` does, into the intermediate buffer
/// `tmp` (row stride `w`), at intermediate precision less the bias.
pub fn prep_bilin_scaled_rust(
    tmp: &mut Vec<i16>,
    src: &Vec<u16>,
    src_off: usize,
    src_stride: usize,
    w: usize,
    h: usize,
    mx: usize,
    my: usize,
    dx: usize,
    dy: usize,
    bd: BitDepth,
)
    requires
        0 < w <= 128,
        0 < h <= 128,
        mx < 1024,
        my < 1024,
        (w - 1) * dx + mx <= usize::MAX,
        ((h - 1) * dy + my) / 1024 + 2 <= 257,
        rect_fits(0, w as int, w as int, h as int, old(tmp).len() as int),
        scaled_window(src.len() as int, src_off as int, src_stride as int, w as int, h as int, mx as int, my as int,
            dx as int, dy as int, 0, 2),
    ensures
        rect_written(final(tmp)@, old(tmp)@, 0, w as int, w as int, h as int, 0,
            |y: int, x: int|
                spec_prep_bilin_scaled_px(src@, src_off as int, src_stride as int, mx as int, my as int, dx as int, dy as int,
                    bd, y, x)),
{
    let bias = bd.prep_bias();
    let mut mid: Vec<i16> = vec![0i16; 128 * 257];
    h_pass_bilin_scaled(&mut mid, src, src_off, src_stride, w, h, mx, my, dx, dy, bd);
    let ghost g = |y: int, x: int|
        spec_prep_bilin_scaled_px(src@, src_off as int, src_stride as int, mx as int, my as int, dx as int, dy as int, bd, y, x);
    let fo = |y: usize, x: usize| -> (v: i16)
        requires
            y < h && x < w,
        ensures
            v == spec_prep_bilin_scaled_px(src@, src_off as int, src_stride as int, mx as int, my as int, dx as int, dy as int,
                bd, y as int, x as int),
        {
            let s = v_pass_bilin_scaled(&mid, w, h, my, dy, y, x);
            proof {
                lemma_mul_inequality(y as int, (h - 1) as int, dy as int);
                lemma_div_is_ordered((y * dy + my) as int, ((h - 1) * dy + my) as int, 1024);
                lemma_div_pos_is_pos((y * dy + my) as int, 1024);
                lemma2_to64();
            }
            (rnd(s, 4) - bias) as i16
        };
    write_block(tmp, 0, w, w, h, fo, Ghost(g));
}

/// Rounding away `k` bits of an exact multiple of `2^k` gives the quotient.
pub proof fn lemma_rnd_exact(v: int, k: nat)
    ensures
        spec_rnd(v * pow2(k), k) == v,
{
    lemma_pow2_pos(k);
    let d = pow2(k) as int;
    assert(0 <= d / 2 < d);
    assert(v * d + d / 2 == d * v + d / 2) by (nonlinear_arith);
    vstd::arithmetic::div_mod::lemma_fundamental_div_mod_converse(v * d + d / 2, d, v, d / 2);
}

/// At integer positions no filter applies, so interpolation copies the
/// reference, and preparation only scales it to intermediate precision, for
/// 8-tap and bilinear filters alike.
pub proof fn lemma_mc_integer_position(
    src: Seq<u16>,
    off: int,
    stride: int,
    filters: SubpelFilters,
    filter_type: (Rav1dFilterMode, Rav1dFilterMode),
    w: int,
    h: int,
    bd: BitDepth,
    y: int,
    x: int,
)
    ensures
        spec_put_8tap_px(src, off, stride, spec_filter_taps(filters, 0, w, filter_type.0),
            spec_filter_taps(filters, 0, h, filter_type.1), bd, y, x) == src[off + y * stride + x],
        spec_prep_8tap_px(src, off, stride, spec_filter_taps(filters, 0, w, filter_type.0),
            spec_filter_taps(filters, 0, h, filter_type.1), bd, y, x) == spec_prep_px(bd, src[off + y * stride + x] as int),
        spec_put_bilin_px(src, off, stride, 0, 0, bd, y, x) == src[off + y * stride + x],
        spec_prep_bilin_px(src, off, stride, 0, 0, bd, y, x) == spec_prep_px(bd, src[off + y * stride + x] as int),
{
}

/// Scaled interpolation with steps of exactly one pixel, from an integer
/// position, copies the reference (for pixels within the bit depth), and its
/// preparation scales it as unscaled preparation does.
pub proof fn lemma_mc_scaled_unit_steps(
    src: Seq<u16>,
    off: int,
    stride: int,
    filters: SubpelFilters,
    filter_type: (Rav1dFilterMode, Rav1dFilterMode),
    w: int,
    h: int,
    bd: BitDepth,
    y: int,
    x: int,
)
    requires
        0 <= y,
        0 <= x,
        src[off + y * stride + x] <= bd.spec_bitdepth_max(),
    ensures
        spec_put_8tap_scaled_px(src, off, stride, filters, 0, 0, 1024, 1024, w, h, filter_type, bd, y, x)
            == src[off + y * stride + x],
        spec_prep_8tap_scaled_px(src, off, stride, filters, 0, 0, 1024, 1024, w, h, filter_type, bd, y, x)
            == spec_prep_px(bd, src[off + y * stride + x] as int),
{
    lemma2_to64();
    let ib = bd.spec_intermediate_bits();
    let p = src[off + y * stride + x] as int;
    let s = pow2(ib as nat) as int;
    assert((x * 1024) / 1024 == x && (x * 1024) % 1024 == 0) by {
        vstd::arithmetic::div_mod::lemma_fundamental_div_mod_converse(x * 1024, 1024, x, 0);
    }
    assert((y * 1024) / 1024 == y && (y * 1024) % 1024 == 0) by {
        vstd::arithmetic::div_mod::lemma_fundamental_div_mod_converse(y * 1024, 1024, y, 0);
    }
    assert(0 + x * 1024 == x * 1024);
    assert(0 + y * 1024 == y * 1024);
    assert(off + (y + 3 - 3) * stride + x == off + y * stride + x);
    assert(0 <= p * s <= 16380) by (nonlinear_arith)
        requires
            0 <= p,
            (s == 16 && p <= 1023) || (s == 4 && p <= 4095),
    ;
    assert(spec_mid_8tap_scaled(src, off, stride, filters, 0, 1024, w, filter_type.0, ib, y + 3, x) as int == p * s);
    lemma_rnd_exact(p, ib as nat);
}

/// Scaled bilinear interpolation with steps of exactly one pixel, from an
/// integer position, copies the reference (for pixels within the bit depth).
pub proof fn lemma_bilin_scaled_unit_steps(src: Seq<u16>, off: int, stride: int, bd: BitDepth, y: int, x: int)
    requires
        0 <= y,
        0 <= x,
        src[off + y * stride + x] <= bd.spec_bitdepth_max(),
        src[off + (y + 1) * stride + x] <= bd.spec_bitdepth_max(),
    ensures
        spec_put_bilin_scaled_px(src, off, stride, 0, 0, 1024, 1024, bd, y, x) == src[off + y * stride + x],
{
    lemma2_to64();
    let ib = bd.spec_intermediate_bits();
    let s = pow2(ib as nat) as int;
    assert((x * 1024) / 1024 == x && (x * 1024) % 1024 == 0) by {
        vstd::arithmetic::div_mod::lemma_fundamental_div_mod_converse(x * 1024, 1024, x, 0);
    }
    assert((y * 1024) / 1024 == y && (y * 1024) % 1024 == 0) by {
        vstd::arithmetic::div_mod::lemma_fundamental_div_mod_converse(y * 1024, 1024, y, 0);
    }
    assert(0 + x * 1024 == x * 1024);
    assert(0 + y * 1024 == y * 1024);
    assert forall|r: int| r == y || r == y + 1 implies #[trigger] spec_mid_bilin_scaled(src, off, stride, 0, 1024, ib, r, x) as int
        == src[off + r * stride + x] * s by {
        let p = src[off + r * stride + x] as int;
        assert(0 <= p * s <= 16380) by (nonlinear_arith)
            requires
                0 <= p,
                (s == 16 && p <= 1023) || (s == 4 && p <= 4095),
        ;
        assert(spec_bilin(p, src[off + r * stride + x + 1] as int, 0) == 16 * p);
        assert(16 * p == (p * s) * pow2((4 - ib) as nat)) by (nonlinear_arith)
            requires
                (s == 16 && pow2((4 - ib) as nat) == 1) || (s == 4 && pow2((4 - ib) as nat) == 4),
        ;
        lemma_rnd_exact(p * s, (4 - ib) as nat);
    }
    let p = src[off + y * stride + x] as int;
    assert(spec_bilin(p * s, src[off + (y + 1) * stride + x] * s, 0) == p * pow2((4 + ib) as nat)) by (nonlinear_arith)
        requires
            (s == 16 && pow2((4 + ib) as nat) == 256) || (s == 4 && pow2((4 + ib) as nat) == 64),
    ;
    lemma_rnd_exact(p, (4 + ib) as nat);
}

} // verus!

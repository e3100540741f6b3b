//! The search for the dominant edge direction of an 8 by 8 block, which
//! steers the CDEF primary taps.
use vstd::prelude::*;
use vstd::arithmetic::power2::{pow2, lemma_pow2_pos, lemma2_to64};
use crate::bitdepth::BitDepth;
use crate::plane::{rect_fits, lemma_rect_index};

verus! {

/// The divisors normalising the cost of a line by its length: `840 / (n + 1)`.
pub const DIV_TABLE: [u16; 7] = [840, 420, 280, 210, 168, 140, 120];

/// The index that pixel `(y, x)` adds to in the partial sums of direction `k`:
/// one diagonal (0), the steep and shallow lines (1, 3, 5, 7), the rows (2),
/// the other diagonal (4) and the columns (6).
pub open spec fn dir_key(k: int, y: int, x: int) -> int {
    if k == 0 {
        y + x
    } else if k == 1 {
        y + x / 2
    } else if k == 2 {
        y
    } else if k == 3 {
        3 + y - x / 2
    } else if k == 4 {
        7 + y - x
    } else if k == 5 {
        3 - y / 2 + x
    } else if k == 6 {
        x
    } else {
        y / 2 + x
    }
}

/// Pixel `(y, x)` of the block scaled to 8 bits and centred on 0.
pub open spec fn dir_px(img: Seq<u16>, off: int, stride: int, bd: BitDepth, y: int, x: int) -> int {
    (img[off + y * stride + x] as int) / (pow2((bd.spec_bitdepth() - 8) as nat) as int) - 128
}

/// The sum of the first `n` pixels (row by row) on line `i` of direction `k`.
pub open spec fn dir_partial(img: Seq<u16>, off: int, stride: int, bd: BitDepth, k: int, i: int, n: int) -> int
    decreases n,
{
    if n <= 0 {
        0
    } else {
        dir_partial(img, off, stride, bd, k, i, n - 1) + if dir_key(k, (n - 1) / 8, (n - 1) % 8) == i {
            dir_px(img, off, stride, bd, (n - 1) / 8, (n - 1) % 8)
        } else {
            0
        }
    }
}

/// The sum of the pixels on line `i` of direction `k`.
pub open spec fn dir_line_sum(img: Seq<u16>, off: int, stride: int, bd: BitDepth, k: int, i: int) -> int {
    dir_partial(img, off, stride, bd, k, i, 64)
}

/// `v` reduced to 32 bits, as the unsigned cost arithmetic wraps.
pub open spec fn wrap32(v: int) -> int {
    v % 0x1_0000_0000
}

/// The sum of the squares of `p(lo)` to `p(lo + n - 1)`.
pub open spec fn sum_sq(p: spec_fn(int) -> int, lo: int, n: int) -> int
    decreases n,
{
    if n <= 0 {
        0
    } else {
        sum_sq(p, lo, n - 1) + p(lo + n - 1) * p(lo + n - 1)
    }
}

/// The sum, for `j < n`, of `(p(j)^2 + p(top - j)^2) * wt(j)`: lines of equal
/// length at both ends of a direction, weighted by the inverse of their length.
pub open spec fn weighted_pairs(p: spec_fn(int) -> int, top: int, n: int, wt: spec_fn(int) -> int) -> int
    decreases n,
{
    if n <= 0 {
        0
    } else {
        weighted_pairs(p, top, n - 1, wt) + (p(n - 1) * p(n - 1) + p(top - (n - 1)) * p(top - (n - 1))) * wt(
            n - 1,
        )
    }
}

/// The cost of direction `k`: the energy of the block along the lines of that
/// direction, each line's squared sum normalised by its length (scaled by 840).
pub open spec fn dir_cost(img: Seq<u16>, off: int, stride: int, bd: BitDepth, k: int) -> int {
    let p = |i: int| dir_line_sum(img, off, stride, bd, k, i);
    if k == 2 || k == 6 {
        wrap32(105 * sum_sq(p, 0, 8))
    } else if k == 0 || k == 4 {
        wrap32(weighted_pairs(p, 14, 7, |j: int| DIV_TABLE[j] as int) + p(7) * p(7) * 105)
    } else {
        wrap32(105 * sum_sq(p, 3, 5) + weighted_pairs(p, 10, 3, |m: int| DIV_TABLE[2 * m + 1] as int))
    }
}

/// The first direction below `n` of the largest cost.
pub open spec fn best_dir_upto(img: Seq<u16>, off: int, stride: int, bd: BitDepth, n: int) -> int
    decreases n,
{
    if n <= 1 {
        0
    } else {
        let b = best_dir_upto(img, off, stride, bd, n - 1);
        if dir_cost(img, off, stride, bd, n - 1) > dir_cost(img, off, stride, bd, b) {
            n - 1
        } else {
            b
        }
    }
}

/// The dominant direction of the block.
pub open spec fn spec_best_dir(img: Seq<u16>, off: int, stride: int, bd: BitDepth) -> int {
    best_dir_upto(img, off, stride, bd, 8)
}

/// How strongly the block is directional: the cost of the best direction over
/// that of the orthogonal one, scaled down by 1024.
pub open spec fn spec_dir_variance(img: Seq<u16>, off: int, stride: int, bd: BitDepth) -> int {
    let b = spec_best_dir(img, off, stride, bd);
    wrap32(dir_cost(img, off, stride, bd, b) - dir_cost(img, off, stride, bd, (b + 4) % 8)) / 1024
}

fn key(k: usize, y: usize, x: usize) -> (r: usize)
    requires
        k < 8,
        y < 8,
        x < 8,
    ensures
        r == dir_key(k as int, y as int, x as int),
        r < 15,
{
    if k == 0 {
        y + x
    } else if k == 1 {
        y + x / 2
    } else if k == 2 {
        y
    } else if k == 3 {
        3 + y - x / 2
    } else if k == 4 {
        7 + y - x
    } else if k == 5 {
        3 - y / 2 + x
    } else if k == 6 {
        x
    } else {
        y / 2 + x
    }
}

/// The centred, 8-bit scaled value of pixel `(y, x)`.
fn block_px(img: &Vec<u16>, off: usize, stride: usize, bd: BitDepth, y: usize, x: usize) -> (r: i32)
    requires
        rect_fits(off as int, stride as int, 8, 8, img.len() as int),
        y < 8,
        x < 8,
    ensures
        r == dir_px(img@, off as int, stride as int, bd, y as int, x as int),
        -128 <= r <= 65407,
{
    proof {
        lemma_rect_index(off as int, stride as int, 8, 8, img.len() as int, y as int, x as int);
    }
    let v = img[off + y * stride + x] as u32;
    let s = bd.bitdepth() - 8;
    proof {
        vstd::bits::lemma_u32_shr_is_div(v, s);
        lemma_pow2_pos(s as nat);
        vstd::arithmetic::div_mod::lemma_div_is_ordered_by_denominator(v as int, 1, pow2(s as nat) as int);
        vstd::arithmetic::div_mod::lemma_div_basics(v as int);
    }
    (v >> s) as i32 - 128
}

/// The sums of the block's pixels along every line of the eight directions,
/// `ps[k][i]` for line `i` of direction `k`.
fn line_sums(img: &Vec<u16>, off: usize, stride: usize, bd: BitDepth) -> (ps: [[i32; 15]; 8])
    requires
        rect_fits(off as int, stride as int, 8, 8, img.len() as int),
    ensures
        forall|k: int, i: int|
            0 <= k < 8 && 0 <= i < 15 ==> #[trigger] ps[k][i] == dir_line_sum(img@, off as int, stride as int, bd, k, i),
        forall|k: int, i: int| 0 <= k < 8 && 0 <= i < 15 ==> -8192 <= #[trigger] ps[k][i] <= 4186048,
{
    let mut ps = [[0i32; 15]; 8];
    let mut y: usize = 0;
    while y < 8
        invariant
            rect_fits(off as int, stride as int, 8, 8, img.len() as int),
            y <= 8,
            forall|k: int, i: int|
                0 <= k < 8 && 0 <= i < 15 ==> #[trigger] ps[k][i] == dir_partial(img@, off as int, stride as int, bd,
                    k, i, 8 * y),
            forall|k: int, i: int| 0 <= k < 8 && 0 <= i < 15 ==> -128 * (8 * y) <= #[trigger] ps[k][i] <= 65407 * (8 * y),
        decreases 8 - y,
    {
        let mut x: usize = 0;
        while x < 8
            invariant
                rect_fits(off as int, stride as int, 8, 8, img.len() as int),
                y < 8,
                x <= 8,
                forall|k: int, i: int|
                    0 <= k < 8 && 0 <= i < 15 ==> #[trigger] ps[k][i] == dir_partial(img@, off as int, stride as int,
                        bd, k, i, 8 * y + x),
                forall|k: int, i: int|
                    0 <= k < 8 && 0 <= i < 15 ==> -128 * (8 * y + x) <= #[trigger] ps[k][i] <= 65407 * (8 * y + x),
            decreases 8 - x,
        {
            let px = block_px(img, off, stride, bd, y, x);
            let ghost p = 8 * y + x;
            assert(p / 8 == y && p % 8 == x);
            let mut k: usize = 0;
            while k < 8
                invariant
                    y < 8,
                    x < 8,
                    p == 8 * y + x,
                    p / 8 == y && p % 8 == x,
                    px == dir_px(img@, off as int, stride as int, bd, y as int, x as int),
                    -128 <= px <= 65407,
                    k <= 8,
                    forall|c: int, i: int|
                        0 <= c < k && 0 <= i < 15 ==> #[trigger] ps[c][i] == dir_partial(img@, off as int, stride as int,
                            bd, c, i, p + 1),
                    forall|c: int, i: int|
                        k <= c < 8 && 0 <= i < 15 ==> #[trigger] ps[c][i] == dir_partial(img@, off as int, stride as int,
                            bd, c, i, p),
                    forall|c: int, i: int| 0 <= c < k && 0 <= i < 15 ==> -128 * (p + 1) <= #[trigger] ps[c][i] <= 65407 * (p + 1),
                    forall|c: int, i: int| k <= c < 8 && 0 <= i < 15 ==> -128 * p <= #[trigger] ps[c][i] <= 65407 * p,
                decreases 8 - k,
            {
                let idx = key(k, y, x);
                let ghost before = ps;
                ps[k][idx] = ps[k][idx] + px;
                assert forall|i: int| 0 <= i < 15 implies #[trigger] ps[k as int][i] == dir_partial(img@, off as int,
                    stride as int, bd, k as int, i, p + 1) by {
                    assert(ps[k as int][i] == before[k as int][i] + if i == idx { px as int } else { 0 });
                }
                k += 1;
            }
            x += 1;
        }
        y += 1;
    }
    ps
}

proof fn lemma_square_bound(v: int)
    requires
        -8192 <= v <= 4186048,
    ensures
        0 <= v * v <= 17592186044416,
{
    assert(0 <= v * v <= 17592186044416) by (nonlinear_arith)
        requires
            -8192 <= v <= 4186048,
    ;
}

/// `v` reduced to 32 bits.
fn wrap_u32(v: i64) -> (r: u32)
    requires
        v >= 0,
    ensures
        r == wrap32(v as int),
{
    ((v as u64) % 0x1_0000_0000) as u32
}

/// The cost of direction `k` from the line sums `ps`.
fn dir_cost_of(
    ps: &[[i32; 15]; 8],
    k: usize,
    Ghost(img): Ghost<Seq<u16>>,
    Ghost(off): Ghost<int>,
    Ghost(stride): Ghost<int>,
    Ghost(bd): Ghost<BitDepth>,
) -> (c: u32)
    requires
        k < 8,
        forall|c: int, i: int|
            0 <= c < 8 && 0 <= i < 15 ==> #[trigger] ps[c][i] == dir_line_sum(img, off, stride, bd, c, i),
        forall|c: int, i: int| 0 <= c < 8 && 0 <= i < 15 ==> -8192 <= #[trigger] ps[c][i] <= 4186048,
    ensures
        c == dir_cost(img, off, stride, bd, k as int),
{
    let ghost p = |i: int| dir_line_sum(img, off, stride, bd, k as int, i);
    if k == 2 || k == 6 {
        let mut s: i64 = 0;
        let mut n: usize = 0;
        while n < 8
            invariant
                k < 8,
                n <= 8,
                p == (|i: int| dir_line_sum(img, off, stride, bd, k as int, i)),
                forall|c: int, i: int|
                    0 <= c < 8 && 0 <= i < 15 ==> #[trigger] ps[c][i] == dir_line_sum(img, off, stride, bd, c, i),
                forall|c: int, i: int| 0 <= c < 8 && 0 <= i < 15 ==> -8192 <= #[trigger] ps[c][i] <= 4186048,
                s == sum_sq(p, 0, n as int),
                0 <= s <= n * 17592186044416,
            decreases 8 - n,
        {
            let v = ps[k][n] as i64;
            proof {
                lemma_square_bound(v as int);
            }
            s = s + v * v;
            n += 1;
        }
        wrap_u32(105 * s)
    } else if k == 0 || k == 4 {
        let mut s: i64 = 0;
        let mut n: usize = 0;
        while n < 7
            invariant
                k < 8,
                n <= 7,
                p == (|i: int| dir_line_sum(img, off, stride, bd, k as int, i)),
                forall|c: int, i: int|
                    0 <= c < 8 && 0 <= i < 15 ==> #[trigger] ps[c][i] == dir_line_sum(img, off, stride, bd, c, i),
                forall|c: int, i: int| 0 <= c < 8 && 0 <= i < 15 ==> -8192 <= #[trigger] ps[c][i] <= 4186048,
                s == weighted_pairs(p, 14, n as int, |j: int| DIV_TABLE[j] as int),
                0 <= s <= n * 29555872554618880,
            decreases 7 - n,
        {
            let a = ps[k][n] as i64;
            let b = ps[k][14 - n] as i64;
            let d = DIV_TABLE[n] as i64;
            proof {
                lemma_square_bound(a as int);
                lemma_square_bound(b as int);
                assert(0 <= (a * a + b * b) * d <= 29555872554618880) by (nonlinear_arith)
                    requires
                        0 <= a * a <= 17592186044416,
                        0 <= b * b <= 17592186044416,
                        0 <= d <= 840,
                ;
            }
            s = s + (a * a + b * b) * d;
            n += 1;
        }
        let m = ps[k][7] as i64;
        proof {
            lemma_square_bound(m as int);
        }
        wrap_u32(s + m * m * 105)
    } else {
        let mut s1: i64 = 0;
        let mut m: usize = 0;
        while m < 5
            invariant
                k < 8,
                m <= 5,
                p == (|i: int| dir_line_sum(img, off, stride, bd, k as int, i)),
                forall|c: int, i: int|
                    0 <= c < 8 && 0 <= i < 15 ==> #[trigger] ps[c][i] == dir_line_sum(img, off, stride, bd, c, i),
                forall|c: int, i: int| 0 <= c < 8 && 0 <= i < 15 ==> -8192 <= #[trigger] ps[c][i] <= 4186048,
                s1 == sum_sq(p, 3, m as int),
                0 <= s1 <= m * 17592186044416,
            decreases 5 - m,
        {
            let v = ps[k][3 + m] as i64;
            proof {
                lemma_square_bound(v as int);
            }
            s1 = s1 + v * v;
            m += 1;
        }
        let mut s2: i64 = 0;
        let mut m: usize = 0;
        while m < 3
            invariant
                k < 8,
                m <= 3,
                p == (|i: int| dir_line_sum(img, off, stride, bd, k as int, i)),
                forall|c: int, i: int|
                    0 <= c < 8 && 0 <= i < 15 ==> #[trigger] ps[c][i] == dir_line_sum(img, off, stride, bd, c, i),
                forall|c: int, i: int| 0 <= c < 8 && 0 <= i < 15 ==> -8192 <= #[trigger] ps[c][i] <= 4186048,
                s2 == weighted_pairs(p, 10, m as int, |j: int| DIV_TABLE[2 * j + 1] as int),
                0 <= s2 <= m * 29555872554618880,
            decreases 3 - m,
        {
            let a = ps[k][m] as i64;
            let b = ps[k][10 - m] as i64;
            let d = DIV_TABLE[2 * m + 1] as i64;
            proof {
                lemma_square_bound(a as int);
                lemma_square_bound(b as int);
                assert(0 <= (a * a + b * b) * d <= 29555872554618880) by (nonlinear_arith)
                    requires
                        0 <= a * a <= 17592186044416,
                        0 <= b * b <= 17592186044416,
                        0 <= d <= 840,
                ;
            }
            s2 = s2 + (a * a + b * b) * d;
            m += 1;
        }
        wrap_u32(105 * s1 + s2)
    }
}

/// Finds the dominant direction of the 8 by 8 block at `off` of `img` (row
/// stride `stride`): the direction whose lines carry the most energy, the
/// first one on ties. `var` receives how much more energy it carries than the
/// orthogonal direction, scaled down by 1024. The unsigned cost arithmetic
/// wraps at 32 bits.
pub fn cdef_find_dir_rust(img: &Vec<u16>, off: usize, stride: usize, var: &mut u32, bd: BitDepth) -> (dir: i32)
    requires
        rect_fits(off as int, stride as int, 8, 8, img.len() as int),
    ensures
        dir == spec_best_dir(img@, off as int, stride as int, bd),
        *final(var) == spec_dir_variance(img@, off as int, stride as int, bd),
        0 <= dir < 8,
{
    let ps = line_sums(img, off, stride, bd);
    let mut cost = [0u32; 8];
    let mut k: usize = 0;
    while k < 8
        invariant
            k <= 8,
            forall|c: int, i: int|
                0 <= c < 8 && 0 <= i < 15 ==> #[trigger] ps[c][i] == dir_line_sum(img@, off as int, stride as int, bd, c, i),
            forall|c: int, i: int| 0 <= c < 8 && 0 <= i < 15 ==> -8192 <= #[trigger] ps[c][i] <= 4186048,
            forall|c: int| 0 <= c < k ==> #[trigger] cost[c] == dir_cost(img@, off as int, stride as int, bd, c),
        decreases 8 - k,
    {
        cost[k] = dir_cost_of(&ps, k, Ghost(img@), Ghost(off as int), Ghost(stride as int), Ghost(bd));
        k += 1;
    }
    let mut best_dir: usize = 0;
    let mut best_cost = cost[0];
    let mut n: usize = 1;
    while n < 8
        invariant
            1 <= n <= 8,
            forall|c: int| 0 <= c < 8 ==> #[trigger] cost[c] == dir_cost(img@, off as int, stride as int, bd, c),
            best_dir == best_dir_upto(img@, off as int, stride as int, bd, n as int),
            best_dir < n,
            best_cost == cost[best_dir as int],
        decreases 8 - n,
    {
        if cost[n] > best_cost {
            best_cost = cost[n];
            best_dir = n;
        }
        n += 1;
    }
    let opposite = best_dir ^ 4;
    proof {
        assert(opposite == (best_dir + 4) % 8) by (bit_vector)
            requires
                best_dir < 8,
                opposite == best_dir ^ 4,
        ;
        lemma2_to64();
        vstd::bits::lemma_u32_shr_is_div(best_cost.wrapping_sub(cost[opposite as int]), 10);
    }
    *var = best_cost.wrapping_sub(cost[opposite]) >> 10;
    best_dir as i32
}

} // verus!

verus! {

/// Pixel `(y, x)` of the 8 by 8 block at `off` (row stride `stride`).
pub open spec fn block_at(img: Seq<u16>, off: int, stride: int, y: int, x: int) -> u16 {
    img[off + y * stride + x]
}

/// The block at `off2` of `img2` is the transpose of the block at `off` of `img`.
pub open spec fn is_transposed_block(img2: Seq<u16>, off2: int, stride2: int, img: Seq<u16>, off: int, stride: int) -> bool {
    forall|y: int, x: int|
        0 <= y < 8 && 0 <= x < 8 ==> #[trigger] block_at(img2, off2, stride2, y, x) == block_at(img, off, stride, x, y)
}

/// The direction that direction `k` becomes when the block is transposed.
pub open spec fn transposed_dir(k: int) -> int {
    (8 - k) % 8
}

/// The line that line `i` of direction `k` becomes when the block is transposed.
pub open spec fn transposed_line(k: int, i: int) -> int {
    if k == 4 { 14 - i } else { i }
}

/// The sum of `g(y, x)` over the first `n` positions of the 8 by 8 block, row
/// by row.
pub open spec fn grid_sum(g: spec_fn(int, int) -> int, n: int) -> int
    decreases n,
{
    if n <= 0 {
        0
    } else {
        grid_sum(g, n - 1) + g((n - 1) / 8, (n - 1) % 8)
    }
}

/// What pixel `(y, x)` adds to line `i` of direction `k`.
pub open spec fn line_term(img: Seq<u16>, off: int, stride: int, bd: BitDepth, k: int, i: int, y: int, x: int) -> int {
    if dir_key(k, y, x) == i {
        dir_px(img, off, stride, bd, y, x)
    } else {
        0
    }
}

proof fn lemma_partial_is_grid_sum(img: Seq<u16>, off: int, stride: int, bd: BitDepth, k: int, i: int, n: int)
    ensures
        dir_partial(img, off, stride, bd, k, i, n) == grid_sum(|y: int, x: int| line_term(img, off, stride, bd, k, i, y, x), n),
    decreases n,
{
    if n > 0 {
        lemma_partial_is_grid_sum(img, off, stride, bd, k, i, n - 1);
    }
}

proof fn lemma_grid_sum_ext(g1: spec_fn(int, int) -> int, g2: spec_fn(int, int) -> int, n: int)
    requires
        n <= 64,
        forall|y: int, x: int| 0 <= y < 8 && 0 <= x < 8 ==> #[trigger] g1(y, x) == g2(y, x),
    ensures
        grid_sum(g1, n) == grid_sum(g2, n),
    decreases n,
{
    if n > 0 {
        lemma_grid_sum_ext(g1, g2, n - 1);
        assert(0 <= (n - 1) / 8 < 8 && 0 <= (n - 1) % 8 < 8);
        assert(g1((n - 1) / 8, (n - 1) % 8) == g2((n - 1) / 8, (n - 1) % 8));
    }
}

proof fn lemma_grid_sum_transpose(g: spec_fn(int, int) -> int)
    ensures
        grid_sum(g, 64) == grid_sum(|y: int, x: int| g(x, y), 64),
{
    reveal_with_fuel(grid_sum, 65);
}

proof fn lemma_line_sum_transpose(
    img: Seq<u16>,
    off: int,
    stride: int,
    img2: Seq<u16>,
    off2: int,
    stride2: int,
    bd: BitDepth,
    k: int,
    i: int,
)
    requires
        forall|y: int, x: int|
            0 <= y < 8 && 0 <= x < 8 ==> #[trigger] dir_px(img2, off2, stride2, bd, y, x) == dir_px(img, off, stride, bd, x, y),
        0 <= k < 8,
    ensures
        dir_line_sum(img2, off2, stride2, bd, transposed_dir(k), transposed_line(k, i)) == dir_line_sum(img, off, stride, bd, k, i),
{
    let k2 = transposed_dir(k);
    let i2 = transposed_line(k, i);
    let g = |y: int, x: int| line_term(img, off, stride, bd, k, i, y, x);
    let g2 = |y: int, x: int| line_term(img2, off2, stride2, bd, k2, i2, y, x);
    let gt = |y: int, x: int| g(x, y);
    lemma_partial_is_grid_sum(img, off, stride, bd, k, i, 64);
    lemma_partial_is_grid_sum(img2, off2, stride2, bd, k2, i2, 64);
    assert forall|y: int, x: int| 0 <= y < 8 && 0 <= x < 8 implies #[trigger] g2(y, x) == gt(y, x) by {
        assert(dir_key(k2, y, x) == i2 <==> dir_key(k, x, y) == i);
        assert(dir_px(img2, off2, stride2, bd, y, x) == dir_px(img, off, stride, bd, x, y));
    }
    lemma_grid_sum_ext(g2, gt, 64);
    lemma_grid_sum_transpose(g);
}

proof fn lemma_weighted_pairs_mirror(p: spec_fn(int) -> int, q: spec_fn(int) -> int, top: int, n: int, wt: spec_fn(int) -> int)
    requires
        forall|i: int| #[trigger] q(i) == p(top - i),
    ensures
        weighted_pairs(q, top, n, wt) == weighted_pairs(p, top, n, wt),
    decreases n,
{
    if n > 0 {
        lemma_weighted_pairs_mirror(p, q, top, n - 1, wt);
        assert(q(n - 1) == p(top - (n - 1)));
        assert(q(top - (n - 1)) == p(top - (top - (n - 1))));
    }
}

proof fn lemma_cost_transpose(
    img: Seq<u16>,
    off: int,
    stride: int,
    img2: Seq<u16>,
    off2: int,
    stride2: int,
    bd: BitDepth,
    k: int,
)
    requires
        forall|y: int, x: int|
            0 <= y < 8 && 0 <= x < 8 ==> #[trigger] dir_px(img2, off2, stride2, bd, y, x) == dir_px(img, off, stride, bd, x, y),
        0 <= k < 8,
    ensures
        dir_cost(img2, off2, stride2, bd, transposed_dir(k)) == dir_cost(img, off, stride, bd, k),
{
    let k2 = transposed_dir(k);
    let p = |i: int| dir_line_sum(img, off, stride, bd, k, i);
    let p2 = |i: int| dir_line_sum(img2, off2, stride2, bd, k2, i);
    if k == 4 {
        assert forall|i: int| #[trigger] p2(i) == p(14 - i) by {
            lemma_line_sum_transpose(img, off, stride, img2, off2, stride2, bd, k, 14 - i);
        }
        lemma_weighted_pairs_mirror(p, p2, 14, 7, |j: int| DIV_TABLE[j] as int);
        assert(p2(7) == p(7));
    } else {
        assert forall|i: int| #[trigger] p2(i) == p(i) by {
            lemma_line_sum_transpose(img, off, stride, img2, off2, stride2, bd, k, i);
        }
        assert(p2 =~= p);
    }
}

proof fn lemma_best_dir_upto_is_max(img: Seq<u16>, off: int, stride: int, bd: BitDepth, n: int)
    requires
        1 <= n <= 8,
    ensures
        0 <= best_dir_upto(img, off, stride, bd, n) < n,
        forall|j: int|
            0 <= j < n ==> #[trigger] dir_cost(img, off, stride, bd, j) <= dir_cost(img, off, stride, bd,
                best_dir_upto(img, off, stride, bd, n)),
    decreases n,
{
    if n > 1 {
        lemma_best_dir_upto_is_max(img, off, stride, bd, n - 1);
    }
}

proof fn lemma_unique_max_is_best(img: Seq<u16>, off: int, stride: int, bd: BitDepth, b: int)
    requires
        0 <= b < 8,
        forall|j: int|
            0 <= j < 8 && j != b ==> #[trigger] dir_cost(img, off, stride, bd, j) < dir_cost(img, off, stride, bd, b),
    ensures
        spec_best_dir(img, off, stride, bd) == b,
{
    lemma_best_dir_upto_is_max(img, off, stride, bd, 8);
    let best = spec_best_dir(img, off, stride, bd);
    assert(dir_cost(img, off, stride, bd, b) <= dir_cost(img, off, stride, bd, best));
}

/// Transposing a block mirrors its dominant direction (direction `k` becomes
/// `(8 - k) % 8`: rows and columns swap, each diagonal stays) and keeps its
/// variance, wherever the dominant direction is the only one of the largest
/// cost (on a tie the search takes the first, which a transposition may
/// reorder).
pub proof fn lemma_find_dir_transpose(
    img: Seq<u16>,
    off: int,
    stride: int,
    img2: Seq<u16>,
    off2: int,
    stride2: int,
    bd: BitDepth,
)
    requires
        is_transposed_block(img2, off2, stride2, img, off, stride),
        forall|j: int|
            0 <= j < 8 && j != spec_best_dir(img, off, stride, bd) ==> #[trigger] dir_cost(img, off, stride, bd, j)
                < dir_cost(img, off, stride, bd, spec_best_dir(img, off, stride, bd)),
    ensures
        spec_best_dir(img2, off2, stride2, bd) == transposed_dir(spec_best_dir(img, off, stride, bd)),
        spec_dir_variance(img2, off2, stride2, bd) == spec_dir_variance(img, off, stride, bd),
{
    assert forall|y: int, x: int| 0 <= y < 8 && 0 <= x < 8 implies #[trigger] dir_px(img2, off2, stride2, bd, y, x)
        == dir_px(img, off, stride, bd, x, y) by {
        assert(block_at(img2, off2, stride2, y, x) == block_at(img, off, stride, x, y));
    }
    lemma_best_dir_upto_is_max(img, off, stride, bd, 8);
    let b = spec_best_dir(img, off, stride, bd);
    let b2 = transposed_dir(b);
    assert forall|j: int| 0 <= j < 8 && j != b2 implies #[trigger] dir_cost(img2, off2, stride2, bd, j) < dir_cost(
        img2, off2, stride2, bd, b2) by {
        lemma_cost_transpose(img, off, stride, img2, off2, stride2, bd, transposed_dir(j));
        lemma_cost_transpose(img, off, stride, img2, off2, stride2, bd, b);
        assert(transposed_dir(transposed_dir(j)) == j);
        assert(transposed_dir(j) != b);
    }
    lemma_unique_max_is_best(img2, off2, stride2, bd, b2);
    lemma_cost_transpose(img, off, stride, img2, off2, stride2, bd, b);
    lemma_cost_transpose(img, off, stride, img2, off2, stride2, bd, (b + 4) % 8);
    assert(transposed_dir((b + 4) % 8) == (b2 + 4) % 8);
}

}

//! Edge emulation: a block of a reference picture that reaches beyond the
//! picture's edges, built with the edge pixels repeated outwards.
use vstd::prelude::*;
use crate::intops::{spec_iclip, clip};
use crate::plane::{row_of, col_of, rect_fits, rect_written, in_rect_before, lemma_pos, lemma_pos_inverse, lemma_rect_row};

verus! {

/// The pixel of the reference picture (`iw` by `ih` pixels at `off`, row
/// stride `stride`) nearest to position `(y, x)`.
pub open spec fn spec_edge_px(refp: Seq<u16>, off: int, stride: int, iw: int, ih: int, y: int, x: int) -> u16 {
    refp[off + spec_iclip(y, 0, ih - 1) * stride + spec_iclip(x, 0, iw - 1)]
}

/// How far a block of size `b` at `x` reaches before the picture's start
/// (`iw` long), at most `b - 1`.
pub open spec fn spec_ext_before(x: int, b: int) -> int {
    spec_iclip(-x, 0, b - 1)
}

/// How far a block of size `b` at `x` reaches past the picture's end, at
/// most `b - 1`.
pub open spec fn spec_ext_after(x: int, b: int, iw: int) -> int {
    spec_iclip(x + b - iw, 0, b - 1)
}

/// Along one axis, the clamped positions of a block are: the clamped start
/// position repeated over the part before the picture, then consecutive
/// positions, then the last of those repeated over the part past the end.
pub proof fn lemma_edge_axis(x: int, b: int, iw: int)
    requires
        b >= 1,
        iw >= 1,
        spec_ext_before(x, b) + spec_ext_after(x, b, iw) < b,
    ensures
        ({
            let lo = spec_ext_before(x, b);
            let n = b - lo - spec_ext_after(x, b, iw);
            &&& 0 <= lo
            &&& 1 <= n
            &&& spec_iclip(x + lo, 0, iw - 1) == spec_iclip(x, 0, iw - 1)
            &&& spec_iclip(x, 0, iw - 1) + n - 1 <= iw - 1
            &&& forall|c: int| lo <= c < lo + n ==> #[trigger] spec_iclip(x + c, 0, iw - 1) == spec_iclip(x, 0, iw - 1) + c - lo
            &&& forall|c: int| 0 <= c < lo ==> #[trigger] spec_iclip(x + c, 0, iw - 1) == spec_iclip(x, 0, iw - 1)
            &&& forall|c: int|
                lo + n <= c < b ==> #[trigger] spec_iclip(x + c, 0, iw - 1) == spec_iclip(x, 0, iw - 1) + n - 1
        }),
{
}

/// `cur` is `orig` with the block columns `0` to `w - 1` of the rows where
/// `rows` holds set to `f(row, column)` (row stride `stride`, at the start of
/// the buffer).
pub open spec fn rows_written(
    cur: Seq<u16>,
    orig: Seq<u16>,
    stride: int,
    w: int,
    rows: spec_fn(int) -> bool,
    f: spec_fn(int, int) -> u16,
) -> bool {
    &&& cur.len() == orig.len()
    &&& forall|i: int|
        0 <= i < cur.len() ==> #[trigger] cur[i] == if rows(row_of(i, 0, stride)) && col_of(i, 0, stride) < w {
            f(row_of(i, 0, stride), col_of(i, 0, stride))
        } else {
            orig[i]
        }
}

/// Setting row `r` of the block to `f(r, ·)` adds it to the written rows.
proof fn lemma_rows_add(
    cur: Seq<u16>,
    nxt: Seq<u16>,
    orig: Seq<u16>,
    stride: int,
    w: int,
    rows: spec_fn(int) -> bool,
    rows2: spec_fn(int) -> bool,
    f: spec_fn(int, int) -> u16,
    r: int,
)
    requires
        rows_written(cur, orig, stride, w, rows, f),
        0 < w <= stride,
        0 <= r,
        nxt.len() == cur.len(),
        forall|k: int| 0 <= k < w ==> #[trigger] nxt[r * stride + k] == f(r, k),
        forall|i: int| 0 <= i < cur.len() && !(r * stride <= i < r * stride + w) ==> #[trigger] nxt[i] == cur[i],
        forall|q: int| #[trigger] rows2(q) == (rows(q) || q == r),
    ensures
        rows_written(nxt, orig, stride, w, rows2, f),
{
    assert forall|i: int| 0 <= i < nxt.len() implies #[trigger] nxt[i] == if rows2(row_of(i, 0, stride)) && col_of(i, 0, stride) < w {
        f(row_of(i, 0, stride), col_of(i, 0, stride))
    } else {
        orig[i]
    } by {
        lemma_pos_inverse(i, 0, stride);
        if r * stride <= i < r * stride + w {
            lemma_pos(0, stride, r, i - r * stride);
            assert(0 + r * stride + (i - r * stride) == i);
            assert(nxt[r * stride + (i - r * stride)] == f(r, i - r * stride));
        } else {
            assert(nxt[i] == cur[i]);
            if row_of(i, 0, stride) == r && col_of(i, 0, stride) < w {
                assert(false);
            }
        }
    }
}

/// Copies `n` values of `src` at `from` to `dst` at `to`.
fn copy_from(dst: &mut Vec<u16>, to: usize, src: &Vec<u16>, from: usize, n: usize)
    requires
        to + n <= old(dst).len(),
        from + n <= src.len(),
    ensures
        final(dst).len() == old(dst).len(),
        forall|k: int| 0 <= k < n ==> #[trigger] final(dst)@[to + k] == src@[from + k],
        forall|i: int| 0 <= i < old(dst).len() && !(to <= i < to + n) ==> #[trigger] final(dst)@[i] == old(dst)@[i],
{
    let mut k: usize = 0;
    while k < n
        invariant
            k <= n,
            to + n <= dst.len(),
            from + n <= src.len(),
            dst.len() == old(dst).len(),
            forall|j: int| 0 <= j < k ==> #[trigger] dst@[to + j] == src@[from + j],
            forall|i: int| 0 <= i < old(dst).len() && !(to <= i < to + k) ==> #[trigger] dst@[i] == old(dst)@[i],
        decreases n - k,
    {
        let v = src[from + k];
        dst.set(to + k, v);
        k += 1;
    }
}

/// Copies the `n` values at `from` of `dst` to `to`, the two ranges apart.
fn copy_within(dst: &mut Vec<u16>, from: usize, to: usize, n: usize)
    requires
        from + n <= to || to + n <= from,
        from + n <= old(dst).len(),
        to + n <= old(dst).len(),
    ensures
        final(dst).len() == old(dst).len(),
        forall|k: int| 0 <= k < n ==> #[trigger] final(dst)@[to + k] == old(dst)@[from + k],
        forall|i: int| 0 <= i < old(dst).len() && !(to <= i < to + n) ==> #[trigger] final(dst)@[i] == old(dst)@[i],
{
    let mut k: usize = 0;
    while k < n
        invariant
            k <= n,
            from + n <= to || to + n <= from,
            from + n <= dst.len(),
            to + n <= dst.len(),
            dst.len() == old(dst).len(),
            forall|j: int| 0 <= j < k ==> #[trigger] dst@[to + j] == old(dst)@[from + j],
            forall|i: int| 0 <= i < old(dst).len() && !(to <= i < to + k) ==> #[trigger] dst@[i] == old(dst)@[i],
        decreases n - k,
    {
        let v = dst[from + k];
        dst.set(to + k, v);
        k += 1;
    }
}

/// Sets the `n` values at `start` of `dst` to `v`.
fn fill(dst: &mut Vec<u16>, start: usize, n: usize, v: u16)
    requires
        start + n <= old(dst).len(),
    ensures
        final(dst).len() == old(dst).len(),
        forall|k: int| 0 <= k < n ==> #[trigger] final(dst)@[start + k] == v,
        forall|i: int| 0 <= i < old(dst).len() && !(start <= i < start + n) ==> #[trigger] final(dst)@[i] == old(dst)@[i],
{
    let mut k: usize = 0;
    while k < n
        invariant
            k <= n,
            start + n <= dst.len(),
            dst.len() == old(dst).len(),
            forall|j: int| 0 <= j < k ==> #[trigger] dst@[start + j] == v,
            forall|i: int| 0 <= i < old(dst).len() && !(start <= i < start + k) ==> #[trigger] dst@[i] == old(dst)@[i],
        decreases n - k,
    {
        dst.set(start + k, v);
        k += 1;
    }
}

/// One row of an edge-emulated block at `blk` of `dst`: `cw` pixels of the
/// reference row at `ref_pos`, the first of them repeated `left` times before
/// and the last `right` times after.
fn emu_row(dst: &mut Vec<u16>, blk: usize, left: usize, cw: usize, right: usize, refp: &Vec<u16>, ref_pos: usize)
    requires
        cw >= 1,
        blk + left + cw + right <= old(dst).len(),
        ref_pos + cw <= refp.len(),
    ensures
        final(dst).len() == old(dst).len(),
        forall|k: int|
            0 <= k < left + cw + right ==> #[trigger] final(dst)@[blk + k] == refp@[ref_pos + if k < left {
                0
            } else if k < left + cw {
                k - left
            } else {
                cw - 1
            }],
        forall|i: int|
            0 <= i < old(dst).len() && !(blk <= i < blk + left + cw + right) ==> #[trigger] final(dst)@[i] == old(dst)@[i],
{
    let ghost d0 = dst@;
    copy_from(dst, blk + left, refp, ref_pos, cw);
    let ghost d1 = dst@;
    if left != 0 {
        assert(d1[(blk + left) + 0] == refp@[ref_pos + 0]);
        let val = dst[blk + left];
        fill(dst, blk, left, val);
    }
    let ghost d2 = dst@;
    assert forall|k: int| left <= k < left + cw implies #[trigger] d2[blk + k] == refp@[ref_pos + k - left] by {
        assert(d1[blk + left + (k - left)] == refp@[ref_pos + (k - left)]);
    }
    if right != 0 {
        assert(d1[(blk + left) + (cw - 1)] == refp@[ref_pos + (cw - 1)]);
        assert(d2[(blk + left) + (cw - 1)] == d1[(blk + left) + (cw - 1)]);
        let val = dst[blk + left + cw - 1];
        fill(dst, blk + left + cw, right, val);
    }
    let ghost d3 = dst@;
    assert forall|k: int| 0 <= k < left + cw + right implies #[trigger] d3[blk + k] == refp@[ref_pos + if k < left {
        0
    } else if k < left + cw {
        k - left
    } else {
        cw - 1
    }] by {
        if k < left {
            assert(d2[blk + k] == refp@[ref_pos + 0]);
            assert(d3[blk + k] == d2[blk + k]);
        } else if k < left + cw {
            assert(d3[blk + k] == d2[blk + k]);
        } else {
            assert(d3[blk + left + cw + (k - left - cw)] == refp@[ref_pos + cw - 1]);
        }
    }
}

/// Builds in `dst` (row stride `dst_stride`) the `bw` by `bh` block at
/// `(x, y)` of the `iw` by `ih` reference picture at `ref_off` of `refp` (row
/// stride `ref_stride`), the parts outside the picture filled with its
/// nearest edge pixels: the visible part is copied, then its first and last
/// columns are repeated to the left and right, then its first and last rows
/// upwards and downwards.
pub fn emu_edge_rust(
    bw: isize,
    bh: isize,
    iw: isize,
    ih: isize,
    x: isize,
    y: isize,
    dst: &mut Vec<u16>,
    dst_stride: usize,
    refp: &Vec<u16>,
    ref_off: usize,
    ref_stride: usize,
)
    requires
        bw >= 1,
        bh >= 1,
        iw >= 1,
        ih >= 1,
        x > isize::MIN,
        y > isize::MIN,
        x + bw <= isize::MAX,
        y + bh <= isize::MAX,
        isize::MIN <= x + bw - iw,
        isize::MIN <= y + bh - ih,
        spec_ext_before(x as int, bw as int) + spec_ext_after(x as int, bw as int, iw as int) < bw,
        spec_ext_before(y as int, bh as int) + spec_ext_after(y as int, bh as int, ih as int) < bh,
        rect_fits(0, dst_stride as int, bw as int, bh as int, old(dst).len() as int),
        rect_fits(ref_off as int, ref_stride as int, iw as int, ih as int, refp.len() as int),
    ensures
        rect_written(final(dst)@, old(dst)@, 0, dst_stride as int, bw as int, bh as int, 0,
            |r: int, c: int| spec_edge_px(refp@, ref_off as int, ref_stride as int, iw as int, ih as int, y + r, x + c)),
{
    let ghost val = |r: int, c: int| spec_edge_px(refp@, ref_off as int, ref_stride as int, iw as int, ih as int, y + r, x + c);
    let ghost orig = dst@;
    proof {
        lemma_edge_axis(x as int, bw as int, iw as int);
        lemma_edge_axis(y as int, bh as int, ih as int);
    }
    let cy = clip(y, 0, ih - 1) as usize;
    let cx = clip(x, 0, iw - 1) as usize;
    let left = clip(-x, 0, bw - 1) as usize;
    let right = clip(x + bw - iw, 0, bw - 1) as usize;
    let top = clip(-y, 0, bh - 1) as usize;
    let bottom = clip(y + bh - ih, 0, bh - 1) as usize;
    let bw = bw as usize;
    let bh = bh as usize;
    let cw = bw - left - right;
    let ch = bh - top - bottom;
    let ds = dst_stride;
    let rs = ref_stride;

    // the visible part, with its left and right extensions
    let mut t: usize = 0;
    let ghost rows0 = |q: int| top <= q < top;
    assert(rows_written(dst@, orig, ds as int, bw as int, rows0, val));
    while t < ch
        invariant
            t <= ch,
            top + ch <= bh,
            cw + left + right == bw,
            cw >= 1,
            cy + ch - 1 <= ih - 1,
            cx + cw - 1 <= iw - 1,
            cy == spec_iclip(y as int, 0, ih - 1),
            cx == spec_iclip(x as int, 0, iw - 1),
            left == spec_ext_before(x as int, bw as int),
            top == spec_ext_before(y as int, bh as int),
            forall|c: int| left <= c < left + cw ==> #[trigger] spec_iclip(x + c, 0, iw - 1) == cx + c - left,
            forall|c: int| 0 <= c < left ==> #[trigger] spec_iclip(x + c, 0, iw - 1) == cx,
            forall|c: int| left + cw <= c < bw ==> #[trigger] spec_iclip(x + c, 0, iw - 1) == cx + cw - 1,
            forall|c: int| top <= c < top + ch ==> #[trigger] spec_iclip(y + c, 0, ih - 1) == cy + c - top,
            rect_fits(0, ds as int, bw as int, bh as int, orig.len() as int),
            rect_fits(ref_off as int, rs as int, iw as int, ih as int, refp.len() as int),
            val == (|r: int, c: int| spec_edge_px(refp@, ref_off as int, rs as int, iw as int, ih as int, y + r, x + c)),
            rows_written(dst@, orig, ds as int, bw as int, |q: int| top <= q < top + t, val),
            dst.len() == orig.len(),
        decreases ch - t,
    {
        proof {
            lemma_rect_row(0, ds as int, bw as int, bh as int, orig.len() as int, (top + t) as int);
            lemma_rect_row(ref_off as int, rs as int, iw as int, ih as int, refp.len() as int, (cy + t) as int);
        }
        let blk = (top + t) * ds;
        let ref_pos = ref_off + (cy + t) * rs + cx;
        let ghost cur = dst@;
        emu_row(dst, blk, left, cw, right, refp, ref_pos);
        proof {
            assert forall|k: int| 0 <= k < bw implies #[trigger] dst@[(top + t) * ds + k] == val((top + t) as int, k) by {
                assert(spec_iclip(y + (top + t), 0, ih - 1) == cy + t);
                if k < left {
                    assert(spec_iclip(x + k, 0, iw - 1) == cx);
                } else if k < left + cw {
                    assert(spec_iclip(x + k, 0, iw - 1) == cx + k - left);
                } else {
                    assert(spec_iclip(x + k, 0, iw - 1) == cx + cw - 1);
                }
            }
            lemma_rows_add(cur, dst@, orig, ds as int, bw as int, |q: int| top <= q < top + t, |q: int| top <= q < top + t + 1,
                val, (top + t) as int);
        }
        t += 1;
    }

    // the rows above, copies of the first visible row
    let mut r: usize = 0;
    while r < top
        invariant
            r <= top,
            top + ch <= bh,
            ch >= 1,
            forall|c: int| 0 <= c < top ==> #[trigger] spec_iclip(y + c, 0, ih - 1) == cy,
            spec_iclip(y + top, 0, ih - 1) == cy,
            rect_fits(0, ds as int, bw as int, bh as int, orig.len() as int),
            val == (|r: int, c: int| spec_edge_px(refp@, ref_off as int, rs as int, iw as int, ih as int, y + r, x + c)),
            rows_written(dst@, orig, ds as int, bw as int, |q: int| q < r || (top <= q < top + ch), val),
            dst.len() == orig.len(),
            bw >= 1,
        decreases top - r,
    {
        proof {
            lemma_rect_row(0, ds as int, bw as int, bh as int, orig.len() as int, r as int);
            lemma_rect_row(0, ds as int, bw as int, bh as int, orig.len() as int, top as int);
            assert(r * ds + bw <= top * ds) by (nonlinear_arith)
                requires
                    r < top,
                    bw <= ds,
            ;
        }
        let ghost cur = dst@;
        copy_within(dst, top * ds, r * ds, bw);
        proof {
            assert forall|k: int| 0 <= k < bw implies #[trigger] dst@[r * ds + k] == val(r as int, k) by {
                lemma_pos(0, ds as int, top as int, k);
                assert(cur[top * ds + k] == val(top as int, k));
            }
            lemma_rows_add(cur, dst@, orig, ds as int, bw as int, |q: int| q < r || (top <= q < top + ch),
                |q: int| q < r + 1 || (top <= q < top + ch), val, r as int);
        }
        r += 1;
    }

    // the rows below, copies of the last visible row
    let mut r: usize = top + ch;
    while r < bh
        invariant
            top + ch <= r <= bh,
            ch >= 1,
            forall|c: int| top + ch - 1 <= c < bh ==> #[trigger] spec_iclip(y + c, 0, ih - 1) == cy + ch - 1,
            rect_fits(0, ds as int, bw as int, bh as int, orig.len() as int),
            val == (|r: int, c: int| spec_edge_px(refp@, ref_off as int, rs as int, iw as int, ih as int, y + r, x + c)),
            rows_written(dst@, orig, ds as int, bw as int, |q: int| q < r, val),
            dst.len() == orig.len(),
            bw >= 1,
        decreases bh - r,
    {
        proof {
            lemma_rect_row(0, ds as int, bw as int, bh as int, orig.len() as int, r as int);
            lemma_rect_row(0, ds as int, bw as int, bh as int, orig.len() as int, (r - 1) as int);
            assert((r - 1) * ds + bw <= r * ds) by (nonlinear_arith)
                requires
                    r >= 1,
                    bw <= ds,
            ;
        }
        let ghost cur = dst@;
        copy_within(dst, (r - 1) * ds, r * ds, bw);
        proof {
            assert forall|k: int| 0 <= k < bw implies #[trigger] dst@[r * ds + k] == val(r as int, k) by {
                lemma_pos(0, ds as int, (r - 1) as int, k);
                assert(cur[(r - 1) * ds + k] == val((r - 1) as int, k));
                assert(spec_iclip(y + (r - 1), 0, ih - 1) == cy + ch - 1);
                assert(spec_iclip(y + r, 0, ih - 1) == cy + ch - 1);
            }
            lemma_rows_add(cur, dst@, orig, ds as int, bw as int, |q: int| q < r, |q: int| q < r + 1, val, r as int);
        }
        r += 1;
    }
    proof {
        assert forall|i: int| 0 <= i < dst@.len() implies #[trigger] dst@[i] == if in_rect_before(i, 0, ds as int, bw as int, bh as int, 0) {
            val(row_of(i, 0, ds as int), col_of(i, 0, ds as int))
        } else {
            orig[i]
        } by {
            lemma_pos_inverse(i, 0, ds as int);
        }
    }
}

/// Inside the picture, edge emulation reads the picture itself; outside it,
/// the pixel of the nearest picture position.
pub proof fn lemma_edge_px_inside(refp: Seq<u16>, off: int, stride: int, iw: int, ih: int, y: int, x: int)
    requires
        iw >= 1,
        ih >= 1,
    ensures
        0 <= y < ih && 0 <= x < iw ==> spec_edge_px(refp, off, stride, iw, ih, y, x) == refp[off + y * stride + x],
        spec_edge_px(refp, off, stride, iw, ih, y, x) == spec_edge_px(refp, off, stride, iw, ih, spec_iclip(y, 0, ih - 1),
            spec_iclip(x, 0, iw - 1)),
{
}

} // verus!

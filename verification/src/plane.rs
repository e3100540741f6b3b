//! Pixel planes held as flat buffers with a row stride, and the rectangle
//! bookkeeping that the block operations share.
use vstd::prelude::*;
use vstd::arithmetic::div_mod::{lemma_fundamental_div_mod, lemma_fundamental_div_mod_converse, lemma_mod_bound, lemma_div_pos_is_pos};
use vstd::arithmetic::mul::{lemma_mul_inequality, lemma_mul_nonnegative};

verus! {

/// The row of buffer index `i` in a plane that starts at `off` with row stride `stride`.
pub open spec fn row_of(i: int, off: int, stride: int) -> int {
    (i - off) / stride
}

/// The column of buffer index `i` in a plane that starts at `off` with row stride `stride`.
pub open spec fn col_of(i: int, off: int, stride: int) -> int {
    (i - off) % stride
}

/// Index `i` belongs to the `w`-wide block at `off`, in one of its first `y`
/// rows, or in row `y` left of column `x`.
pub open spec fn in_rect_before(i: int, off: int, stride: int, w: int, y: int, x: int) -> bool {
    &&& i >= off
    &&& {
        ||| row_of(i, off, stride) < y && col_of(i, off, stride) < w
        ||| row_of(i, off, stride) == y && col_of(i, off, stride) < x
    }
}

/// Index `i` belongs to the `w` by `h` block at `off`.
pub open spec fn in_rect(i: int, off: int, stride: int, w: int, h: int) -> bool {
    in_rect_before(i, off, stride, w, h, 0)
}

/// The whole `w` by `h` block at `off` lies inside a buffer of length `len`.
pub open spec fn rect_fits(off: int, stride: int, w: int, h: int, len: int) -> bool {
    &&& 0 <= off
    &&& 0 <= w <= stride
    &&& 0 < stride
    &&& h >= 0
    &&& (h > 0 ==> off + (h - 1) * stride + w <= len)
}

/// `cur` is `orig` with the part of the block before `(y, x)` overwritten by `f`.
pub open spec fn rect_written<T>(
    cur: Seq<T>,
    orig: Seq<T>,
    off: int,
    stride: int,
    w: int,
    y: int,
    x: int,
    f: spec_fn(int, int) -> T,
) -> bool {
    &&& cur.len() == orig.len()
    &&& forall|i: int|
        0 <= i < cur.len() ==> #[trigger] cur[i] == if in_rect_before(i, off, stride, w, y, x) {
            f(row_of(i, off, stride), col_of(i, off, stride))
        } else {
            orig[i]
        }
}

/// Buffer index `off + y * stride + x` has row `y` and column `x`.
pub proof fn lemma_pos(off: int, stride: int, y: int, x: int)
    requires
        0 < stride,
        0 <= x < stride,
    ensures
        row_of(off + y * stride + x, off, stride) == y,
        col_of(off + y * stride + x, off, stride) == x,
{
    assert(off + y * stride + x - off == stride * y + x) by (nonlinear_arith);
    lemma_fundamental_div_mod_converse(off + y * stride + x - off, stride, y, x);
}

/// An index at or after `off` is determined by its row and column.
pub proof fn lemma_pos_inverse(i: int, off: int, stride: int)
    requires
        0 < stride,
        i >= off,
    ensures
        i == off + row_of(i, off, stride) * stride + col_of(i, off, stride),
        row_of(i, off, stride) >= 0,
        0 <= col_of(i, off, stride) < stride,
{
    lemma_fundamental_div_mod(i - off, stride);
    lemma_mod_bound(i - off, stride);
    lemma_div_pos_is_pos(i - off, stride);
    assert(stride * row_of(i, off, stride) == row_of(i, off, stride) * stride) by (nonlinear_arith);
}

/// Position `(y, x)` of a block that fits lies inside the buffer.
pub proof fn lemma_rect_index(off: int, stride: int, w: int, h: int, len: int, y: int, x: int)
    requires
        rect_fits(off, stride, w, h, len),
        0 <= y < h,
        0 <= x < w,
    ensures
        0 <= off + y * stride + x < len,
        0 <= y * stride <= (h - 1) * stride,
{
    lemma_mul_inequality(y, h - 1, stride);
    lemma_mul_nonnegative(y, stride);
}

/// The first index of row `y` of a block that fits lies inside the buffer, with
/// room for the row.
pub proof fn lemma_rect_row(off: int, stride: int, w: int, h: int, len: int, y: int)
    requires
        rect_fits(off, stride, w, h, len),
        0 <= y < h,
    ensures
        0 <= off + y * stride,
        off + y * stride + w <= len,
        0 <= y * stride <= (h - 1) * stride,
{
    lemma_mul_inequality(y, h - 1, stride);
    lemma_mul_nonnegative(y, stride);
}

/// Nothing of the block has been written yet.
pub proof fn lemma_rect_start<T>(orig: Seq<T>, off: int, stride: int, w: int, f: spec_fn(int, int) -> T)
    requires
        0 < stride,
    ensures
        rect_written(orig, orig, off, stride, w, 0, 0, f),
{
    assert forall|i: int| 0 <= i < orig.len() implies !in_rect_before(i, off, stride, w, 0, 0) by {
        if i >= off {
            lemma_pos_inverse(i, off, stride);
        }
    }
}

/// Writing `f(y, x)` at position `(y, x)` extends the written part by one.
pub proof fn lemma_rect_step<T>(
    cur: Seq<T>,
    orig: Seq<T>,
    off: int,
    stride: int,
    w: int,
    y: int,
    x: int,
    f: spec_fn(int, int) -> T,
)
    requires
        rect_written(cur, orig, off, stride, w, y, x, f),
        0 < stride,
        0 <= off,
        0 <= x < w <= stride,
        0 <= y,
        0 <= off + y * stride + x < cur.len(),
    ensures
        rect_written(cur.update(off + y * stride + x, f(y, x)), orig, off, stride, w, y, x + 1, f),
{
    let j = off + y * stride + x;
    lemma_pos(off, stride, y, x);
    let nxt = cur.update(j, f(y, x));
    assert forall|i: int| 0 <= i < nxt.len() implies #[trigger] nxt[i] == if in_rect_before(
        i,
        off,
        stride,
        w,
        y,
        x + 1,
    ) {
        f(row_of(i, off, stride), col_of(i, off, stride))
    } else {
        orig[i]
    } by {
        if i != j {
            assert(nxt[i] == cur[i]);
            if i >= off {
                lemma_pos_inverse(i, off, stride);
                assert(!(row_of(i, off, stride) == y && col_of(i, off, stride) == x));
            }
        }
    }
}

/// A finished row moves the written part to the start of the next row.
pub proof fn lemma_rect_next_row<T>(
    cur: Seq<T>,
    orig: Seq<T>,
    off: int,
    stride: int,
    w: int,
    y: int,
    f: spec_fn(int, int) -> T,
)
    requires
        rect_written(cur, orig, off, stride, w, y, w, f),
        0 < stride,
        0 <= w,
    ensures
        rect_written(cur, orig, off, stride, w, y + 1, 0, f),
{
    assert forall|i: int| 0 <= i < cur.len() implies in_rect_before(i, off, stride, w, y, w)
        == in_rect_before(i, off, stride, w, y + 1, 0) by {
        if i >= off {
            lemma_pos_inverse(i, off, stride);
        }
    }
}

/// A finished block holds `f(y, x)` at every position `(y, x)`.
pub proof fn lemma_rect_get<T>(cur: Seq<T>, orig: Seq<T>, off: int, stride: int, w: int, h: int, f: spec_fn(int, int) -> T, y: int, x: int)
    requires
        rect_written(cur, orig, off, stride, w, h, 0, f),
        rect_fits(off, stride, w, h, cur.len() as int),
        0 <= y < h,
        0 <= x < w,
    ensures
        0 <= off + y * stride + x < cur.len(),
        cur[off + y * stride + x] == f(y, x),
{
    lemma_rect_index(off, stride, w, h, cur.len() as int, y, x);
    lemma_pos(off, stride, y, x);
}

/// A stride in bytes of 16-bit pixels as a stride in pixels.
pub fn pxstride(x: isize) -> (r: isize)
    requires
        x % 2 == 0,
    ensures
        r == x / 2,
{
    x / 2
}

/// Rows `ylo` to `yhi - 1` and columns `xlo` to `xhi - 1` around `off` lie
/// inside a buffer of length `len` (negative rows and columns allowed).
pub open spec fn window_fits(len: int, off: int, stride: int, ylo: int, yhi: int, xlo: int, xhi: int) -> bool {
    &&& 0 <= stride
    &&& ylo < yhi
    &&& xlo < xhi
    &&& off + ylo * stride + xlo >= 0
    &&& off + (yhi - 1) * stride + xhi <= len
}

/// Position `(y, x)` of a window that fits lies inside the buffer.
pub proof fn lemma_window_index(len: int, off: int, stride: int, ylo: int, yhi: int, xlo: int, xhi: int, y: int, x: int)
    requires
        window_fits(len, off, stride, ylo, yhi, xlo, xhi),
        ylo <= y < yhi,
        xlo <= x < xhi,
    ensures
        0 <= off + y * stride + x < len,
{
    lemma_mul_inequality(ylo, y, stride);
    lemma_mul_inequality(y, yhi - 1, stride);
}

/// Fills the `w` by `h` block at `off` of `dst` (row stride `stride`) with the
/// values `f(y, x)`, row by row; `g` is what `f` computes.
pub fn write_block<T, F: Fn(usize, usize) -> T>(
    dst: &mut Vec<T>,
    off: usize,
    stride: usize,
    w: usize,
    h: usize,
    f: F,
    Ghost(g): Ghost<spec_fn(int, int) -> T>,
)
    requires
        rect_fits(off as int, stride as int, w as int, h as int, old(dst).len() as int),
        forall|y: usize, x: usize| y < h && x < w ==> #[trigger] f.requires((y, x)),
        forall|y: usize, x: usize, v: T| y < h && x < w && #[trigger] f.ensures((y, x), v) ==> v == g(y as int, x as int),
    ensures
        rect_written(final(dst)@, old(dst)@, off as int, stride as int, w as int, h as int, 0, g),
{
    let ghost orig = dst@;
    proof {
        lemma_rect_start(orig, off as int, stride as int, w as int, g);
    }
    let mut y: usize = 0;
    while y < h
        invariant
            rect_fits(off as int, stride as int, w as int, h as int, orig.len() as int),
            forall|y: usize, x: usize| y < h && x < w ==> #[trigger] f.requires((y, x)),
            forall|y: usize, x: usize, v: T| y < h && x < w && #[trigger] f.ensures((y, x), v) ==> v == g(y as int, x as int),
            0 <= y <= h,
            orig == old(dst)@,
            rect_written(dst@, orig, off as int, stride as int, w as int, y as int, 0, g),
        decreases h - y,
    {
        proof {
            lemma_rect_row(off as int, stride as int, w as int, h as int, dst.len() as int, y as int);
        }
        let row = off + y * stride;
        let mut x: usize = 0;
        while x < w
            invariant
                rect_fits(off as int, stride as int, w as int, h as int, orig.len() as int),
                forall|y: usize, x: usize| y < h && x < w ==> #[trigger] f.requires((y, x)),
                forall|y: usize, x: usize, v: T| y < h && x < w && #[trigger] f.ensures((y, x), v) ==> v == g(y as int, x as int),
                0 <= y < h,
                0 <= x <= w,
                row == off + y * stride,
                orig == old(dst)@,
                rect_written(dst@, orig, off as int, stride as int, w as int, y as int, x as int, g),
            decreases w - x,
        {
            proof {
                lemma_rect_index(off as int, stride as int, w as int, h as int, dst.len() as int, y as int, x as int);
                lemma_rect_step(dst@, orig, off as int, stride as int, w as int, y as int, x as int, g);
            }
            let v = f(y, x);
            dst.set(row + x, v);
            x += 1;
        }
        proof {
            lemma_rect_next_row(dst@, orig, off as int, stride as int, w as int, y as int, g);
        }
        y += 1;
    }
}

/// Position `(y, x)` is not yet written while the writing is at `(y, x)`.
pub proof fn lemma_rect_unwritten_here(off: int, stride: int, w: int, y: int, x: int)
    requires
        0 < stride,
        0 <= off,
        0 <= x < w <= stride,
        0 <= y,
    ensures
        !in_rect_before(off + y * stride + x, off, stride, w, y, x),
{
    lemma_pos(off, stride, y, x);
}

/// Replaces each value `v` at position `(y, x)` of the `w` by `h` block at
/// `off` of `dst` with `f(y, x, v)`; `g` is what `f` computes.
pub fn update_block<T: Copy, F: Fn(usize, usize, T) -> T>(
    dst: &mut Vec<T>,
    off: usize,
    stride: usize,
    w: usize,
    h: usize,
    f: F,
    Ghost(g): Ghost<spec_fn(int, int, T) -> T>,
)
    requires
        rect_fits(off as int, stride as int, w as int, h as int, old(dst).len() as int),
        forall|y: usize, x: usize, v: T| y < h && x < w ==> #[trigger] f.requires((y, x, v)),
        forall|y: usize, x: usize, v: T, r: T|
            y < h && x < w && #[trigger] f.ensures((y, x, v), r) ==> r == g(y as int, x as int, v),
    ensures
        rect_written(final(dst)@, old(dst)@, off as int, stride as int, w as int, h as int, 0,
            |y: int, x: int| g(y, x, old(dst)@[off + y * stride + x])),
{
    let ghost orig = dst@;
    let ghost gg = |y: int, x: int| g(y, x, orig[off + y * stride + x]);
    proof {
        lemma_rect_start(orig, off as int, stride as int, w as int, gg);
    }
    let mut y: usize = 0;
    while y < h
        invariant
            rect_fits(off as int, stride as int, w as int, h as int, orig.len() as int),
            forall|y: usize, x: usize, v: T| y < h && x < w ==> #[trigger] f.requires((y, x, v)),
            forall|y: usize, x: usize, v: T, r: T|
                y < h && x < w && #[trigger] f.ensures((y, x, v), r) ==> r == g(y as int, x as int, v),
            0 <= y <= h,
            orig == old(dst)@,
            gg == (|y: int, x: int| g(y, x, orig[off + y * stride + x])),
            rect_written(dst@, orig, off as int, stride as int, w as int, y as int, 0, gg),
        decreases h - y,
    {
        proof {
            lemma_rect_row(off as int, stride as int, w as int, h as int, dst.len() as int, y as int);
        }
        let row = off + y * stride;
        let mut x: usize = 0;
        while x < w
            invariant
                rect_fits(off as int, stride as int, w as int, h as int, orig.len() as int),
                forall|y: usize, x: usize, v: T| y < h && x < w ==> #[trigger] f.requires((y, x, v)),
                forall|y: usize, x: usize, v: T, r: T|
                    y < h && x < w && #[trigger] f.ensures((y, x, v), r) ==> r == g(y as int, x as int, v),
                0 <= y < h,
                0 <= x <= w,
                row == off + y * stride,
                orig == old(dst)@,
                gg == (|y: int, x: int| g(y, x, orig[off + y * stride + x])),
                rect_written(dst@, orig, off as int, stride as int, w as int, y as int, x as int, gg),
            decreases w - x,
        {
            proof {
                lemma_rect_index(off as int, stride as int, w as int, h as int, dst.len() as int, y as int, x as int);
                lemma_rect_unwritten_here(off as int, stride as int, w as int, y as int, x as int);
                lemma_rect_step(dst@, orig, off as int, stride as int, w as int, y as int, x as int, gg);
            }
            let cur = dst[row + x];
            let v = f(y, x, cur);
            dst.set(row + x, v);
            x += 1;
        }
        proof {
            lemma_rect_next_row(dst@, orig, off as int, stride as int, w as int, y as int, gg);
        }
        y += 1;
    }
}

} // verus!

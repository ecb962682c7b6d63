use vstd::prelude::*;
use vstd::arithmetic::div_mod::{
    lemma_fundamental_div_mod, lemma_fundamental_div_mod_converse, lemma_mod_bound,
};
use vstd::arithmetic::mul::{lemma_mul_inequality, lemma_mul_is_distributive_sub_other_way};
use crate::errors::VisError;

verus! {

/// Rows and columns of the tile grid, derived once from the channel count.
#[derive(Clone, Copy, Debug, PartialEq, Eq, Structural)]
pub struct GridLayout {
    pub rows: usize,
    pub cols: usize,
}

/// The column count for `c` channels: the channel count itself, capped at three.
pub open spec fn grid_cols(c: int) -> int {
    if c < 3 {
        c
    } else {
        3
    }
}

/// The row count for `c` channels: ceiling division of the channel count by
/// the column count, so that every channel has a tile and no trailing row is
/// entirely empty.
pub open spec fn grid_rows(c: int) -> int {
    (c + grid_cols(c) - 1) / grid_cols(c)
}

impl GridLayout {
    /// The layout that the planner owes channel count `c`.
    pub open spec fn fits(self, c: int) -> bool {
        &&& self.cols == grid_cols(c)
        &&& self.rows == grid_rows(c)
    }
}

/// Every layout that fits a positive channel count has a tile for each
/// channel (`rows * cols >= c`) and needs its last row (`(rows - 1) * cols < c`).
pub proof fn lemma_grid_covers(g: GridLayout, c: int)
    requires
        1 <= c,
        g.fits(c),
    ensures
        1 <= g.cols <= 3,
        g.cols <= c,
        1 <= g.rows,
        g.rows * g.cols >= c,
        (g.rows - 1) * g.cols < c,
{
    let k = grid_cols(c);
    let r = grid_rows(c);
    lemma_fundamental_div_mod(c + k - 1, k);
    lemma_mod_bound(c + k - 1, k);
    vstd::arithmetic::div_mod::lemma_div_non_zero(c + k - 1, k);
    assert(g.rows * g.cols == r * k);
    assert((g.rows - 1) * g.cols == r * k - k) by {
        lemma_mul_is_distributive_sub_other_way(k, r, 1);
    }
}

/// Plan the tile grid for `c` channels.
///
/// For a positive channel count the result is the unique layout with
/// `cols = min(3, c)` and `rows = ceil(c / cols)`; a zero channel count is
/// rejected.
pub fn plan_layout(c: usize) -> (r: Result<GridLayout, VisError>)
    ensures
        c == 0 ==> r == Err::<GridLayout, VisError>(VisError::InvalidInputError),
        c >= 1 ==> (r matches Ok(g) && g.fits(c as int)),
{
    if c == 0 {
        return Err(VisError::InvalidInputError);
    }
    let cols: usize = if c < 3 { c } else { 3 };
    let rows: usize = c / cols + (if c % cols == 0 { 0 } else { 1 });
    proof {
        lemma_ceil_div_by_parts(c as int, cols as int);
    }
    Ok(GridLayout { rows, cols })
}

/// Ceiling division written as quotient plus a carry equals the usual
/// `(c + k - 1) / k` form.
proof fn lemma_ceil_div_by_parts(c: int, k: int)
    requires
        1 <= k,
        0 <= c,
    ensures
        (c + k - 1) / k == c / k + (if c % k == 0 { 0int } else { 1int }),
{
    let q = c / k;
    let m = c % k;
    lemma_fundamental_div_mod(c, k);
    lemma_mod_bound(c, k);
    if m == 0 {
        // c + k - 1 == k * q + (k - 1)
        lemma_fundamental_div_mod_converse(c + k - 1, k, q, k - 1);
    } else {
        // c + k - 1 == k * (q + 1) + (m - 1)
        assert(c + k - 1 == k * (q + 1) + (m - 1)) by {
            assert(k * (q + 1) == k * q + k) by {
                vstd::arithmetic::mul::lemma_mul_is_distributive_add(k, q, 1);
            }
        }
        lemma_fundamental_div_mod_converse(c + k - 1, k, q + 1, m - 1);
    }
}

/// One rectangular sub-region of the canvas in pixel coordinates, the
/// half-open box `[x0, x1) × [y0, y1)`, dedicated to one channel's chart.
#[derive(Clone, Copy, Debug, PartialEq, Eq, Structural)]
pub struct TileRect {
    pub x0: u32,
    pub y0: u32,
    pub x1: u32,
    pub y1: u32,
}

/// The `k`-th cut point when a span of `size` pixels is split into `n`
/// parts as evenly as possible: every part gets `size / n` pixels and the
/// first `size % n` parts one more each.
pub open spec fn cut(size: int, n: int, k: int) -> int {
    k * (size / n) + (if k < size % n {
        k
    } else {
        size % n
    })
}

/// Tile `i` of layout `g` on a `w` × `h` canvas, in row-major order:
/// channel `i` sits in row `i / cols`, column `i % cols`, and its box is
/// bounded by the even-split cut points of the two axes.
pub open spec fn is_tile_of(t: TileRect, g: GridLayout, w: int, h: int, i: int) -> bool {
    let row = i / (g.cols as int);
    let col = i % (g.cols as int);
    &&& t.x0 == cut(w, g.cols as int, col)
    &&& t.x1 == cut(w, g.cols as int, col + 1)
    &&& t.y0 == cut(h, g.rows as int, row)
    &&& t.y1 == cut(h, g.rows as int, row + 1)
}

/// Cut points grow with `k` and never pass the end of the span.
proof fn lemma_cut_bounds(size: int, n: int, k1: int, k2: int)
    requires
        1 <= n,
        0 <= size,
        0 <= k1 <= k2 <= n,
    ensures
        0 <= cut(size, n, k1) <= cut(size, n, k2) <= size,
{
    let q = size / n;
    let m = size % n;
    lemma_fundamental_div_mod(size, n);
    lemma_mod_bound(size, n);
    vstd::arithmetic::div_mod::lemma_div_pos_is_pos(size, n);
    lemma_mul_inequality(k1, k2, q);
    lemma_mul_inequality(k2, n, q);
    assert(n * q == size - m);
}

/// A span at least as long as the number of parts gives every part at
/// least one pixel: consecutive cut points are strictly apart.
proof fn lemma_cut_strict(size: int, n: int, k: int)
    requires
        1 <= n <= size,
        0 <= k < n,
    ensures
        cut(size, n, k) < cut(size, n, k + 1),
{
    lemma_fundamental_div_mod(size, n);
    lemma_mod_bound(size, n);
    assert(size / n >= 1) by {
        vstd::arithmetic::div_mod::lemma_div_non_zero(size, n);
    }
    assert((k + 1) * (size / n) == k * (size / n) + size / n) by {
        vstd::arithmetic::mul::lemma_mul_is_distributive_add_other_way(size / n, k, 1);
    }
}

/// The even-split cut point, computed executably.
fn cut_point(size: u32, n: usize, k: usize) -> (r: u32)
    requires
        1 <= n,
        k <= n,
    ensures
        r == cut(size as int, n as int, k as int),
        r <= size,
{
    let q: usize = (size as usize) / n;
    let m: usize = (size as usize) % n;
    let extra: usize = if k < m { k } else { m };
    proof {
        lemma_cut_bounds(size as int, n as int, k as int, n as int);
        lemma_fundamental_div_mod(size as int, n as int);
        lemma_mod_bound(size as int, n as int);
        lemma_mul_inequality(k as int, n as int, q as int);
        assert((n as int) * (q as int) == size - m);
    }
    (k * q + extra) as u32
}

/// Enumerate the tiles for channels `0 .. c` on a `w` × `h` canvas, in
/// row-major order: exactly one tile per channel, each at the even-split
/// cut points of its row and column.
pub fn tile_rects(g: GridLayout, c: usize, w: u32, h: u32) -> (r: Vec<TileRect>)
    requires
        1 <= c,
        g.fits(c as int),
    ensures
        r@.len() == c,
        forall|i: int| 0 <= i < c ==> is_tile_of(#[trigger] r@[i], g, w as int, h as int, i),
{
    proof {
        lemma_grid_covers(g, c as int);
    }
    let mut out: Vec<TileRect> = Vec::new();
    let mut i: usize = 0;
    while i < c
        invariant
            i <= c,
            1 <= c,
            g.fits(c as int),
            out@.len() == i,
            forall|j: int| 0 <= j < i ==> is_tile_of(#[trigger] out@[j], g, w as int, h as int, j),
        decreases c - i,
    {
        proof {
            lemma_grid_covers(g, c as int);
            lemma_mod_bound(i as int, g.cols as int);
            lemma_mul_inequality(c as int, g.rows as int * g.cols as int, 1);
            assert(i < (g.cols as int) * (g.rows as int)) by {
                vstd::arithmetic::mul::lemma_mul_is_commutative(g.rows as int, g.cols as int);
            }
            vstd::arithmetic::div_mod::lemma_multiply_divide_lt(
                i as int,
                g.cols as int,
                g.rows as int,
            );
        }
        let row: usize = i / g.cols;
        let col: usize = i % g.cols;
        let x0 = cut_point(w, g.cols, col);
        let x1 = cut_point(w, g.cols, col + 1);
        let y0 = cut_point(h, g.rows, row);
        let y1 = cut_point(h, g.rows, row + 1);
        out.push(TileRect { x0, y0, x1, y1 });
        i = i + 1;
    }
    out
}

/// The tiles of two distinct channels never overlap: they are separated
/// along the column axis or along the row axis, so no pixel lies in both
/// half-open boxes. With a canvas at least as wide as the column count and
/// at least as tall as the row count, each tile is also non-empty, so the
/// `c` tiles are pairwise distinct rectangles.
pub proof fn lemma_tiles_disjoint(
    g: GridLayout,
    c: int,
    w: int,
    h: int,
    i: int,
    j: int,
    ti: TileRect,
    tj: TileRect,
)
    requires
        1 <= c,
        g.fits(c),
        0 <= w,
        0 <= h,
        0 <= i < c,
        0 <= j < c,
        i != j,
        is_tile_of(ti, g, w, h, i),
        is_tile_of(tj, g, w, h, j),
    ensures
        ti.x1 <= tj.x0 || tj.x1 <= ti.x0 || ti.y1 <= tj.y0 || tj.y1 <= ti.y0,
        g.cols <= w && g.rows <= h ==> ti.x0 < ti.x1 && ti.y0 < ti.y1,
{
    lemma_grid_covers(g, c);
    let k = g.cols as int;
    let rows = g.rows as int;
    let ri = i / k;
    let ci = i % k;
    let rj = j / k;
    let cj = j % k;
    lemma_fundamental_div_mod(i, k);
    lemma_fundamental_div_mod(j, k);
    lemma_mod_bound(i, k);
    lemma_mod_bound(j, k);
    vstd::arithmetic::div_mod::lemma_div_pos_is_pos(i, k);
    vstd::arithmetic::div_mod::lemma_div_pos_is_pos(j, k);
    assert(i < k * rows) by {
        lemma_mul_inequality(c, rows * k, 1);
        vstd::arithmetic::mul::lemma_mul_is_commutative(rows, k);
    }
    vstd::arithmetic::div_mod::lemma_multiply_divide_lt(i, k, rows);
    assert(j < k * rows);
    vstd::arithmetic::div_mod::lemma_multiply_divide_lt(j, k, rows);
    if ri == rj {
        assert(ci != cj) by {
            if ci == cj {
                assert(i == k * ri + ci);
                assert(j == k * rj + cj);
            }
        }
        if ci < cj {
            lemma_cut_bounds(w, k, ci + 1, cj);
        } else {
            lemma_cut_bounds(w, k, cj + 1, ci);
        }
    } else if ri < rj {
        lemma_cut_bounds(h, rows, ri + 1, rj);
    } else {
        lemma_cut_bounds(h, rows, rj + 1, ri);
    }
    if g.cols <= w && g.rows <= h {
        lemma_cut_strict(w, k, ci);
        lemma_cut_strict(h, rows, ri);
    }
}

} // verus!

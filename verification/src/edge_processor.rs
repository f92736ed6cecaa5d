//! The edge downscaler: histogram majority vote with a density gate.
//!
//! Each output cell covers a `tile_size × tile_size` block of per-pixel edge
//! classes. The cell receives the block's most frequent class — ties broken
//! in favour of the class that reached the winning count first in a row-major
//! scan — but only when the block's density of *distinct* classes reaches the
//! threshold ratio; otherwise the cell stays at class 0 (none). The ratio is
//! given as the fraction `thres_num / thres_den`, so the density test is
//! exact in integers. A ratio of 0 lets every block through; a ratio of 1 demands one
//! distinct class per pixel, which no block of more than five pixels can
//! reach with only five classes.

use vstd::prelude::*;

use vstd::arithmetic::div_mod::{lemma_div_is_ordered, lemma_fundamental_div_mod_converse};
use vstd::arithmetic::mul::{
    lemma_mul_is_commutative, lemma_mul_nonnegative, lemma_mul_strict_inequality,
};

use crate::edge_detect::class_values_ok;
use crate::grid::lemma_grid_index;
use crate::grid::Grid;

verus! {

/// The `tile_size × tile_size` block of `g` covered by output cell `(i, j)`,
/// flattened row-major.
pub open spec fn block_seq(g: Grid<u8>, i: int, j: int, ts: int) -> Seq<u8> {
    Seq::new((ts * ts) as nat, |k: int| g.at(i * ts + k / ts, j * ts + k % ts))
}

/// How often `c` occurs among the first `k` elements of `s`.
pub open spec fn count_in_prefix(s: Seq<u8>, c: u8, k: int) -> int
    decreases k,
{
    if k <= 0 {
        0
    } else {
        count_in_prefix(s, c, k - 1) + if s[k - 1] == c {
            1int
        } else {
            0int
        }
    }
}

/// The (count, class) pair held after scanning the first `k` elements of `s`,
/// updating only on a strictly greater count, so that a tie keeps the class
/// that reached the winning count first.
pub open spec fn scan_state(s: Seq<u8>, k: int) -> (int, u8)
    decreases k,
{
    if k <= 0 {
        (0int, 0u8)
    } else {
        let prev = scan_state(s, k - 1);
        let c = count_in_prefix(s, s[k - 1], k);
        if c > prev.0 {
            (c, s[k - 1])
        } else {
            prev
        }
    }
}

/// The majority class of `s` under the row-major first-seen tie-break.
pub open spec fn mode_spec(s: Seq<u8>) -> u8 {
    scan_state(s, s.len() as int).1
}

/// Whether class `c` occurs in `s` at all.
pub open spec fn present(s: Seq<u8>, c: u8) -> bool {
    count_in_prefix(s, c, s.len() as int) > 0
}

/// How many of the five edge classes occur in `s`.
pub open spec fn distinct_class_count(s: Seq<u8>) -> int {
    (if present(s, 0) {
        1int
    } else {
        0int
    }) + (if present(s, 1) {
        1int
    } else {
        0int
    }) + (if present(s, 2) {
        1int
    } else {
        0int
    }) + (if present(s, 3) {
        1int
    } else {
        0int
    }) + (if present(s, 4) {
        1int
    } else {
        0int
    })
}

/// The density gate: the block's distinct-class density reaches the ratio
/// `num / den`, compared exactly as `distinct * den >= num * (ts * ts)`.
pub open spec fn gate_passes(s: Seq<u8>, num: int, den: int, ts: int) -> bool {
    distinct_class_count(s) * den >= num * (ts * ts)
}

/// What one output cell receives: the block's mode when the block meets the
/// density threshold, otherwise class 0.
pub open spec fn cell_value_spec(s: Seq<u8>, num: int, den: int, ts: int) -> u8 {
    if gate_passes(s, num, den, ts) {
        mode_spec(s)
    } else {
        0u8
    }
}

/// A prefix count is at least 0 and at most the prefix length.
pub proof fn lemma_count_in_prefix_le(s: Seq<u8>, c: u8, k: int)
    requires
        k >= 0,
    ensures
        0 <= count_in_prefix(s, c, k) <= k,
    decreases k,
{
    if k > 0 {
        lemma_count_in_prefix_le(s, c, k - 1);
    }
}

/// The scanned class is either the initial class 0 or an element of the
/// scanned prefix, so it never leaves the five edge classes.
pub proof fn lemma_scan_state_class(s: Seq<u8>, k: int)
    requires
        k >= 0,
        forall|m: int| 0 <= m < s.len() ==> s[m] < 5,
        k <= s.len(),
    ensures
        scan_state(s, k).1 < 5,
    decreases k,
{
    if k > 0 {
        lemma_scan_state_class(s, k - 1);
    }
}

/// At most five distinct classes can ever occur.
pub proof fn lemma_distinct_class_count_bounds(s: Seq<u8>)
    ensures
        0 <= distinct_class_count(s) <= 5,
{
}

/// Downscaler threshold boundary, ratio 0: every block meets the density
/// threshold, so every cell is assigned its block's mode.
pub proof fn lemma_zero_threshold_keeps_mode(s: Seq<u8>, den: int, ts: int)
    requires
        den >= 1,
    ensures
        cell_value_spec(s, 0, den, ts) == mode_spec(s),
{
    lemma_distinct_class_count_bounds(s);
    lemma_mul_nonnegative(distinct_class_count(s), den);
    assert(0 * (ts * ts) == 0) by (nonlinear_arith);
}

/// Downscaler threshold boundary, ratio 1: a block of more than five pixels
/// can never reach one distinct class per pixel, so its cell stays at class
/// 0.
pub proof fn lemma_full_threshold_blanks(s: Seq<u8>, den: int, ts: int)
    requires
        den >= 1,
        ts * ts > 5,
    ensures
        cell_value_spec(s, den, den, ts) == 0,
{
    lemma_distinct_class_count_bounds(s);
    lemma_mul_strict_inequality(distinct_class_count(s), ts * ts, den);
    lemma_mul_is_commutative(ts * ts, den);
}

/// Every element of the block grid that cell `(i, j)` covers lies inside `g`
/// and is one of the five classes.
proof fn lemma_block_elems(g: Grid<u8>, i: int, j: int, ts: int, rows_out: int, cols_out: int)
    requires
        g.wf(),
        class_values_ok(g),
        ts >= 1,
        0 <= i < rows_out,
        0 <= j < cols_out,
        rows_out * ts <= g.rows,
        cols_out * ts <= g.cols,
    ensures
        forall|k: int| 0 <= k < ts * ts ==> #[trigger] block_seq(g, i, j, ts)[k] < 5,
{
    assert forall|k: int| 0 <= k < ts * ts implies #[trigger] block_seq(g, i, j, ts)[k] < 5 by {
        lemma_block_index(g, i, j, ts, rows_out, cols_out, k);
    }
}

/// The source coordinates of block element `k` of cell `(i, j)` are in
/// bounds, and the element is one of the five classes.
proof fn lemma_block_index(
    g: Grid<u8>,
    i: int,
    j: int,
    ts: int,
    rows_out: int,
    cols_out: int,
    k: int,
)
    requires
        g.wf(),
        class_values_ok(g),
        ts >= 1,
        0 <= i < rows_out,
        0 <= j < cols_out,
        rows_out * ts <= g.rows,
        cols_out * ts <= g.cols,
        0 <= k < ts * ts,
    ensures
        0 <= k / ts < ts,
        0 <= k % ts < ts,
        g.in_bounds(i * ts + k / ts, j * ts + k % ts),
        block_seq(g, i, j, ts)[k] == g.at(i * ts + k / ts, j * ts + k % ts),
        block_seq(g, i, j, ts)[k] < 5,
{
    assert(ts * ts - 1 == (ts - 1) * ts + (ts - 1)) by (nonlinear_arith);
    lemma_fundamental_div_mod_converse(ts * ts - 1, ts, ts - 1, ts - 1);
    lemma_div_is_ordered(k, ts * ts - 1, ts);
    lemma_div_is_ordered(0, k, ts);
    assert(i * ts + k / ts < rows_out * ts && j * ts + k % ts < cols_out * ts)
        by (nonlinear_arith)
        requires
            0 <= i < rows_out,
            0 <= j < cols_out,
            0 <= k / ts < ts,
            0 <= k % ts < ts,
            ts >= 1,
    ;
    let r = i * ts + k / ts;
    let c = j * ts + k % ts;
    lemma_grid_index(g.rows as int, g.cols as int, r, c);
    assert(g.at(r, c) == g.data[r * g.cols + c]);
}

/// The edge downscaler.
pub struct EdgeDownscaler {}

impl EdgeDownscaler {
    /// Downscales a per-pixel edge-class buffer to one class per output cell
    /// by histogram majority vote, gated by the distinct-class density
    /// threshold `thres_num / thres_den`.
    pub fn hist_downscale(
        qt_edge_arr: &Grid<u8>,
        tile_size: usize,
        thres_num: u32,
        thres_den: u32,
        new_size: (usize, usize),
    ) -> (r: Grid<u8>)
        requires
            qt_edge_arr.wf(),
            class_values_ok(*qt_edge_arr),
            1 <= tile_size <= u32::MAX,
            1 <= thres_den,
            thres_num <= thres_den,
            new_size.0 * tile_size <= qt_edge_arr.rows,
            new_size.1 * tile_size <= qt_edge_arr.cols,
            new_size.0 * new_size.1 <= usize::MAX,
            tile_size * tile_size <= usize::MAX,
        ensures
            r.wf(),
            r.rows == new_size.0,
            r.cols == new_size.1,
            class_values_ok(r),
            forall|i: int, j: int|
                r.in_bounds(i, j) ==> #[trigger] r.at(i, j) == cell_value_spec(
                    block_seq(*qt_edge_arr, i, j, tile_size as int),
                    thres_num as int,
                    thres_den as int,
                    tile_size as int,
                ),
    {
        let ts = tile_size;
        let rows_out = new_size.0;
        let cols_out = new_size.1;
        let block_len = ts * ts;
        let mut out = Grid::new_fill(rows_out, cols_out, 0u8);
        let mut i: usize = 0;
        while i < rows_out
            invariant
                qt_edge_arr.wf(),
                class_values_ok(*qt_edge_arr),
                1 <= ts <= u32::MAX,
                1 <= thres_den,
                rows_out * ts <= qt_edge_arr.rows,
                cols_out * ts <= qt_edge_arr.cols,
                block_len == ts * ts,
                i <= rows_out,
                out.wf(),
                out.rows == rows_out,
                out.cols == cols_out,
                forall|a: int, b: int|
                    out.in_bounds(a, b) && a < i ==> #[trigger] out.at(a, b) == cell_value_spec(
                        block_seq(*qt_edge_arr, a, b, ts as int),
                        thres_num as int,
                        thres_den as int,
                        ts as int,
                    ),
                forall|a: int, b: int|
                    out.in_bounds(a, b) && a >= i ==> #[trigger] out.at(a, b) == 0,
                class_values_ok(out),
            decreases rows_out - i,
        {
            let mut j: usize = 0;
            while j < cols_out
                invariant
                    qt_edge_arr.wf(),
                    class_values_ok(*qt_edge_arr),
                    1 <= ts <= u32::MAX,
                    1 <= thres_den,
                    rows_out * ts <= qt_edge_arr.rows,
                    cols_out * ts <= qt_edge_arr.cols,
                    block_len == ts * ts,
                    i < rows_out,
                    j <= cols_out,
                    out.wf(),
                    out.rows == rows_out,
                    out.cols == cols_out,
                    forall|a: int, b: int|
                        out.in_bounds(a, b) && (a < i || (a == i && b < j))
                            ==> #[trigger] out.at(a, b) == cell_value_spec(
                            block_seq(*qt_edge_arr, a, b, ts as int),
                            thres_num as int,
                            thres_den as int,
                            ts as int,
                        ),
                    forall|a: int, b: int|
                        out.in_bounds(a, b) && (a > i || (a == i && b >= j))
                            ==> #[trigger] out.at(a, b) == 0,
                    class_values_ok(out),
                decreases cols_out - j,
            {
                let ghost block = block_seq(*qt_edge_arr, i as int, j as int, ts as int);
                proof {
                    lemma_block_elems(
                        *qt_edge_arr,
                        i as int,
                        j as int,
                        ts as int,
                        rows_out as int,
                        cols_out as int,
                    );
                }
                let mut hist: Vec<usize> = vec![0, 0, 0, 0, 0];
                let mut max_count: usize = 0;
                let mut max_val: u8 = 0;
                let mut k: usize = 0;
                while k < block_len
                    invariant
                        qt_edge_arr.wf(),
                        class_values_ok(*qt_edge_arr),
                        1 <= ts <= u32::MAX,
                        i < rows_out,
                        j < cols_out,
                        rows_out * ts <= qt_edge_arr.rows,
                        cols_out * ts <= qt_edge_arr.cols,
                        block_len == ts * ts,
                        block == block_seq(*qt_edge_arr, i as int, j as int, ts as int),
                        k <= block_len,
                        hist.len() == 5,
                        forall|c: int|
                            0 <= c < 5 ==> #[trigger] hist[c] == count_in_prefix(
                                block,
                                c as u8,
                                k as int,
                            ),
                        max_count == scan_state(block, k as int).0,
                        max_val == scan_state(block, k as int).1,
                    decreases block_len - k,
                {
                    let bi = k / ts;
                    let bj = k % ts;
                    proof {
                        lemma_block_index(
                            *qt_edge_arr,
                            i as int,
                            j as int,
                            ts as int,
                            rows_out as int,
                            cols_out as int,
                            k as int,
                        );
                        assert((i as int) * (ts as int) + bi < qt_edge_arr.rows);
                        assert((j as int) * (ts as int) + bj < qt_edge_arr.cols);
                    }
                    let v = qt_edge_arr.get(i * ts + bi, j * ts + bj);
                    proof {
                        assert(v == block[k as int]);
                        assert(v < 5);
                        lemma_count_in_prefix_le(block, v, k as int);
                    }
                    let c = hist[v as usize] + 1;
                    hist.set(v as usize, c);
                    if c > max_count {
                        max_count = c;
                        max_val = v;
                    }
                    k = k + 1;
                    proof {
                        assert forall|cc: int| 0 <= cc < 5 implies #[trigger] hist[cc]
                            == count_in_prefix(block, cc as u8, k as int) by {
                            assert(count_in_prefix(block, cc as u8, k as int) == count_in_prefix(
                                block,
                                cc as u8,
                                k as int - 1,
                            ) + if block[k as int - 1] == cc as u8 {
                                1int
                            } else {
                                0int
                            });
                        }
                    }
                }
                proof {
                    assert(block.len() == block_len);
                    assert(max_val == mode_spec(block));
                    lemma_scan_state_class(block, block_len as int);
                }
                let d0: usize = if hist[0] > 0 { 1 } else { 0 };
                let d1: usize = if hist[1] > 0 { 1 } else { 0 };
                let d2: usize = if hist[2] > 0 { 1 } else { 0 };
                let d3: usize = if hist[3] > 0 { 1 } else { 0 };
                let d4: usize = if hist[4] > 0 { 1 } else { 0 };
                let distinct: usize = d0 + d1 + d2 + d3 + d4;
                proof {
                    assert(distinct == distinct_class_count(block));
                }
                proof {
                    lemma_distinct_class_count_bounds(block);
                    assert(distinct as int * thres_den as int <= 5 * 0xFFFF_FFFFint)
                        by (nonlinear_arith)
                        requires
                            distinct <= 5,
                            thres_den <= 0xFFFF_FFFFu32,
                    ;
                    assert(thres_num as int * ts as int <= 0xFFFF_FFFFint * 0xFFFF_FFFFint
                        && thres_num as int * ts as int >= 0) by (nonlinear_arith)
                        requires
                            thres_num <= 0xFFFF_FFFFu32,
                            ts <= 0xFFFF_FFFFusize,
                    ;
                    assert((thres_num as int * ts as int) * (ts as int) <= 0xFFFF_FFFFint
                        * 0xFFFF_FFFFint * 0xFFFF_FFFFint) by (nonlinear_arith)
                        requires
                            0 <= thres_num as int * ts as int <= 0xFFFF_FFFFint * 0xFFFF_FFFFint,
                            0 <= ts <= 0xFFFF_FFFFusize,
                    ;
                }
                let lhs: u128 = (distinct as u128) * (thres_den as u128);
                let rhs: u128 = (thres_num as u128) * (ts as u128) * (ts as u128);
                proof {
                    assert((thres_num as int * ts as int) * ts as int == thres_num as int * (
                    ts as int * ts as int)) by (nonlinear_arith);
                }
                if lhs >= rhs {
                    let ghost pre = out.data@;
                    out.set_at(i, j, max_val);
                    proof {
                        lemma_grid_index(rows_out as int, cols_out as int, i as int, j as int);
                        assert(out.data@ == pre.update(
                            (i as int) * (out.cols as int) + (j as int),
                            max_val,
                        ));
                        assert forall|m: int| 0 <= m < out.data.len() implies out.data[m] < 5 by {
                            assert(out.data[m] == max_val || out.data[m] == pre[m]);
                        }
                    }
                } else {
                    proof {
                        assert(out.at(i as int, j as int) == 0);
                        assert(!gate_passes(
                            block,
                            thres_num as int,
                            thres_den as int,
                            ts as int,
                        ));
                    }
                }
                j = j + 1;
            }
            i = i + 1;
        }
        out
    }
}

} // verus!

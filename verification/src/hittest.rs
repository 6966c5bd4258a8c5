use crate::geometry::{
    Geometry, FACTOR_DENOM, MAX_ROWS, ROW_HEIGHT_FACTOR_NUM, TOP_PAD_DENOM, TOP_PAD_NUM,
};
use crate::model::opt_index;
use vstd::arithmetic::div_mod::lemma_div_pos_is_pos;
use vstd::prelude::*;

verus! {

/// Height of the top chrome above the first row, in pixels: the same
/// fraction of the row height that the layout's chrome factor reserves.
pub open spec fn spec_pad_top(row_height: int) -> int {
    (TOP_PAD_NUM as int) * row_height / (TOP_PAD_DENOM as int)
}

/// Height one row occupies, in pixels: the same per-row factor the
/// layout's height formula uses.
pub open spec fn spec_item_height(row_height: int) -> int {
    (ROW_HEIGHT_FACTOR_NUM as int) * row_height / (FACTOR_DENOM as int)
}

/// The inverse of the layout's height formula: which of `n` rows lies at
/// pixel point `(x, y)` under geometry `g`, or `None` for a point the
/// menu does not claim. A geometry that was never computed (non-positive
/// row height) claims nothing; a point in the top chrome counts as the
/// first row; a point in the bottom chrome falls past the last row and
/// is outside.
pub open spec fn spec_row_at(g: Geometry, n: int, x: int, y: int) -> Option<int> {
    if g.row_height <= 0 {
        None
    } else if x < g.origin_x || x > g.origin_x + g.width || y < g.origin_y || y > g.origin_y
        + g.height {
        None
    } else {
        let rel = y - g.origin_y - spec_pad_top(g.row_height as int);
        if rel < 0 {
            Some(0)
        } else {
            let row = rel / spec_item_height(g.row_height as int);
            if row < n {
                Some(row)
            } else {
                None
            }
        }
    }
}

/// Law: hit-testing returns `Outside` for every point strictly outside
/// the menu rectangle; and whenever it does name a row, that row lies in
/// `[0, n-1]` and the point lies inside the rectangle. (For an empty
/// menu the top-chrome fallback still names row 0, so the range claim
/// needs at least one row.)
pub proof fn lemma_row_at_bounds(g: Geometry, n: int, x: int, y: int)
    requires
        g.wf(),
    ensures
        (x < g.origin_x || x > g.origin_x + g.width || y < g.origin_y || y > g.origin_y
            + g.height) ==> spec_row_at(g, n, x, y) is None,
        n >= 1 ==> (spec_row_at(g, n, x, y) matches Some(i) ==> 0 <= i < n),
        spec_row_at(g, n, x, y) is Some ==> g.origin_x <= x <= g.origin_x + g.width
            && g.origin_y <= y <= g.origin_y + g.height,
{
    if !(x < g.origin_x || x > g.origin_x + g.width || y < g.origin_y || y > g.origin_y
        + g.height) {
        let rel = y - g.origin_y - spec_pad_top(g.row_height as int);
        if rel >= 0 {
            lemma_div_pos_is_pos((TOP_PAD_NUM as int) * g.row_height, TOP_PAD_DENOM as int);
            assert(spec_item_height(g.row_height as int) >= 1);
            lemma_div_pos_is_pos(rel, spec_item_height(g.row_height as int));
        }
    }
}

/// Calculate which menu row is at the given pixel coordinates; `None`
/// means the point is outside the menu.
pub fn row_at(g: &Geometry, n_rows: usize, x: i64, y: i64) -> (r: Option<usize>)
    requires
        g.wf(),
        n_rows <= MAX_ROWS,
    ensures
        opt_index(r) == spec_row_at(*g, n_rows as int, x as int, y as int),
{
    if x < g.origin_x || x > g.origin_x + g.width || y < g.origin_y || y > g.origin_y + g.height {
        return None;
    }
    let rhu: u64 = g.row_height as u64;
    let pad: i64 = ((TOP_PAD_NUM as u64) * rhu / (TOP_PAD_DENOM as u64)) as i64;
    let rel: i64 = y - g.origin_y - pad;
    if rel < 0 {
        return Some(0);
    }
    let item_h: u64 = (ROW_HEIGHT_FACTOR_NUM as u64) * rhu / (FACTOR_DENOM as u64);
    assert(item_h >= 1);
    let row: u64 = (rel as u64) / item_h;
    if row < n_rows as u64 {
        Some(row as usize)
    } else {
        None
    }
}

} // verus!

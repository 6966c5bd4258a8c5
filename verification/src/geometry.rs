use vstd::arithmetic::div_mod::{lemma_div_is_ordered, lemma_div_nonincreasing, lemma_div_pos_is_pos};
use vstd::prelude::*;

verus! {

/// Largest magnitude accepted for a pixel coordinate or font metric.
/// Pixel inputs come from a window system; a bound of 2^30 is far beyond
/// any real display while keeping every intermediate product inside i64.
pub const MAX_PIXEL: i64 = 1073741824;

/// Largest extent (width or height) a computed menu rectangle can have:
/// 2^55, an upper bound on `MAX_ROWS` rows of `MAX_PIXEL`-sized cells.
pub const MAX_EXTENT: i64 = 36028797018963968;

/// Largest number of rows a menu may hold, so that the height formula
/// stays inside i64 arithmetic.
pub const MAX_ROWS: usize = 1048576;

/// Menu width as a multiple of the font cell width: wide enough for the
/// longest anticipated label plus the icon gutter.
pub const MENU_WIDTH_CELLS: i64 = 25;

/// Per-row height factor in tenths of a row height: each row occupies
/// 1.2 row heights (text line plus internal padding).
pub const ROW_HEIGHT_FACTOR_NUM: i64 = 12;

/// Outer chrome (border, margin, padding) in tenths of a row height:
/// 1.5 row heights in all.
pub const CHROME_FACTOR_NUM: i64 = 15;

/// Denominator of the two factors above.
pub const FACTOR_DENOM: i64 = 10;

/// Top padding before the first row, as a fraction of the row height:
/// `TOP_PAD_NUM / TOP_PAD_DENOM` = three quarters of a row.
pub const TOP_PAD_NUM: i64 = 3;

/// Denominator of the top padding fraction.
pub const TOP_PAD_DENOM: i64 = 4;

/// Font metrics the host derives from the active font: the line height
/// and the width of one character cell, in pixels.
#[derive(Clone, Copy, Debug, PartialEq, Eq, Structural)]
pub struct FontMetrics {
    pub row_height: i64,
    pub cell_width: i64,
}

impl FontMetrics {
    /// Machine bound on the metric magnitudes; validity (strictly
    /// positive sizes) is checked at layout time, not assumed here.
    pub open spec fn bounded(self) -> bool {
        &&& self.row_height <= MAX_PIXEL
        &&& self.cell_width <= MAX_PIXEL
    }

    /// Metrics a layout can actually be computed from.
    pub open spec fn valid(self) -> bool {
        0 < self.row_height && 0 < self.cell_width
    }
}

/// Current pixel dimensions of the host viewport.
#[derive(Clone, Copy, Debug, PartialEq, Eq, Structural)]
pub struct Viewport {
    pub width: i64,
    pub height: i64,
}

impl Viewport {
    pub open spec fn bounded(self) -> bool {
        &&& 0 <= self.width <= MAX_PIXEL
        &&& 0 <= self.height <= MAX_PIXEL
    }
}

/// The cached numeric layout result: menu origin and size plus the row
/// height it was computed from, all in the same pixel units as pointer
/// and viewport coordinates.
#[derive(Clone, Copy, Debug, PartialEq, Eq, Structural)]
pub struct Geometry {
    pub origin_x: i64,
    pub origin_y: i64,
    pub width: i64,
    pub height: i64,
    pub row_height: i64,
}

impl Geometry {
    pub open spec fn wf(self) -> bool {
        &&& 0 < self.row_height <= MAX_PIXEL
        &&& 0 <= self.origin_x <= MAX_PIXEL
        &&& 0 <= self.origin_y <= MAX_PIXEL
        &&& 0 < self.width <= MAX_EXTENT
        &&& 0 < self.height <= MAX_EXTENT
    }
}

/// Menu width for a given cell width.
pub open spec fn spec_menu_width(cell_width: int) -> int {
    (MENU_WIDTH_CELLS as int) * cell_width
}

/// Menu height for `n` rows: `(n * 1.2 + 1.5) * row_height`, carried out
/// in tenths so that the arithmetic stays integral.
pub open spec fn spec_menu_height(n: int, row_height: int) -> int {
    (n * (ROW_HEIGHT_FACTOR_NUM as int) + (CHROME_FACTOR_NUM as int)) * row_height
        / (FACTOR_DENOM as int)
}

/// Clamp an anchor coordinate so the rectangle prefers to stay inside
/// `[0, viewport - size]`; when the viewport is smaller than the content
/// the lower bound of zero wins.
pub open spec fn clamp_origin(anchor: int, viewport: int, size: int) -> int {
    let hi = viewport - size;
    let capped = if anchor < hi {
        anchor
    } else {
        hi
    };
    if capped < 0 {
        0
    } else {
        capped
    }
}

/// The geometry the layout step produces for `n` rows anchored at
/// `(ax, ay)` under the given metrics and viewport.
pub open spec fn layout_ok(g: Geometry, n: int, ax: int, ay: int, m: FontMetrics, v: Viewport) -> bool {
    &&& g.row_height == m.row_height
    &&& g.width == spec_menu_width(m.cell_width as int)
    &&& g.height == spec_menu_height(n, m.row_height as int)
    &&& g.origin_x == clamp_origin(ax, v.width as int, g.width as int)
    &&& g.origin_y == clamp_origin(ay, v.height as int, g.height as int)
}

/// Law: for any anchor point and any viewport at least as large as the
/// menu content, the clamped origin keeps the whole rectangle inside the
/// viewport: `0 <= origin <= viewport - size` on both axes.
pub proof fn lemma_layout_clamped(g: Geometry, n: int, ax: int, ay: int, m: FontMetrics, v: Viewport)
    requires
        layout_ok(g, n, ax, ay, m, v),
        v.width >= g.width,
        v.height >= g.height,
    ensures
        0 <= g.origin_x <= v.width - g.width,
        0 <= g.origin_y <= v.height - g.height,
{
}

/// Compute the menu geometry: uniform row height from the metrics, width
/// as a fixed multiple of the cell width, height from the row count, and
/// the top-left corner clamped into the viewport.
pub fn compute_geometry(
    n_rows: usize,
    anchor_x: i64,
    anchor_y: i64,
    metrics: &FontMetrics,
    viewport: &Viewport,
) -> (g: Geometry)
    requires
        n_rows <= MAX_ROWS,
        metrics.bounded(),
        metrics.valid(),
        viewport.bounded(),
        -MAX_PIXEL <= anchor_x <= MAX_PIXEL,
        -MAX_PIXEL <= anchor_y <= MAX_PIXEL,
    ensures
        layout_ok(g, n_rows as int, anchor_x as int, anchor_y as int, *metrics, *viewport),
        g.wf(),
{
    let rh: i64 = metrics.row_height;
    let menu_width: i64 = MENU_WIDTH_CELLS * metrics.cell_width;

    let num_u: u64 = (n_rows as u64) * (ROW_HEIGHT_FACTOR_NUM as u64) + (CHROME_FACTOR_NUM as u64);
    assert(num_u as int == n_rows as int * (ROW_HEIGHT_FACTOR_NUM as int) + (CHROME_FACTOR_NUM as int));
    assert(num_u * (rh as u64) <= 12582927 * 1073741824) by (nonlinear_arith)
        requires
            num_u <= 12582927,
            rh as u64 <= 1073741824,
    ;
    let height_num: u64 = num_u * (rh as u64);
    let height_u: u64 = height_num / (FACTOR_DENOM as u64);
    proof {
        lemma_div_nonincreasing(height_num as int, FACTOR_DENOM as int);
        lemma_div_pos_is_pos(height_num as int, FACTOR_DENOM as int);
        assert(height_num >= 15) by (nonlinear_arith)
            requires
                num_u >= 15,
                rh as u64 >= 1,
                height_num == num_u * (rh as u64),
        ;
        lemma_div_is_ordered(10, height_num as int, FACTOR_DENOM as int);
    }
    let menu_height: i64 = height_u as i64;

    let hi_x: i64 = viewport.width - menu_width;
    let capped_x: i64 = if anchor_x < hi_x {
        anchor_x
    } else {
        hi_x
    };
    let origin_x: i64 = if capped_x < 0 {
        0
    } else {
        capped_x
    };

    let hi_y: i64 = viewport.height - menu_height;
    let capped_y: i64 = if anchor_y < hi_y {
        anchor_y
    } else {
        hi_y
    };
    let origin_y: i64 = if capped_y < 0 {
        0
    } else {
        capped_y
    };

    Geometry { origin_x, origin_y, width: menu_width, height: menu_height, row_height: rh }
}

} // verus!

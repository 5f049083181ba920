//! Derivation of every pixel-level layout constant — margins, cell size,
//! paddings — from the page dimensions and the grid shape. Pure integer
//! arithmetic; degenerate shapes are rejected before any rendering starts.

use vstd::prelude::*;
use crate::WallError;

verus! {

/// Numerator of the fixed card aspect ratio (height : width = 889 : 635).
pub const ASPECT_HEIGHT: u32 = 889;
/// Denominator of the fixed card aspect ratio.
pub const ASPECT_WIDTH: u32 = 635;

/// The scalar configuration a run starts from. The three margin and padding
/// fractions are given in whole percent of the page edge they apply to, so
/// they never exceed 100.
#[derive(Debug, Clone, Copy, PartialEq, Eq, Structural)]
pub struct GeometryConfig {
    /// Page width in pixels.
    pub width: u32,
    /// Page height in pixels.
    pub height: u32,
    /// Grid rows per page.
    pub rows: u32,
    /// Grid columns per page.
    pub cols: u32,
    /// Top (and bottom) margin, in percent of the page height.
    pub margin_top_pct: u32,
    /// Left (and right) margin, in percent of the page width.
    pub margin_left_pct: u32,
    /// Horizontal padding between neighbouring cells, in percent of the page width.
    pub padding_right_pct: u32,
}

impl GeometryConfig {
    /// The fractions are percentages of the page, so each must be at most the
    /// whole page.
    pub open spec fn valid(self) -> bool {
        self.margin_top_pct <= 100 && self.margin_left_pct <= 100 && self.padding_right_pct <= 100
    }

    /// Configuration with the standard fractions: 8% top margin, 7% left
    /// margin, 8% padding between columns.
    pub fn new(width: u32, height: u32, rows: u32, cols: u32) -> (c: GeometryConfig)
        ensures
            c == (GeometryConfig {
                width,
                height,
                rows,
                cols,
                margin_top_pct: 8,
                margin_left_pct: 7,
                padding_right_pct: 8,
            }),
            c.valid(),
    {
        GeometryConfig { width, height, rows, cols, margin_top_pct: 8, margin_left_pct: 7, padding_right_pct: 8 }
    }
}

/// Top margin in pixels: the page height times the margin fraction, truncated.
pub open spec fn spec_margin_top(c: GeometryConfig) -> int {
    c.height * c.margin_top_pct / 100
}

/// Left margin in pixels: the page width times the margin fraction, truncated.
pub open spec fn spec_margin_left(c: GeometryConfig) -> int {
    c.width * c.margin_left_pct / 100
}

/// Horizontal inter-cell padding in pixels.
pub open spec fn spec_padding_right(c: GeometryConfig) -> int {
    c.width * c.padding_right_pct / 100
}

/// Cell width: what remains of the page width after both side margins and
/// the padding between columns, divided evenly among the columns.
pub open spec fn spec_cell_width(c: GeometryConfig) -> int {
    (c.width - 2 * spec_margin_left(c) - (c.cols - 1) * spec_padding_right(c)) / (c.cols as int)
}

/// Cell height follows from the cell width and the fixed card aspect ratio.
pub open spec fn spec_cell_height(c: GeometryConfig) -> int {
    spec_cell_width(c) * ASPECT_HEIGHT / (ASPECT_WIDTH as int)
}

/// Vertical inter-cell padding: what remains of the page height after both
/// vertical margins and the rows of cells, divided evenly among the rows.
pub open spec fn spec_padding_bottom(c: GeometryConfig) -> int {
    (c.height - 2 * spec_margin_top(c) - c.rows * spec_cell_height(c)) / (c.rows as int)
}

/// A configuration yields a usable geometry exactly when the grid is
/// non-empty, the cell width is positive, the rows of cells fit between the
/// vertical margins, and the page's cell count and pixel buffer are
/// addressable on this machine.
pub open spec fn geometry_ok(c: GeometryConfig) -> bool {
    &&& 1 <= c.rows
    &&& 1 <= c.cols
    &&& 1 <= spec_cell_width(c)
    &&& 2 * spec_margin_top(c) + c.rows * spec_cell_height(c) <= c.height
    &&& c.rows * c.cols <= usize::MAX
    &&& 4 * c.width * c.height <= usize::MAX
}

/// Every derived pixel constant of one page layout, computed once per run
/// and read-only afterwards.
#[derive(Debug, Clone, Copy, PartialEq, Eq, Structural)]
pub struct PageGeometry {
    /// Page width in pixels.
    pub width: u32,
    /// Page height in pixels.
    pub height: u32,
    /// Grid rows per page.
    pub rows: u32,
    /// Grid columns per page.
    pub cols: u32,
    /// Top margin in pixels.
    pub margin_top: u32,
    /// Left margin in pixels.
    pub margin_left: u32,
    /// Width of one cell in pixels.
    pub cell_width: u32,
    /// Height of one cell in pixels.
    pub cell_height: u32,
    /// Horizontal padding between neighbouring cells in pixels.
    pub padding_right: u32,
    /// Vertical padding between neighbouring cells in pixels.
    pub padding_bottom: u32,
    /// Maximum number of entries on one page: rows times columns.
    pub capacity: usize,
}

impl PageGeometry {
    /// The derived fields agree with the given configuration.
    pub open spec fn matches(self, c: GeometryConfig) -> bool {
        &&& self.width == c.width
        &&& self.height == c.height
        &&& self.rows == c.rows
        &&& self.cols == c.cols
        &&& self.margin_top == spec_margin_top(c)
        &&& self.margin_left == spec_margin_left(c)
        &&& self.cell_width == spec_cell_width(c)
        &&& self.cell_height == spec_cell_height(c)
        &&& self.padding_right == spec_padding_right(c)
        &&& self.padding_bottom == spec_padding_bottom(c)
        &&& self.capacity == c.rows * c.cols
    }

    /// Well-formedness: positive grid and cells, every cell inside the page
    /// both horizontally and vertically, and the page addressable.
    pub open spec fn wf(self) -> bool {
        &&& 1 <= self.rows
        &&& 1 <= self.cols
        &&& 1 <= self.cell_width
        &&& 1 <= self.cell_height
        &&& 2 * self.margin_left + self.cols * self.cell_width + (self.cols - 1) * self.padding_right
            <= self.width
        &&& 2 * self.margin_top + self.rows * (self.cell_height + self.padding_bottom) <= self.height
        &&& self.capacity == self.rows * self.cols
        &&& 4 * self.width * self.height <= usize::MAX
    }

    /// Derives the full page geometry from a configuration, or reports the
    /// configuration as degenerate. Succeeds exactly on the configurations
    /// `geometry_ok` admits, and then every field is pinned to its
    /// specification.
    pub fn compute(c: &GeometryConfig) -> (r: Result<PageGeometry, WallError>)
        requires
            c.valid(),
        ensures
            r is Ok <==> geometry_ok(*c),
            r is Ok ==> r->Ok_0.matches(*c) && r->Ok_0.wf(),
            r is Err ==> r->Err_0 == WallError::Configuration,
    {
        if c.rows == 0 || c.cols == 0 {
            return Err(WallError::Configuration);
        }
        let w: u64 = c.width as u64;
        let h: u64 = c.height as u64;
        let rows: u64 = c.rows as u64;
        let cols: u64 = c.cols as u64;

        proof {
            assert(h * c.margin_top_pct <= 0xffff_ffffu64 * 100 && w * c.margin_left_pct
                <= 0xffff_ffffu64 * 100 && w * c.padding_right_pct <= 0xffff_ffffu64 * 100)
                by (nonlinear_arith)
                requires
                    0 <= h <= 0xffff_ffffu64,
                    0 <= w <= 0xffff_ffffu64,
                    c.margin_top_pct <= 100,
                    c.margin_left_pct <= 100,
                    c.padding_right_pct <= 100,
            ;
        }
        let mt: u64 = h * (c.margin_top_pct as u64) / 100;
        let ml: u64 = w * (c.margin_left_pct as u64) / 100;
        let pr: u64 = w * (c.padding_right_pct as u64) / 100;
        proof {
            assert(mt <= h && ml <= w && pr <= w) by (nonlinear_arith)
                requires
                    mt == h * c.margin_top_pct / 100,
                    ml == w * c.margin_left_pct / 100,
                    pr == w * c.padding_right_pct / 100,
                    c.margin_top_pct <= 100,
                    c.margin_left_pct <= 100,
                    c.padding_right_pct <= 100,
                    w >= 0,
                    h >= 0,
            ;
        }

        proof {
            assert((cols - 1) * pr <= 0xffff_fffe * 0xffff_ffffu64) by (nonlinear_arith)
                requires
                    1 <= cols <= 0xffff_ffffu64,
                    0 <= pr <= 0xffff_ffffu64,
            ;
        }
        let used: u64 = 2 * ml + (cols - 1) * pr;
        if w <= used {
            proof {
                assert(spec_cell_width(*c) < 1) by (nonlinear_arith)
                    requires
                        spec_cell_width(*c) == (w - used) / (cols as int),
                        w <= used,
                        cols >= 1,
                ;
            }
            return Err(WallError::Configuration);
        }
        let cw: u64 = (w - used) / cols;
        proof {
            assert(cw <= w - used) by (nonlinear_arith)
                requires
                    cw == (w - used) as int / cols as int,
                    cols >= 1,
                    w > used,
            ;
        }
        if cw == 0 {
            return Err(WallError::Configuration);
        }
        proof {
            assert(cw * 889 <= 0xffff_ffffu64 * 889) by (nonlinear_arith)
                requires
                    0 <= cw <= 0xffff_ffffu64,
            ;
        }
        let ch: u64 = cw * (ASPECT_HEIGHT as u64) / (ASPECT_WIDTH as u64);

        proof {
            assert((rows as u128) * (ch as u128) == rows * ch && rows * ch
                <= 0xffff_ffff_ffff_ffffu128 * 0xffff_ffff_ffff_ffffu128) by (nonlinear_arith)
                requires
                    0 <= rows <= 0xffff_ffff_ffff_ffffu128,
                    0 <= ch <= 0xffff_ffff_ffff_ffffu128,
            ;
        }
        let vert: u128 = 2 * (mt as u128) + (rows as u128) * (ch as u128);
        if vert > h as u128 {
            return Err(WallError::Configuration);
        }
        proof {
            assert(rows * ch <= h);
            assert(ch <= h) by (nonlinear_arith)
                requires
                    rows * ch <= h,
                    rows >= 1,
                    ch >= 0,
            ;
        }
        let pb: u64 = (h - 2 * mt - rows * ch) / rows;
        proof {
            assert(pb <= h) by (nonlinear_arith)
                requires
                    pb == (h - 2 * mt - rows * ch) as int / rows as int,
                    h - 2 * mt - rows * ch <= h,
                    0 <= h - 2 * mt - rows * ch,
                    rows >= 1,
            ;
        }

        proof {
            assert((rows as u128) * (cols as u128) == rows * cols && rows * cols
                <= 0xffff_ffffu128 * 0xffff_ffffu128) by (nonlinear_arith)
                requires
                    0 <= rows <= 0xffff_ffffu128,
                    0 <= cols <= 0xffff_ffffu128,
            ;
        }
        let cap: u128 = (rows as u128) * (cols as u128);
        if cap > usize::MAX as u128 {
            return Err(WallError::Configuration);
        }
        proof {
            assert(4 * (w as u128) * (h as u128) == 4 * w * h && 4 * w * h <= 4
                * 0xffff_ffffu128 * 0xffff_ffffu128) by (nonlinear_arith)
                requires
                    0 <= w <= 0xffff_ffffu128,
                    0 <= h <= 0xffff_ffffu128,
            ;
        }
        let canvas_bytes: u128 = 4 * (w as u128) * (h as u128);
        if canvas_bytes > usize::MAX as u128 {
            return Err(WallError::Configuration);
        }

        let g = PageGeometry {
            width: c.width,
            height: c.height,
            rows: c.rows,
            cols: c.cols,
            margin_top: mt as u32,
            margin_left: ml as u32,
            cell_width: cw as u32,
            cell_height: ch as u32,
            padding_right: pr as u32,
            padding_bottom: pb as u32,
            capacity: cap as usize,
        };
        proof {
            lemma_compute_bounds(*c, g);
        }
        Ok(g)
    }
}

/// From the derived fields' defining divisions, every cell (with its
/// padding) fits inside the page: multiplying a floor-divided quantity back
/// by its divisor cannot exceed the dividend.
proof fn lemma_compute_bounds(c: GeometryConfig, g: PageGeometry)
    requires
        c.rows >= 1,
        c.cols >= 1,
        g.matches(c),
        g.cell_width >= 1,
        g.cell_height >= 1,
        2 * spec_margin_top(c) + c.rows * spec_cell_height(c) <= c.height,
        4 * c.width * c.height <= usize::MAX,
    ensures
        g.wf(),
{
    let w = c.width as int;
    let h = c.height as int;
    let rows = c.rows as int;
    let cols = c.cols as int;
    let ml = spec_margin_left(c);
    let mt = spec_margin_top(c);
    let pr = spec_padding_right(c);
    let cw = spec_cell_width(c);
    let ch = spec_cell_height(c);
    let pb = spec_padding_bottom(c);

    assert(cols * cw <= w - 2 * ml - (cols - 1) * pr) by (nonlinear_arith)
        requires
            cw == (w - 2 * ml - (cols - 1) * pr) / cols,
            cols >= 1,
    ;
    assert(rows * pb <= h - 2 * mt - rows * ch) by (nonlinear_arith)
        requires
            pb == (h - 2 * mt - rows * ch) / rows,
            rows >= 1,
            h - 2 * mt - rows * ch >= 0,
    ;
    assert(rows * (ch + pb) == rows * ch + rows * pb) by (nonlinear_arith);
}

/// The geometry derivation is a mathematical function of the configuration:
/// two results that both agree with the same configuration are equal, so
/// repeated computation with identical inputs yields an identical layout.
pub proof fn lemma_geometry_deterministic(c: GeometryConfig, a: PageGeometry, b: PageGeometry)
    requires
        a.matches(c),
        b.matches(c),
    ensures
        a == b,
{
}

} // verus!


//! Mapping from a zero-based entry index on a page to its grid cell and to
//! the cell's pixel offsets. The fill order is row-major: left to right,
//! then top to bottom, and the mapping is a bijection over one full page.

use vstd::prelude::*;
use crate::geometry::PageGeometry;

verus! {

/// A cell of the grid: `row` counts from the top, `col` from the left.
#[derive(Debug, Clone, Copy, PartialEq, Eq, Structural)]
pub struct GridPosition {
    /// Zero-based row, from the top.
    pub row: u32,
    /// Zero-based column, from the left.
    pub col: u32,
}

/// The row the `index`-th entry of a page lands in.
pub open spec fn spec_row_of(index: int, cols: int) -> int {
    index / cols
}

/// The column the `index`-th entry of a page lands in.
pub open spec fn spec_col_of(index: int, cols: int) -> int {
    index % cols
}

/// Horizontal pixel offset of a cell: the left margin plus one cell-and-gap
/// stride per column before it.
pub open spec fn spec_cell_x(g: PageGeometry, col: int) -> int {
    g.margin_left + col * (g.cell_width + g.padding_right)
}

/// Vertical pixel offset of a cell: the top margin plus one cell-and-gap
/// stride per row above it.
pub open spec fn spec_cell_y(g: PageGeometry, row: int) -> int {
    g.margin_top + row * (g.cell_height + g.padding_bottom)
}

impl PageGeometry {
    /// Grid cell of the `index`-th entry of a page, in row-major order.
    pub fn position_of(&self, index: usize) -> (p: GridPosition)
        requires
            self.wf(),
            index < self.capacity,
        ensures
            p.row == spec_row_of(index as int, self.cols as int),
            p.col == spec_col_of(index as int, self.cols as int),
            p.row < self.rows,
            p.col < self.cols,
    {
        let cols: usize = self.cols as usize;
        let row: usize = index / cols;
        let col: usize = index % cols;
        proof {
            assert(index as int / (cols as int) < self.rows && index as int % (cols as int)
                < self.cols) by (nonlinear_arith)
                requires
                    0 <= index < self.rows * self.cols,
                    1 <= cols,
                    cols == self.cols,
                    1 <= self.rows,
            ;
        }
        GridPosition { row: row as u32, col: col as u32 }
    }

    /// Pixel x of a cell's left edge; the cell ends inside the page.
    pub fn cell_x(&self, col: u32) -> (x: u32)
        requires
            self.wf(),
            col < self.cols,
        ensures
            x == spec_cell_x(*self, col as int),
            x + self.cell_width <= self.width,
    {
        proof {
            lemma_cell_x_in_page(*self, col as int);
        }
        let stride: u64 = self.cell_width as u64 + self.padding_right as u64;
        let x: u64 = self.margin_left as u64 + (col as u64) * stride;
        x as u32
    }

    /// Pixel y of a cell's top edge; the cell ends inside the page.
    pub fn cell_y(&self, row: u32) -> (y: u32)
        requires
            self.wf(),
            row < self.rows,
        ensures
            y == spec_cell_y(*self, row as int),
            y + self.cell_height <= self.height,
    {
        proof {
            lemma_cell_y_in_page(*self, row as int);
        }
        let stride: u64 = self.cell_height as u64 + self.padding_bottom as u64;
        let y: u64 = self.margin_top as u64 + (row as u64) * stride;
        y as u32
    }
}

/// Every column's cell, padding included on its left side only, lies within
/// the page width.
pub proof fn lemma_cell_x_in_page(g: PageGeometry, col: int)
    requires
        g.wf(),
        0 <= col < g.cols,
    ensures
        spec_cell_x(g, col) + g.cell_width <= g.width,
{
    assert(g.margin_left + col * (g.cell_width + g.padding_right) + g.cell_width <= g.width)
        by (nonlinear_arith)
        requires
            0 <= col <= g.cols - 1,
            0 <= g.margin_left,
            0 <= g.cell_width,
            0 <= g.padding_right,
            2 * g.margin_left + g.cols * g.cell_width + (g.cols - 1) * g.padding_right <= g.width,
            1 <= g.cols,
    ;
}

/// Every row's cell, padding included below it only, lies within the page
/// height.
pub proof fn lemma_cell_y_in_page(g: PageGeometry, row: int)
    requires
        g.wf(),
        0 <= row < g.rows,
    ensures
        spec_cell_y(g, row) + g.cell_height <= g.height,
{
    assert(g.margin_top + row * (g.cell_height + g.padding_bottom) + g.cell_height <= g.height)
        by (nonlinear_arith)
        requires
            0 <= row <= g.rows - 1,
            0 <= g.margin_top,
            0 <= g.cell_height,
            0 <= g.padding_bottom,
            2 * g.margin_top + g.rows * (g.cell_height + g.padding_bottom) <= g.height,
            1 <= g.rows,
    ;
}

/// The index-to-cell mapping is injective and stays inside the grid: over a
/// full page the index is recovered from its cell as `row * cols + col`.
pub proof fn lemma_grid_index_to_cell(index: int, rows: int, cols: int)
    requires
        0 < cols,
        0 < rows,
        0 <= index < rows * cols,
    ensures
        spec_row_of(index, cols) * cols + spec_col_of(index, cols) == index,
        0 <= spec_row_of(index, cols) < rows,
        0 <= spec_col_of(index, cols) < cols,
{
    assert((index / cols) * cols + index % cols == index && 0 <= index / cols < rows && 0 <= index
        % cols < cols) by (nonlinear_arith)
        requires
            0 < cols,
            0 < rows,
            0 <= index < rows * cols,
    ;
}

/// The cell-to-index mapping inverts it: every cell of the grid is hit by
/// exactly the index `row * cols + col`, so the mapping is a bijection over
/// one full page.
pub proof fn lemma_grid_cell_to_index(row: int, col: int, rows: int, cols: int)
    requires
        0 <= row < rows,
        0 <= col < cols,
    ensures
        0 <= row * cols + col < rows * cols,
        spec_row_of(row * cols + col, cols) == row,
        spec_col_of(row * cols + col, cols) == col,
{
    assert(0 <= row * cols + col < rows * cols && (row * cols + col) / cols == row && (row * cols
        + col) % cols == col) by (nonlinear_arith)
        requires
            0 <= row < rows,
            0 <= col < cols,
    ;
}

} // verus!

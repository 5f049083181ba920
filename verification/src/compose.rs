//! Placement of the card images of one page onto its canvas: each image is
//! scaled to the cell size and overlaid, with source-over alpha blending,
//! at its row-major grid position.

use vstd::prelude::*;
use crate::canvas::{overlay_at, resize_card, Canvas, CanvasOp};
use crate::geometry::PageGeometry;
use crate::grid::{spec_cell_x, spec_cell_y, spec_col_of, spec_row_of};

verus! {

/// Every cell's pixel area fits inside the page, so its buffer is
/// addressable whenever the page's is.
pub proof fn lemma_cell_within_page(g: PageGeometry)
    requires
        g.wf(),
    ensures
        g.cell_width <= g.width,
        g.cell_height <= g.height,
        4 * g.cell_width * g.cell_height <= usize::MAX,
{
    assert(g.cell_width <= g.width && g.cell_height <= g.height) by (nonlinear_arith)
        requires
            1 <= g.cols,
            1 <= g.rows,
            0 <= g.margin_left,
            0 <= g.margin_top,
            0 <= g.padding_right,
            0 <= g.padding_bottom,
            0 <= g.cell_width,
            0 <= g.cell_height,
            2 * g.margin_left + g.cols * g.cell_width + (g.cols - 1) * g.padding_right <= g.width,
            2 * g.margin_top + g.rows * (g.cell_height + g.padding_bottom) <= g.height,
    ;
    assert(4 * g.cell_width * g.cell_height <= 4 * g.width * g.height) by (nonlinear_arith)
        requires
            0 <= g.cell_width <= g.width,
            0 <= g.cell_height <= g.height,
    ;
}

/// The drawing operations that composing `n` images asks for: the `i`-th
/// image placed, scaled to exactly the cell size, with its top-left corner
/// at the pixel offset of cell `i` in row-major order.
pub open spec fn spec_compose_ops(g: PageGeometry, n: int) -> Seq<CanvasOp> {
    Seq::new(
        n as nat,
        |i: int|
            CanvasOp::Image {
                x: spec_cell_x(g, spec_col_of(i, g.cols as int)),
                y: spec_cell_y(g, spec_row_of(i, g.cols as int)),
                w: g.cell_width as int,
                h: g.cell_height as int,
            },
    )
}

/// Scales each image of the page to exactly the cell size and overlays it
/// at its row-major cell offset: the canvas keeps its dimensions and its
/// log grows by exactly one placement per image, left to right, then top
/// to bottom.
pub fn compose_page(canvas: &mut Canvas, images: &Vec<image::DynamicImage>, g: &PageGeometry)
    requires
        g.wf(),
        images@.len() <= g.capacity,
    ensures
        final(canvas)@.width == old(canvas)@.width,
        final(canvas)@.height == old(canvas)@.height,
        final(canvas)@.ops == old(canvas)@.ops + spec_compose_ops(*g, images@.len() as int),
{
    let ghost m0 = canvas@;
    let mut i: usize = 0;
    while i < images.len()
        invariant
            g.wf(),
            images@.len() <= g.capacity,
            i <= images@.len(),
            canvas@.width == m0.width,
            canvas@.height == m0.height,
            canvas@.ops == m0.ops + spec_compose_ops(*g, i as int),
        decreases images@.len() - i,
    {
        let pos = g.position_of(i);
        let x: u32 = g.cell_x(pos.col);
        let y: u32 = g.cell_y(pos.row);
        proof {
            lemma_cell_within_page(*g);
        }
        let resized = resize_card(&images[i], g.cell_width, g.cell_height);
        overlay_at(canvas, &resized, x as i64, y as i64);
        proof {
            assert(canvas@.ops =~= m0.ops + spec_compose_ops(*g, i + 1));
        }
        i = i + 1;
    }
    proof {
        assert(canvas@.ops =~= m0.ops + spec_compose_ops(*g, images@.len() as int));
    }
}

} // verus!

//! Placement of the three caption lines under one cell. All coordinates
//! are derived from measured glyph extents — centering is glyph-metric
//! dependent, never a fixed offset.
//!
//! Clamping is asymmetric on purpose: the title's left edge is clamped at
//! the cell's left edge, while the subtitle's clamp bound is taken relative
//! to the cell's center, which only keeps its left edge nonnegative; the
//! price line is not clamped at all.
//!
//! The rasteriser's scale is injected beside the font: its vertical size is
//! one tenth of the cell height and its horizontal size 1.2 times that.
//! Those values are fractional, and floating point stays outside this
//! crate, so the caller derives the scale once per run and passes it in.

use vstd::prelude::*;
use crate::canvas::{draw_line, measure_text, Canvas, CanvasOp};
use crate::entry::CardEntry;
use crate::geometry::PageGeometry;
use crate::grid::{spec_cell_x, spec_cell_y, spec_col_of, spec_row_of};

verus! {

/// Red, green and blue value of the solid light-gray caption colour,
/// legible against a photographic background.
pub const CAPTION_GRAY: u8 = 230;

/// Captions are drawn fully opaque.
pub const CAPTION_ALPHA: u8 = 255;

/// Half a gigapixel: the band the rasteriser's anchors are kept inside, so
/// that adding glyph offsets to an anchor cannot leave 32 bits. Anything
/// past it lies off every page a machine can hold, and the rasteriser
/// clips, so clamping there draws the same pixels.
pub const ANCHOR_BAND: i64 = 0x4000_0000;

/// An anchor coordinate clamped into the rasteriser's band.
pub open spec fn spec_band(v: int) -> int {
    if v < -(ANCHOR_BAND as int) {
        -(ANCHOR_BAND as int)
    } else if v > ANCHOR_BAND as int {
        ANCHOR_BAND as int
    } else {
        v
    }
}

/// Anchor a caption line is drawn at, as the drawing call takes it.
#[derive(Debug, Clone, Copy, PartialEq, Eq, Structural)]
pub struct CaptionSpot {
    /// Horizontal pixel position of the line's left edge.
    pub x: i64,
    /// Vertical pixel position of the line's top edge.
    pub y: i64,
}

/// Anchors of the three caption lines of one cell: title, subtitle, price,
/// stacked with a uniform pitch of one-and-a-half line heights.
#[derive(Debug, Clone, Copy, PartialEq, Eq, Structural)]
pub struct CellCaptions {
    /// Where the title line starts.
    pub title: CaptionSpot,
    /// Where the subtitle line starts.
    pub subtitle: CaptionSpot,
    /// Where the price line starts.
    pub price: CaptionSpot,
}

/// Horizontal center of a cell.
pub open spec fn spec_x_center(g: PageGeometry, col: int) -> int {
    spec_cell_x(g, col) + g.cell_width / 2
}

/// Title left edge: centered on the cell, but never left of the cell's own
/// left edge.
pub open spec fn spec_title_x(g: PageGeometry, col: int, tw: int) -> int {
    let centered = spec_x_center(g, col) - tw / 2;
    if centered < spec_cell_x(g, col) {
        spec_cell_x(g, col)
    } else {
        centered
    }
}

/// Subtitle left edge: centered on the cell, with the clamp bound taken
/// relative to the center, so only kept nonnegative.
pub open spec fn spec_subtitle_x(g: PageGeometry, col: int, sw: int) -> int {
    let centered = spec_x_center(g, col) - sw / 2;
    if centered < 0 {
        0
    } else {
        centered
    }
}

/// Price left edge: centered on the cell, unclamped.
pub open spec fn spec_price_x(g: PageGeometry, col: int, pw: int) -> int {
    spec_x_center(g, col) - pw / 2
}

/// Vertical distance between two caption baselines: the measured line
/// height plus half of it as padding.
pub open spec fn spec_line_pitch(lh: int) -> int {
    lh + lh / 2
}

/// Top of the title line: one measured line height below the cell's bottom
/// edge.
pub open spec fn spec_title_y(g: PageGeometry, row: int, lh: int) -> int {
    spec_cell_y(g, row) + g.cell_height + lh
}

impl PageGeometry {
    /// Anchors of the three caption lines of the cell at (`row`, `col`),
    /// given the measured width of each line and the measured height of the
    /// title line, which sets the pitch of all three.
    pub fn caption_spots(
        &self,
        row: u32,
        col: u32,
        title_w: i32,
        title_h: i32,
        subtitle_w: i32,
        price_w: i32,
    ) -> (c: CellCaptions)
        requires
            self.wf(),
            row < self.rows,
            col < self.cols,
            0 <= title_w,
            0 <= title_h,
            0 <= subtitle_w,
            0 <= price_w,
        ensures
            c.title.x == spec_title_x(*self, col as int, title_w as int),
            c.subtitle.x == spec_subtitle_x(*self, col as int, subtitle_w as int),
            c.price.x == spec_price_x(*self, col as int, price_w as int),
            c.title.y == spec_title_y(*self, row as int, title_h as int),
            c.subtitle.y == spec_title_y(*self, row as int, title_h as int) + spec_line_pitch(
                title_h as int,
            ),
            c.price.y == spec_title_y(*self, row as int, title_h as int) + 2 * spec_line_pitch(
                title_h as int,
            ),
    {
        let x_start: i64 = self.cell_x(col) as i64;
        let x_center: i64 = x_start + (self.cell_width / 2) as i64;

        let centered_title: i64 = x_center - ((title_w as u32) / 2) as i64;
        let title_x: i64 = if centered_title < x_start {
            x_start
        } else {
            centered_title
        };

        let centered_subtitle: i64 = x_center - ((subtitle_w as u32) / 2) as i64;
        let subtitle_x: i64 = if centered_subtitle < 0 {
            0
        } else {
            centered_subtitle
        };

        let price_x: i64 = x_center - ((price_w as u32) / 2) as i64;

        let lh: i64 = title_h as i64;
        let pitch: i64 = lh + lh / 2;
        let title_y: i64 = self.cell_y(row) as i64 + self.cell_height as i64 + lh;

        CellCaptions {
            title: CaptionSpot { x: title_x, y: title_y },
            subtitle: CaptionSpot { x: subtitle_x, y: title_y + pitch },
            price: CaptionSpot { x: price_x, y: title_y + 2 * pitch },
        }
    }
}

/// Clamps one anchor coordinate into the rasteriser's band.
fn band(v: i64) -> (r: i64)
    ensures
        r == spec_band(v as int),
        -ANCHOR_BAND <= r <= ANCHOR_BAND,
{
    if v < -ANCHOR_BAND {
        -ANCHOR_BAND
    } else if v > ANCHOR_BAND {
        ANCHOR_BAND
    } else {
        v
    }
}

/// Draws one caption line in the caption colour, its anchor clamped into
/// the rasteriser's band: the canvas keeps its dimensions and its log
/// gains this one line.
fn draw_caption(
    canvas: &mut Canvas,
    spot: CaptionSpot,
    scale: &rusttype::Scale,
    font: &rusttype::Font,
    text: &str,
)
    ensures
        final(canvas)@.width == old(canvas)@.width,
        final(canvas)@.height == old(canvas)@.height,
        final(canvas)@.ops == old(canvas)@.ops.push(
            CanvasOp::Text {
                x: spec_band(spot.x as int),
                y: spec_band(spot.y as int),
                text: text@,
            },
        ),
{
    let x: i64 = band(spot.x);
    let y: i64 = band(spot.y);
    draw_line(
        canvas,
        CAPTION_GRAY,
        CAPTION_GRAY,
        CAPTION_GRAY,
        CAPTION_ALPHA,
        x as i32,
        y as i32,
        scale,
        font,
        text,
    );
}

/// The three text operations one entry's captions ask for, in order
/// title, subtitle, price: each text is the entry's own caption line, each
/// anchor is the banded caption spot of the entry's cell for *some*
/// nonnegative measured extents — the glyph measuring is an outside call,
/// so the extents themselves cannot be pinned here.
pub open spec fn spec_cell_caption_ops(
    g: PageGeometry,
    e: CardEntry,
    row: int,
    col: int,
    ops: Seq<CanvasOp>,
) -> bool {
    exists|tw: int, th: int, sw: int, pw: int|
        #![trigger spec_title_x(g, col, tw), spec_title_y(g, row, th), spec_subtitle_x(g, col, sw), spec_price_x(g, col, pw)]
        {
            &&& 0 <= tw
            &&& 0 <= th
            &&& 0 <= sw
            &&& 0 <= pw
            &&& ops == seq![
                CanvasOp::Text {
                    x: spec_band(spec_title_x(g, col, tw)),
                    y: spec_band(spec_title_y(g, row, th)),
                    text: e.spec_title(),
                },
                CanvasOp::Text {
                    x: spec_band(spec_subtitle_x(g, col, sw)),
                    y: spec_band(spec_title_y(g, row, th) + spec_line_pitch(th)),
                    text: e.spec_subtitle(),
                },
                CanvasOp::Text {
                    x: spec_band(spec_price_x(g, col, pw)),
                    y: spec_band(spec_title_y(g, row, th) + 2 * spec_line_pitch(th)),
                    text: e.spec_price_line(),
                },
            ]
        }
}

/// The operations that captioning a page's entries asks for: three per
/// entry, in entry order, each triple as `spec_cell_caption_ops` says for
/// the entry's row-major cell.
pub open spec fn spec_caption_ops(g: PageGeometry, entries: Seq<CardEntry>, ops: Seq<CanvasOp>) -> bool {
    &&& ops.len() == 3 * entries.len()
    &&& forall|j: int|
        0 <= j < entries.len() ==> spec_cell_caption_ops(
            g,
            #[trigger] entries[j],
            spec_row_of(j, g.cols as int),
            spec_col_of(j, g.cols as int),
            ops.subrange(3 * j, 3 * j + 3),
        )
}

/// Packages a concrete witness — the four measured extents — into the
/// existential statement of one cell's caption operations.
proof fn lemma_cell_caption_ops_intro(
    g: PageGeometry,
    e: CardEntry,
    row: int,
    col: int,
    ops: Seq<CanvasOp>,
    tw: int,
    th: int,
    sw: int,
    pw: int,
)
    requires
        0 <= tw,
        0 <= th,
        0 <= sw,
        0 <= pw,
        ops == seq![
            CanvasOp::Text {
                x: spec_band(spec_title_x(g, col, tw)),
                y: spec_band(spec_title_y(g, row, th)),
                text: e.spec_title(),
            },
            CanvasOp::Text {
                x: spec_band(spec_subtitle_x(g, col, sw)),
                y: spec_band(spec_title_y(g, row, th) + spec_line_pitch(th)),
                text: e.spec_subtitle(),
            },
            CanvasOp::Text {
                x: spec_band(spec_price_x(g, col, pw)),
                y: spec_band(spec_title_y(g, row, th) + 2 * spec_line_pitch(th)),
                text: e.spec_price_line(),
            },
        ],
    ensures
        spec_cell_caption_ops(g, e, row, col, ops),
{
}

impl PageGeometry {
    /// Measures and draws the three caption lines of every entry under its
    /// cell, row-major, centered on glyph metrics measured against the
    /// actual font at the given scale. The canvas keeps its dimensions,
    /// its log keeps its past, and it gains exactly the caption operations
    /// of these entries: the right texts at the right anchors for the
    /// measured extents.
    pub fn render_captions(
        &self,
        canvas: &mut Canvas,
        entries: &Vec<CardEntry>,
        font: &rusttype::Font,
        scale: &rusttype::Scale,
    )
        requires
            self.wf(),
            entries@.len() <= self.capacity,
        ensures
            final(canvas)@.width == old(canvas)@.width,
            final(canvas)@.height == old(canvas)@.height,
            final(canvas)@.ops.len() == old(canvas)@.ops.len() + 3 * entries@.len(),
            final(canvas)@.ops.subrange(0, old(canvas)@.ops.len() as int) == old(canvas)@.ops,
            spec_caption_ops(
                *self,
                entries@,
                final(canvas)@.ops.skip(old(canvas)@.ops.len() as int),
            ),
    {
        let ghost m0 = canvas@;
        let ghost n0 = m0.ops.len() as int;
        let mut i: usize = 0;
        while i < entries.len()
            invariant
                self.wf(),
                entries@.len() <= self.capacity,
                i <= entries@.len(),
                canvas@.width == m0.width,
                canvas@.height == m0.height,
                n0 == m0.ops.len(),
                canvas@.ops.len() == n0 + 3 * i,
                canvas@.ops.subrange(0, n0) == m0.ops,
                forall|j: int|
                    0 <= j < i ==> spec_cell_caption_ops(
                        *self,
                        #[trigger] entries@[j],
                        spec_row_of(j, self.cols as int),
                        spec_col_of(j, self.cols as int),
                        canvas@.ops.subrange(n0 + 3 * j, n0 + 3 * j + 3),
                    ),
            decreases entries@.len() - i,
        {
            let ghost before = canvas@.ops;
            let pos = self.position_of(i);
            let entry = &entries[i];
            let subtitle = entry.subtitle();
            let price = entry.price_line();
            let (title_w, title_h) = measure_text(scale, font, entry.title().as_str());
            let (subtitle_w, _subtitle_h) = measure_text(scale, font, subtitle.as_str());
            let (price_w, _price_h) = measure_text(scale, font, price.as_str());
            let spots = self.caption_spots(pos.row, pos.col, title_w, title_h, subtitle_w, price_w);
            draw_caption(canvas, spots.title, scale, font, entry.title().as_str());
            draw_caption(canvas, spots.subtitle, scale, font, subtitle.as_str());
            draw_caption(canvas, spots.price, scale, font, price.as_str());
            proof {
                assert(canvas@.ops.len() == before.len() + 3);
                assert forall|k: int| 0 <= k < before.len() implies canvas@.ops[k] == before[k] by {}
                let row = spec_row_of(i as int, self.cols as int);
                let col = spec_col_of(i as int, self.cols as int);
                let triple = canvas@.ops.subrange(n0 + 3 * i, n0 + 3 * i + 3);
                assert(triple =~= seq![
                    CanvasOp::Text {
                        x: spec_band(spec_title_x(*self, col, title_w as int)),
                        y: spec_band(spec_title_y(*self, row, title_h as int)),
                        text: entries@[i as int].spec_title(),
                    },
                    CanvasOp::Text {
                        x: spec_band(spec_subtitle_x(*self, col, subtitle_w as int)),
                        y: spec_band(
                            spec_title_y(*self, row, title_h as int) + spec_line_pitch(
                                title_h as int,
                            ),
                        ),
                        text: entries@[i as int].spec_subtitle(),
                    },
                    CanvasOp::Text {
                        x: spec_band(spec_price_x(*self, col, price_w as int)),
                        y: spec_band(
                            spec_title_y(*self, row, title_h as int) + 2 * spec_line_pitch(
                                title_h as int,
                            ),
                        ),
                        text: entries@[i as int].spec_price_line(),
                    },
                ]);
                lemma_cell_caption_ops_intro(
                    *self,
                    entries@[i as int],
                    row,
                    col,
                    triple,
                    title_w as int,
                    title_h as int,
                    subtitle_w as int,
                    price_w as int,
                );
                assert(canvas@.ops.subrange(0, n0) =~= m0.ops);
                assert forall|j: int| 0 <= j < i + 1 implies spec_cell_caption_ops(
                    *self,
                    #[trigger] entries@[j],
                    spec_row_of(j, self.cols as int),
                    spec_col_of(j, self.cols as int),
                    canvas@.ops.subrange(n0 + 3 * j, n0 + 3 * j + 3),
                ) by {
                    if j < i {
                        assert(canvas@.ops.subrange(n0 + 3 * j, n0 + 3 * j + 3) =~= before.subrange(
                            n0 + 3 * j,
                            n0 + 3 * j + 3,
                        ));
                    }
                }
            }
            i = i + 1;
        }
        proof {
            let tail = canvas@.ops.skip(n0);
            assert forall|j: int| 0 <= j < entries@.len() implies spec_cell_caption_ops(
                *self,
                #[trigger] entries@[j],
                spec_row_of(j, self.cols as int),
                spec_col_of(j, self.cols as int),
                tail.subrange(3 * j, 3 * j + 3),
            ) by {
                assert(tail.subrange(3 * j, 3 * j + 3) =~= canvas@.ops.subrange(
                    n0 + 3 * j,
                    n0 + 3 * j + 3,
                ));
            }
        }
    }
}

/// The title never starts left of its cell; and once the measured title is
/// wider than the cell, its left edge sits exactly on the cell's left edge.
pub proof fn lemma_title_clamped(g: PageGeometry, col: int, tw: int)
    requires
        g.wf(),
        0 <= col < g.cols,
        0 <= tw,
    ensures
        spec_title_x(g, col, tw) >= spec_cell_x(g, col),
        tw > g.cell_width ==> spec_title_x(g, col, tw) == spec_cell_x(g, col),
{
    if tw > g.cell_width {
        vstd::arithmetic::div_mod::lemma_div_is_ordered(g.cell_width as int, tw, 2);
    }
}

} // verus!

//! The full pipeline for one run: pair the entries with their images,
//! split them into pages, and produce one finished canvas per page — a
//! fresh copy of the background, composed and then captioned. Any input
//! fault aborts before the first canvas is produced.

use vstd::prelude::*;
use crate::canvas::{canvas_dimensions, clone_canvas, Canvas, CanvasModel};
use crate::caption::spec_caption_ops;
use crate::compose::{compose_page, spec_compose_ops};
use crate::entry::CardEntry;
use crate::geometry::PageGeometry;
use crate::paginate::{paginate, spec_page, spec_page_count};
use crate::WallError;

verus! {

/// A well-formed geometry holds at least one cell per page.
pub proof fn lemma_capacity_positive(g: PageGeometry)
    requires
        g.wf(),
    ensures
        1 <= g.capacity,
{
    assert(1 <= g.rows * g.cols) by (nonlinear_arith)
        requires
            1 <= g.rows,
            1 <= g.cols,
    ;
}

/// The input contract on a run's lists: entries and images must pair up
/// one to one. Succeeds exactly on equal lengths; otherwise the error
/// names both lengths, so the caller can see which side is short.
pub fn check_pairing(n_entries: usize, n_images: usize) -> (r: Result<(), WallError>)
    ensures
        r is Ok <==> n_entries == n_images,
        r is Err ==> r->Err_0 == (WallError::InputMismatch {
            entries: n_entries,
            images: n_images,
        }),
{
    if n_entries == n_images {
        Ok(())
    } else {
        Err(WallError::InputMismatch { entries: n_entries, images: n_images })
    }
}

/// One finished page of a run: the background's dimensions and log, then
/// one placement per image of the page — each scaled to the cell size at
/// its row-major cell offset — then the three caption lines of each of
/// the page's entries.
pub open spec fn spec_rendered_page(
    g: PageGeometry,
    background: CanvasModel,
    entries: Seq<CardEntry>,
    n_images: int,
    page: CanvasModel,
) -> bool {
    let base = background.ops;
    let comp = spec_compose_ops(g, n_images);
    &&& page.width == background.width
    &&& page.height == background.height
    &&& page.ops.len() == base.len() + comp.len() + 3 * entries.len()
    &&& page.ops.subrange(0, base.len() as int) == base
    &&& page.ops.subrange(base.len() as int, (base.len() + comp.len()) as int) == comp
    &&& spec_caption_ops(g, entries, page.ops.skip((base.len() + comp.len()) as int))
}

/// The background a run may start from: its pixel dimensions are exactly
/// the page dimensions of the geometry, so every finished page is a full
/// page-sized canvas.
pub open spec fn spec_background_fits(g: PageGeometry, background: CanvasModel) -> bool {
    background.width == g.width && background.height == g.height
}

/// Renders the whole run: exactly one canvas per page of the pagination,
/// in page order, each started from a fresh copy of the background, so
/// each is exactly page-sized and gains exactly its own page's placements
/// and captions. Fails, before any page is made: with a resource error
/// when the shared background is not page-sized, else with an input
/// mismatch naming both lengths when the entry and image lists do not
/// pair up one to one.
pub fn render_all(
    entries: Vec<CardEntry>,
    images: Vec<image::DynamicImage>,
    background: &Canvas,
    g: &PageGeometry,
    font: &rusttype::Font,
    scale: &rusttype::Scale,
) -> (r: Result<Vec<Canvas>, WallError>)
    requires
        g.wf(),
    ensures
        r is Ok <==> spec_background_fits(*g, background@) && entries@.len() == images@.len(),
        !spec_background_fits(*g, background@) ==> r == Err::<Vec<Canvas>, WallError>(
            WallError::Resource,
        ),
        spec_background_fits(*g, background@) && entries@.len() != images@.len() ==> r == Err::<
            Vec<Canvas>,
            WallError,
        >(
            WallError::InputMismatch {
                entries: entries@.len() as usize,
                images: images@.len() as usize,
            },
        ),
        r is Ok ==> r->Ok_0@.len() == spec_page_count(
            entries@.len() as int,
            g.capacity as int,
        ),
        r is Ok ==> forall|p: int|
            0 <= p < r->Ok_0@.len() ==> spec_rendered_page(
                *g,
                background@,
                spec_page(entries@, g.capacity as int, p),
                spec_page(images@, g.capacity as int, p).len() as int,
                (#[trigger] r->Ok_0@[p])@,
            ) && (#[trigger] r->Ok_0@[p])@.width == g.width && (#[trigger] r->Ok_0@[p])@.height
                == g.height,
{
    let (bg_width, bg_height) = canvas_dimensions(background);
    if bg_width != g.width || bg_height != g.height {
        return Err(WallError::Resource);
    }
    let n_entries: usize = entries.len();
    let n_images: usize = images.len();
    match check_pairing(n_entries, n_images) {
        Ok(_) => {},
        Err(e) => {
            return Err(e);
        },
    }
    proof {
        lemma_capacity_positive(*g);
    }
    let ghost entry_seq = entries@;
    let ghost image_seq = images@;
    let capacity: usize = g.capacity;
    let ghost cap: int = capacity as int;
    let entry_pages = paginate(entries, capacity);
    let image_pages = paginate(images, capacity);
    let page_count: usize = entry_pages.len();

    let mut out: Vec<Canvas> = Vec::new();
    let mut p: usize = 0;
    while p < page_count
        invariant
            g.wf(),
            cap == g.capacity,
            cap == capacity,
            page_count == entry_pages@.len(),
            entry_pages@.len() == image_pages@.len(),
            forall|q: int|
                0 <= q < entry_pages@.len() ==> (#[trigger] entry_pages@[q])@ == spec_page(
                    entry_seq,
                    cap,
                    q,
                ),
            forall|q: int|
                0 <= q < image_pages@.len() ==> (#[trigger] image_pages@[q])@ == spec_page(
                    image_seq,
                    cap,
                    q,
                ),
            forall|q: int|
                0 <= q < entry_pages@.len() ==> (#[trigger] entry_pages@[q])@.len() <= capacity,
            forall|q: int|
                0 <= q < image_pages@.len() ==> (#[trigger] image_pages@[q])@.len() <= capacity,
            out@.len() == p,
            p <= page_count,
            forall|q: int|
                0 <= q < p ==> spec_rendered_page(
                    *g,
                    background@,
                    spec_page(entry_seq, cap, q),
                    spec_page(image_seq, cap, q).len() as int,
                    (#[trigger] out@[q])@,
                ),
        decreases page_count - p,
    {
        let mut canvas = clone_canvas(background);
        compose_page(&mut canvas, &image_pages[p], g);
        let ghost after_compose = canvas@.ops;
        g.render_captions(&mut canvas, &entry_pages[p], font, scale);
        proof {
            let base = background@.ops;
            let comp = spec_compose_ops(*g, spec_page(image_seq, cap, p as int).len() as int);
            assert(after_compose == base + comp);
            assert forall|k: int| 0 <= k < after_compose.len() implies canvas@.ops[k]
                == after_compose[k] by {
                assert(canvas@.ops[k] == canvas@.ops.subrange(0, after_compose.len() as int)[k]);
            }
            assert(canvas@.ops.subrange(0, base.len() as int) =~= base);
            let n_base = base.len() as int;
            assert forall|k: int| 0 <= k < comp.len() implies #[trigger] comp[k] == canvas@.ops[
                n_base + k
            ] by {
                assert((base + comp)[n_base + k] == comp[k]);
                assert(after_compose[n_base + k] == comp[k]);
            }
            assert(canvas@.ops.subrange(base.len() as int, (base.len() + comp.len()) as int) =~= comp);
            assert(spec_rendered_page(
                *g,
                background@,
                spec_page(entry_seq, cap, p as int),
                spec_page(image_seq, cap, p as int).len() as int,
                canvas@,
            ));
        }
        out.push(canvas);
        p = p + 1;
    }
    Ok(out)
}

} // verus!

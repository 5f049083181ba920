//! The raster and font types the engine works on, and the narrow trusted
//! boundary to the crates that decode, scale, blend and rasterise them.
//!
//! Pixels stay opaque to the engine: the logic decides where things go,
//! never what a pixel holds. What the engine *can* speak of is its model
//! of a canvas: the dimensions it was made with and the log of operations
//! asked of the rasteriser, oldest first. The raw buffer and the outside
//! calls on it are trusted; the model bookkeeping around each call is
//! verified, so a contract over the model says precisely what was drawn
//! where — though not how the pixels came out. That the model's
//! dimensions are the buffer's, and the log the drawing really done, is
//! the trusted reading of the raw calls' documentation below.

use vstd::prelude::*;

verus! {

#[verifier::external_type_specification]
#[verifier::external_body]
pub struct ExDynamicImage(image::DynamicImage);

#[verifier::external_type_specification]
#[verifier::external_body]
pub struct ExFont<'a>(rusttype::Font<'a>);

#[verifier::external_type_specification]
#[verifier::external_body]
pub struct ExScale(rusttype::Scale);

/// One drawing operation asked of the rasteriser.
pub enum CanvasOp {
    /// An image scaled to `w` by `h` pixels, overlaid with source-over
    /// alpha blending, its top-left corner at (`x`, `y`).
    Image { x: int, y: int, w: int, h: int },
    /// A text line rasterised with its anchor at (`x`, `y`).
    Text { x: int, y: int, text: Seq<char> },
}

/// The model of a canvas: its pixel dimensions and the log of every
/// operation asked of the rasteriser since it was made, oldest first.
pub struct CanvasModel {
    /// Width of the pixel buffer.
    pub width: int,
    /// Height of the pixel buffer.
    pub height: int,
    /// The operations asked of the rasteriser, in order.
    pub ops: Seq<CanvasOp>,
}

/// The pixel buffer itself, in the fixed RGBA form the engine composes
/// and annotates. It holds an `image::RgbaImage`, whose generic buffer
/// type Verus cannot declare, so this inner struct stands opaque.
#[verifier::external_body]
struct RawCanvas {
    buf: image::RgbaImage,
}

/// One page's canvas: the opaque pixel buffer beside its ghost model.
/// Both fields are private, so a canvas exists only through the functions
/// of this module, which keep the model in step with every raw call.
pub struct Canvas {
    raw: RawCanvas,
    model: Ghost<CanvasModel>,
}

impl View for Canvas {
    type V = CanvasModel;

    closed spec fn view(&self) -> CanvasModel {
        self.model@
    }
}

/// Relies on `DynamicImage::to_rgba8`: a fresh buffer holding the given
/// image's pixels in RGBA form, the image left untouched.
#[verifier::external_body]
fn raw_of_background(background: &image::DynamicImage) -> RawCanvas {
    RawCanvas { buf: background.to_rgba8() }
}

/// Relies on `ImageBuffer::width` and `ImageBuffer::height`: the buffer's
/// pixel dimensions, read so the model can carry them.
#[verifier::external_body]
fn raw_dimensions(raw: &RawCanvas) -> (d: (u32, u32)) {
    (raw.buf.width(), raw.buf.height())
}

/// Relies on `ImageBuffer`'s `Clone`: a buffer with the same dimensions
/// and pixels, the given one left untouched.
#[verifier::external_body]
fn raw_clone(raw: &RawCanvas) -> RawCanvas {
    RawCanvas { buf: raw.buf.clone() }
}

/// Relies on `imageops::resize` with the nearest-neighbour filter: a
/// fast, quality-agnostic resample of the image to a buffer of exactly
/// the requested dimensions. The bound keeps the requested output buffer
/// addressable; the call also builds an intermediate buffer of
/// source-width by target-height at sixteen bytes per pixel, whose length
/// no image that exists in memory can push past the address space.
#[verifier::external_body]
fn raw_resize(img: &image::DynamicImage, w: u32, h: u32) -> RawCanvas
    requires
        4 * w * h <= usize::MAX,
{
    RawCanvas { buf: image::imageops::resize(img, w, h, image::imageops::FilterType::Nearest) }
}

/// Relies on `imageops::overlay`: draws the top buffer over the bottom
/// one at the given offset with source-over alpha blending, clipped to
/// the bottom buffer's bounds for any offset; the bottom buffer keeps its
/// dimensions.
#[verifier::external_body]
fn raw_overlay(canvas: &mut RawCanvas, top: &RawCanvas, x: i64, y: i64) {
    image::imageops::overlay(&mut canvas.buf, &top.buf, x, y);
}

/// Relies on `imageproc::drawing::draw_text_mut`: rasterises the text
/// onto the buffer at the given anchor in the given solid colour, clipped
/// to the buffer's bounds, which it keeps. The call adds glyph offsets to
/// the anchor in 32 bits before its bounds test, so the anchor must stay
/// a comfortable margin away from the ends of that range.
#[verifier::external_body]
fn raw_draw_text(
    canvas: &mut RawCanvas,
    red: u8,
    green: u8,
    blue: u8,
    alpha: u8,
    x: i32,
    y: i32,
    scale: &rusttype::Scale,
    font: &rusttype::Font,
    text: &str,
)
    requires
        -0x4000_0000 <= x <= 0x4000_0000,
        -0x4000_0000 <= y <= 0x4000_0000,
{
    imageproc::drawing::draw_text_mut(
        &mut canvas.buf,
        image::Rgba([red, green, blue, alpha]),
        x,
        y,
        *scale,
        font,
        text,
    );
}

/// A fresh canvas holding the background's pixels in RGBA form, its model
/// carrying the buffer's measured dimensions and an empty log.
pub fn canvas_of_background(background: &image::DynamicImage) -> (r: Canvas)
    ensures
        r@.ops == Seq::<CanvasOp>::empty(),
        0 <= r@.width <= u32::MAX,
        0 <= r@.height <= u32::MAX,
{
    let raw = raw_of_background(background);
    let (w, h) = raw_dimensions(&raw);
    Canvas {
        raw,
        model: Ghost(CanvasModel { width: w as int, height: h as int, ops: Seq::empty() }),
    }
}

/// A fresh canvas identical to the given one — same dimensions, same
/// pixels, same model — with the given one left untouched.
pub fn clone_canvas(canvas: &Canvas) -> (r: Canvas)
    ensures
        r@ == canvas@,
{
    let raw = raw_clone(&canvas.raw);
    Canvas { raw, model: Ghost(canvas@) }
}

/// Relies on `ImageBuffer::width` and `ImageBuffer::height` — and on
/// every function of this module keeping the model's dimensions equal to
/// the buffer's: the canvas's pixel dimensions.
#[verifier::external_body]
pub fn canvas_dimensions(canvas: &Canvas) -> (d: (u32, u32))
    ensures
        d.0 == canvas@.width,
        d.1 == canvas@.height,
{
    (canvas.raw.buf.width(), canvas.raw.buf.height())
}

/// Hands the finished page back as a `DynamicImage` for the caller's
/// sink; a plain change of wrapper around the same pixels.
#[verifier::external_body]
pub fn canvas_into_image(canvas: Canvas) -> (r: image::DynamicImage) {
    image::DynamicImage::ImageRgba8(canvas.raw.buf)
}

/// The image resampled to exactly the requested dimensions, as a canvas
/// with an empty log.
pub(crate) fn resize_card(img: &image::DynamicImage, w: u32, h: u32) -> (r: Canvas)
    requires
        4 * w * h <= usize::MAX,
    ensures
        r@.width == w,
        r@.height == h,
        r@.ops == Seq::<CanvasOp>::empty(),
{
    let raw = raw_resize(img, w, h);
    Canvas {
        raw,
        model: Ghost(CanvasModel { width: w as int, height: h as int, ops: Seq::empty() }),
    }
}

/// Overlays the top canvas at the given offset: the canvas keeps its
/// dimensions and its log gains this one placement.
pub(crate) fn overlay_at(canvas: &mut Canvas, top: &Canvas, x: i64, y: i64)
    ensures
        final(canvas)@.width == old(canvas)@.width,
        final(canvas)@.height == old(canvas)@.height,
        final(canvas)@.ops == old(canvas)@.ops.push(
            CanvasOp::Image { x: x as int, y: y as int, w: top@.width, h: top@.height },
        ),
{
    raw_overlay(&mut canvas.raw, &top.raw, x, y);
    let ghost m = canvas.model@;
    canvas.model = Ghost(
        CanvasModel {
            ops: m.ops.push(
                CanvasOp::Image { x: x as int, y: y as int, w: top@.width, h: top@.height },
            ),
            ..m
        },
    );
}

/// Relies on `imageproc::drawing::text_size`: the glyph bounding-box
/// extents of the text as laid out in the font at the given scale. Both
/// extents start at zero and only grow over the glyphs, so neither is
/// negative.
#[verifier::external_body]
pub(crate) fn measure_text(scale: &rusttype::Scale, font: &rusttype::Font, text: &str) -> (r: (
    i32,
    i32,
))
    ensures
        0 <= r.0,
        0 <= r.1,
{
    imageproc::drawing::text_size(*scale, font, text)
}

/// Rasterises the text at the given anchor in the given solid colour: the
/// canvas keeps its dimensions and its log gains this one line. The
/// anchor must lie in the rasteriser's safe band.
pub(crate) fn draw_line(
    canvas: &mut Canvas,
    red: u8,
    green: u8,
    blue: u8,
    alpha: u8,
    x: i32,
    y: i32,
    scale: &rusttype::Scale,
    font: &rusttype::Font,
    text: &str,
)
    requires
        -0x4000_0000 <= x <= 0x4000_0000,
        -0x4000_0000 <= y <= 0x4000_0000,
    ensures
        final(canvas)@.width == old(canvas)@.width,
        final(canvas)@.height == old(canvas)@.height,
        final(canvas)@.ops == old(canvas)@.ops.push(
            CanvasOp::Text { x: x as int, y: y as int, text: text@ },
        ),
{
    raw_draw_text(&mut canvas.raw, red, green, blue, alpha, x, y, scale, font, text);
    let ghost m = canvas.model@;
    canvas.model = Ghost(
        CanvasModel { ops: m.ops.push(CanvasOp::Text { x: x as int, y: y as int, text: text@ }), ..m },
    );
}

} // verus!

//! Pixel-level behaviour of page composition: composing the same images
//! onto the same background twice gives pixel-identical canvases, and the
//! cards really land on the canvas.

use image::{DynamicImage, Rgba, RgbaImage};
use prizewall::canvas::{canvas_into_image, canvas_of_background};
use prizewall::compose::compose_page;
use prizewall::geometry::{GeometryConfig, PageGeometry};

fn small_geometry() -> PageGeometry {
    let c = GeometryConfig::new(100, 150, 2, 2);
    PageGeometry::compute(&c).unwrap()
}

fn flat_image(w: u32, h: u32, px: [u8; 4]) -> DynamicImage {
    DynamicImage::ImageRgba8(RgbaImage::from_pixel(w, h, Rgba(px)))
}

fn raw_pixels(c: prizewall::canvas::Canvas) -> Vec<u8> {
    canvas_into_image(c).to_rgba8().into_raw()
}

#[test]
fn composing_twice_is_pixel_identical() {
    let g = small_geometry();
    let background = flat_image(100, 150, [0, 0, 255, 255]);
    let cards = vec![
        flat_image(10, 14, [200, 0, 0, 255]),
        flat_image(64, 80, [0, 200, 0, 255]),
        flat_image(39, 54, [77, 66, 55, 255]),
    ];

    let mut first = canvas_of_background(&background);
    compose_page(&mut first, &cards, &g);
    let mut second = canvas_of_background(&background);
    compose_page(&mut second, &cards, &g);

    assert_eq!(raw_pixels(first), raw_pixels(second));
}

#[test]
fn composing_changes_the_canvas() {
    let g = small_geometry();
    let background = flat_image(100, 150, [0, 0, 255, 255]);
    let cards = vec![flat_image(10, 14, [200, 0, 0, 255])];

    let mut composed = canvas_of_background(&background);
    compose_page(&mut composed, &cards, &g);
    let untouched = canvas_of_background(&background);

    assert_ne!(raw_pixels(composed), raw_pixels(untouched));
}

#[test]
fn card_lands_at_its_cell_offset() {
    let g = small_geometry();
    let background = flat_image(100, 150, [0, 0, 255, 255]);
    let cards = vec![flat_image(10, 14, [200, 0, 0, 255])];

    let mut composed = canvas_of_background(&background);
    compose_page(&mut composed, &cards, &g);
    let img = canvas_into_image(composed).to_rgba8();

    // The first card's cell starts at (margin_left, margin_top) and spans
    // the cell size; inside it the card's colour, outside the background's.
    let (x0, y0) = (g.margin_left, g.margin_top);
    assert_eq!(img.get_pixel(x0, y0), &Rgba([200, 0, 0, 255]));
    assert_eq!(
        img.get_pixel(x0 + g.cell_width - 1, y0 + g.cell_height - 1),
        &Rgba([200, 0, 0, 255])
    );
    assert_eq!(img.get_pixel(x0 + g.cell_width, y0), &Rgba([0, 0, 255, 255]));
    assert_eq!(img.get_pixel(0, 0), &Rgba([0, 0, 255, 255]));
}

#[test]
fn background_canvas_keeps_its_dimensions() {
    let background = flat_image(100, 150, [0, 0, 255, 255]);
    let canvas = canvas_of_background(&background);
    assert_eq!(prizewall::canvas::canvas_dimensions(&canvas), (100, 150));
}

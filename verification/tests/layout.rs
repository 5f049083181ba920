//! Layout behaviour on concrete values: geometry derivation, grid mapping,
//! and caption placement.

use prizewall::caption::CellCaptions;
use prizewall::entry::CardEntry;
use prizewall::geometry::{GeometryConfig, PageGeometry};
use prizewall::WallError;

fn standard_geometry() -> PageGeometry {
    let c = GeometryConfig::new(3508, 4961, 3, 4);
    PageGeometry::compute(&c).unwrap()
}

#[test]
fn geometry_standard_page() {
    let g = standard_geometry();
    assert_eq!(g.margin_top, 396);
    assert_eq!(g.margin_left, 245);
    assert_eq!(g.padding_right, 280);
    assert_eq!(g.cell_width, (3508 - 490 - 840) / 4);
    assert_eq!(g.cell_width, 544);
    assert_eq!(g.cell_height, 761);
    assert_eq!(g.padding_bottom, 628);
    assert_eq!(g.capacity, 12);
}

#[test]
fn geometry_deterministic() {
    let c = GeometryConfig::new(3508, 4961, 3, 4);
    let a = PageGeometry::compute(&c).unwrap();
    let b = PageGeometry::compute(&c).unwrap();
    assert_eq!(a, b);
}

#[test]
fn geometry_degenerate_width() {
    // Three pixels across four columns leave no cell width at all.
    let c = GeometryConfig::new(3, 4961, 3, 4);
    assert_eq!(PageGeometry::compute(&c), Err(WallError::Configuration));
}

#[test]
fn geometry_degenerate_height() {
    // A page too flat for three rows of cells between its margins.
    let c = GeometryConfig::new(3508, 100, 3, 4);
    assert_eq!(PageGeometry::compute(&c), Err(WallError::Configuration));
}

#[test]
fn geometry_empty_grid() {
    let c = GeometryConfig::new(3508, 4961, 0, 4);
    assert_eq!(PageGeometry::compute(&c), Err(WallError::Configuration));
}

#[test]
fn grid_row_major_order() {
    let g = standard_geometry();
    let p0 = g.position_of(0);
    assert_eq!((p0.row, p0.col), (0, 0));
    let p3 = g.position_of(3);
    assert_eq!((p3.row, p3.col), (0, 3));
    let p4 = g.position_of(4);
    assert_eq!((p4.row, p4.col), (1, 0));
    let p11 = g.position_of(11);
    assert_eq!((p11.row, p11.col), (2, 3));
}

#[test]
fn grid_bijection_full_page() {
    let g = standard_geometry();
    for index in 0..12usize {
        let p = g.position_of(index);
        assert!(p.row < 3 && p.col < 4);
        assert_eq!(p.row as usize * 4 + p.col as usize, index);
    }
}

#[test]
fn cell_pixel_offsets() {
    let g = standard_geometry();
    assert_eq!(g.cell_x(0), 245);
    assert_eq!(g.cell_x(1), 245 + 544 + 280);
    assert_eq!(g.cell_y(0), 396);
    assert_eq!(g.cell_y(1), 396 + 761 + 628);
    assert_eq!(g.cell_y(2), 396 + 2 * (761 + 628));
}

fn spots_for(g: &PageGeometry, title_w: i32, title_h: i32, sub_w: i32, price_w: i32) -> CellCaptions {
    g.caption_spots(0, 0, title_w, title_h, sub_w, price_w)
}

#[test]
fn caption_centering_narrow_lines() {
    let g = standard_geometry();
    // x_start 245, cell width 544, so the cell's center is at 245 + 272.
    let c = spots_for(&g, 100, 40, 80, 60);
    assert_eq!(c.title.x, 245 + 272 - 50);
    assert_eq!(c.subtitle.x, 245 + 272 - 40);
    assert_eq!(c.price.x, 245 + 272 - 30);
}

#[test]
fn caption_title_clamped_to_cell_edge() {
    let g = standard_geometry();
    // A title wider than the 544-pixel cell starts exactly at the cell's
    // left edge, never to its left.
    let c = spots_for(&g, 600, 40, 80, 60);
    assert_eq!(c.title.x, 245);
    let c2 = spots_for(&g, 5000, 40, 80, 60);
    assert_eq!(c2.title.x, 245);
}

#[test]
fn caption_subtitle_clamped_at_zero_only() {
    let g = standard_geometry();
    // The subtitle's clamp bound is relative to the center: a line twice as
    // wide as the center offset stops at zero, not at the cell edge.
    let c = spots_for(&g, 100, 40, 2000, 60);
    assert_eq!(c.subtitle.x, 0);
    // A line wider than the cell but narrower than twice the center offset
    // still starts left of the cell edge.
    let c2 = spots_for(&g, 100, 40, 700, 60);
    assert_eq!(c2.subtitle.x, (245 + 272) - 350);
}

#[test]
fn caption_price_unclamped() {
    let g = standard_geometry();
    let c = spots_for(&g, 100, 40, 80, 2000);
    assert_eq!(c.price.x, (245 + 272) - 1000);
}

#[test]
fn caption_vertical_pitch() {
    let g = standard_geometry();
    let c = g.caption_spots(1, 2, 100, 40, 80, 60);
    // One measured line height below the bottom edge of the cell at row 1.
    let y0 = (396 + 761 + 628) + 761 + 40;
    assert_eq!(c.title.y, y0 as i64);
    assert_eq!(c.subtitle.y, (y0 + 60) as i64);
    assert_eq!(c.price.y, (y0 + 120) as i64);
}

#[test]
fn entry_title_prefers_display_override() {
    let with = CardEntry {
        name: String::from("Llanowar Elves"),
        display: Some(String::from("Elfos de Llanowar")),
        set: String::from("M19"),
        language: String::from("PT"),
        condition: String::from("NM"),
        points: 30,
    };
    assert_eq!(with.title(), "Elfos de Llanowar");
    let without = CardEntry { display: None, ..with };
    assert_eq!(without.title(), "Llanowar Elves");
}

#[test]
fn entry_caption_lines() {
    let e = CardEntry {
        name: String::from("Shivan Dragon"),
        display: None,
        set: String::from("LEA"),
        language: String::from("EN"),
        condition: String::from("LP"),
        points: 150,
    };
    assert_eq!(e.subtitle(), "LEA (EN) LP");
    assert_eq!(e.price_line(), "150 WP");
}

#[test]
fn decimal_notation() {
    assert_eq!(prizewall::entry::decimal_string(0), "0");
    assert_eq!(prizewall::entry::decimal_string(7), "7");
    assert_eq!(prizewall::entry::decimal_string(10), "10");
    assert_eq!(prizewall::entry::decimal_string(305), "305");
    assert_eq!(prizewall::entry::decimal_string(u32::MAX), "4294967295");
}

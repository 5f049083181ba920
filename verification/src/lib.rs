//! A layout and composition engine for printable prize-wall sheets: a grid of
//! card images on a fixed-size page, each annotated with three centered
//! caption lines, paginated across as many pages as the card count needs.

use vstd::prelude::*;

pub mod geometry;
pub mod grid;
pub mod canvas;
pub mod caption;
pub mod compose;
pub mod entry;
pub mod paginate;
pub mod render;

verus! {

/// The error kinds the engine can surface. Every failure aborts the whole
/// run before any page is produced; none is silently recovered.
#[derive(Debug, Clone, Copy, PartialEq, Eq, Structural)]
pub enum WallError {
    /// The requested page size and grid shape yield a degenerate layout
    /// (non-positive cell size or negative padding).
    Configuration,
    /// A shared required asset (background canvas or font) is missing or
    /// unusable. Raised by callers that load such assets.
    Resource,
    /// The entry list and the image list do not pair up one to one.
    InputMismatch { entries: usize, images: usize },
}

} // verus!

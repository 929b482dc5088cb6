//! Renders a raster image as colored terminal cells: an image file is
//! decoded into a flat list of two-cell-wide blocks, one per source pixel
//! with non-zero alpha, and an event-driven loop redraws the whole list
//! on every timer tick until the escape key arrives.

pub mod cell;
pub mod loader;
pub mod machine;

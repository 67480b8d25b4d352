//! Verified core of a small vectorization helper: parsing a target colour,
//! thresholding a raster image into a binary pixel mask, joining traced path
//! fragments into one SVG path string, and deciding the outcome of a
//! save-dialog flow.

pub mod color;
pub mod raster;
pub mod save;
pub mod svg;

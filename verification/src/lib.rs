//! Rendering of QR symbols: hex colours, the module grid, and its vector,
//! raster and console presentations, with the dispatch rules that pick one.

pub mod color;
pub mod console;
pub mod decimal;
pub mod dispatch;
pub mod error;
pub mod grid;
pub mod raster;
pub mod svg;
mod text;

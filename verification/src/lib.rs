//! Glyph rasterization and terminal shading.
//!
//! The library selects a system font, rasterizes single Unicode glyphs into
//! an alpha-coverage canvas, and maps 8-bit coverage values to terminal
//! density symbols.

pub mod canvas;
pub mod raster;
pub mod renderer;
pub mod shade;

pub use shade::shade;
